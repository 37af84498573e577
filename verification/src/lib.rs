//! A diagnostic decorator for memory allocators.
//!
//! The crate wraps an allocator (any implementor of the six-operation
//! [`BlockAllocator`] capability set) and records every lifecycle call as an
//! immutable [`Action`] in a shared, thread-safe [`History`] log, without
//! altering what the wrapped allocator returns.

mod debug_alloc;
mod event;
mod history;
mod render;
mod stub;

pub use debug_alloc::{BlockAllocator, DebugAlloc};
pub use event::{Action, AllocError, Block, Kind, Layout};
pub use history::{History, lemma_append_preserves_log};
pub use render::fmt_layout;
pub use stub::StubAllocator;
