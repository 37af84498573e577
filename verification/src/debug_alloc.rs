//! The instrumented decorator: it forwards every allocation-lifecycle call
//! to an inner allocator unchanged and records each call as an [`Action`]
//! in a shared, reader-writer-locked [`History`].

use std::sync::Arc;

use vstd::prelude::*;
use vstd::rwlock::{RwLock, RwLockPredicate};

use crate::event::{Action, AllocError, Block, Kind, Layout};
use crate::history::History;

verus! {

/// The six-operation capability set an allocator offers: each operation
/// takes a layout (the resizing ones an existing address and the old layout
/// too) and yields a usable block of at least the requested size, or the
/// distinguished failure signal. The documented preconditions — well-formed
/// layouts, a nonzero address from a prior successful call, sizes ordered
/// as the operation demands — stay with the caller.
pub trait BlockAllocator {
    /// Requests a fresh block of the given layout.
    fn allocate(&self, layout: Layout) -> (r: Result<Block, AllocError>)
        requires
            layout.wf(),
        ensures
            r matches Ok(b) ==> b.addr != 0 && b.size >= layout.size,
    ;

    /// Returns the block at `addr`, previously obtained with this layout.
    fn deallocate(&self, addr: usize, layout: Layout)
        requires
            layout.wf(),
            addr != 0,
    ;

    /// Requests a fresh zero-filled block of the given layout.
    fn allocate_zeroed(&self, layout: Layout) -> (r: Result<Block, AllocError>)
        requires
            layout.wf(),
        ensures
            r matches Ok(b) ==> b.addr != 0 && b.size >= layout.size,
    ;

    /// Extends the block at `addr` from the old layout to the new, larger
    /// one.
    fn grow(&self, addr: usize, old_layout: Layout, new_layout: Layout) -> (r: Result<
        Block,
        AllocError,
    >)
        requires
            old_layout.wf(),
            new_layout.wf(),
            addr != 0,
            old_layout.size <= new_layout.size,
        ensures
            r matches Ok(b) ==> b.addr != 0 && b.size >= new_layout.size,
    ;

    /// Extends the block at `addr` as `grow` does, zero-filling the added
    /// bytes.
    fn grow_zeroed(&self, addr: usize, old_layout: Layout, new_layout: Layout) -> (r: Result<
        Block,
        AllocError,
    >)
        requires
            old_layout.wf(),
            new_layout.wf(),
            addr != 0,
            old_layout.size <= new_layout.size,
        ensures
            r matches Ok(b) ==> b.addr != 0 && b.size >= new_layout.size,
    ;

    /// Reduces the block at `addr` from the old layout to the new, smaller
    /// one.
    fn shrink(&self, addr: usize, old_layout: Layout, new_layout: Layout) -> (r: Result<
        Block,
        AllocError,
    >)
        requires
            old_layout.wf(),
            new_layout.wf(),
            addr != 0,
            new_layout.size <= old_layout.size,
        ensures
            r matches Ok(b) ==> b.addr != 0 && b.size >= new_layout.size,
    ;
}

/// The lock predicate of the shared history: any log value may be stored.
pub struct HistoryPred;

impl RwLockPredicate<History> for HistoryPred {
    open spec fn inv(self, v: History) -> bool {
        true
    }
}

/// Wraps an inner allocator and a shared history log. Every lifecycle call
/// goes to the inner allocator first; its result is then recorded and handed
/// back untouched, so the decorator substitutes for the plain allocator.
///
/// Cloning the decorator duplicates the handle: both handles refer to the
/// same logical store, guarded by a verified reader-writer lock.
#[derive(Clone)]
pub struct DebugAlloc<A> {
    alloc: A,
    history: Arc<RwLock<History, HistoryPred>>,
}

impl<A> DebugAlloc<A> {
    /// Wraps `alloc` with a new, empty shared history.
    pub fn new(alloc: A) -> DebugAlloc<A> {
        DebugAlloc { alloc, history: Arc::new(RwLock::new(History::new(), Ghost(HistoryPred))) }
    }

    /// A snapshot of the shared history at some moment between call and
    /// return: the recorded actions, oldest first.
    pub fn history(&self) -> Vec<Action> {
        let handle = self.history.acquire_read();
        let r = handle.borrow().snapshot();
        handle.release_read();
        r
    }

    /// Whether the store's synchronization has been left in a broken state.
    /// The verified lock guarding the history cannot be left broken by a
    /// failed writer, so this reports `false`; it is kept as part of the
    /// inspection surface for callers that probe for degradation.
    pub fn poisoned(&self) -> (r: bool)
        ensures
            r == false,
    {
        false
    }

    /// Renders every recorded entry, newest first.
    pub fn dump_all_history(&self) -> Vec<String> {
        let handle = self.history.acquire_read();
        let r = handle.borrow().dump_all();
        handle.release_read();
        r
    }

    /// Renders the `min(n, length)` newest entries, newest first.
    pub fn dump_n(&self, n: usize) -> Vec<String> {
        let handle = self.history.acquire_read();
        let r = handle.borrow().dump_n(n);
        handle.release_read();
        r
    }

    /// Removes all recorded entries.
    pub fn clear_history(&self) {
        let (mut h, handle) = self.history.acquire_write();
        h.clear();
        handle.release_write(h);
    }

    /// Removes the oldest `n` entries; when the log holds no more than `n`,
    /// this empties it entirely.
    pub fn pop_history_n(&self, n: usize) {
        let (mut h, handle) = self.history.acquire_write();
        h.pop_front_n(n);
        handle.release_write(h);
    }

    /// Retains only the newest `n` entries, discarding everything older.
    pub fn shrink_history(&self, n: usize) {
        let (mut h, handle) = self.history.acquire_write();
        h.shrink_to_last_n(n);
        handle.release_write(h);
    }

    /// Appends one recorded outcome under the write lock and hands the
    /// outcome back unchanged.
    fn record(&self, kind: Kind, layout: Layout, outcome: Result<Block, AllocError>) -> (r: Result<
        Block,
        AllocError,
    >)
        ensures
            r == outcome,
    {
        let (mut h, handle) = self.history.acquire_write();
        let r = h.record(kind, layout, outcome);
        handle.release_write(h);
        r
    }

    /// Appends one action under the write lock.
    fn append(&self, a: Action) {
        let (mut h, handle) = self.history.acquire_write();
        h.append(a);
        handle.release_write(h);
    }
}

impl<A: BlockAllocator> DebugAlloc<A> {
    /// Forwards to the inner allocator, then records an `Allocate` action
    /// whose address is present exactly when the call succeeded; the inner
    /// result is returned untouched.
    pub fn allocate(&self, layout: Layout) -> (r: Result<Block, AllocError>)
        requires
            layout.wf(),
        ensures
            r matches Ok(b) ==> b.addr != 0 && b.size >= layout.size,
    {
        let result = self.alloc.allocate(layout);
        self.record(Kind::Allocate, layout, result)
    }

    /// Forwards to the inner allocator, then records a `Deallocate` action
    /// carrying the freed address.
    pub fn deallocate(&self, addr: usize, layout: Layout)
        requires
            layout.wf(),
            addr != 0,
    {
        self.alloc.deallocate(addr, layout);
        self.append(Action { addr: Some(addr), layout, kind: Kind::Deallocate });
    }

    /// Forwards to the inner allocator, then records an `AllocateZeroed`
    /// action; the inner result is returned untouched.
    pub fn allocate_zeroed(&self, layout: Layout) -> (r: Result<Block, AllocError>)
        requires
            layout.wf(),
        ensures
            r matches Ok(b) ==> b.addr != 0 && b.size >= layout.size,
    {
        let result = self.alloc.allocate_zeroed(layout);
        self.record(Kind::AllocateZeroed, layout, result)
    }

    /// Forwards to the inner allocator, then records a `Grow` action whose
    /// payload is the old layout; the inner result is returned untouched.
    pub fn grow(&self, addr: usize, old_layout: Layout, new_layout: Layout) -> (r: Result<
        Block,
        AllocError,
    >)
        requires
            old_layout.wf(),
            new_layout.wf(),
            addr != 0,
            old_layout.size <= new_layout.size,
        ensures
            r matches Ok(b) ==> b.addr != 0 && b.size >= new_layout.size,
    {
        let result = self.alloc.grow(addr, old_layout, new_layout);
        self.record(Kind::Grow(old_layout), new_layout, result)
    }

    /// Forwards to the inner allocator, then records a `GrowZeroed` action
    /// whose payload is the old layout; the inner result is returned
    /// untouched.
    pub fn grow_zeroed(&self, addr: usize, old_layout: Layout, new_layout: Layout) -> (r: Result<
        Block,
        AllocError,
    >)
        requires
            old_layout.wf(),
            new_layout.wf(),
            addr != 0,
            old_layout.size <= new_layout.size,
        ensures
            r matches Ok(b) ==> b.addr != 0 && b.size >= new_layout.size,
    {
        let result = self.alloc.grow_zeroed(addr, old_layout, new_layout);
        self.record(Kind::GrowZeroed(old_layout), new_layout, result)
    }

    /// Forwards to the inner allocator, then records a `Shrink` action whose
    /// payload is the old layout; the inner result is returned untouched.
    pub fn shrink(&self, addr: usize, old_layout: Layout, new_layout: Layout) -> (r: Result<
        Block,
        AllocError,
    >)
        requires
            old_layout.wf(),
            new_layout.wf(),
            addr != 0,
            new_layout.size <= old_layout.size,
        ensures
            r matches Ok(b) ==> b.addr != 0 && b.size >= new_layout.size,
    {
        let result = self.alloc.shrink(addr, old_layout, new_layout);
        self.record(Kind::Shrink(old_layout), new_layout, result)
    }
}

} // verus!
