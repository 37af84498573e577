//! A deterministic model allocator: it moves no real memory, and exists so
//! the decorator can be exercised — and its recording observed — with
//! predictable addresses and failures.

use vstd::prelude::*;

use crate::debug_alloc::BlockAllocator;
use crate::event::{lemma_wf_align_nonzero, AllocError, Block, Layout};

verus! {

/// An allocator model that grants every request whose size is within
/// `capacity` and refuses the rest. A granted block reports the requested
/// alignment as its address (nonzero, since a well-formed alignment is a
/// power of two) and exactly the requested size.
#[derive(Clone, Copy, Debug, PartialEq, Eq, Structural)]
pub struct StubAllocator {
    pub capacity: usize,
}

impl BlockAllocator for StubAllocator {
    fn allocate(&self, layout: Layout) -> (r: Result<Block, AllocError>) {
        if layout.size <= self.capacity {
            proof {
                lemma_wf_align_nonzero(layout);
            }
            Ok(Block { addr: layout.align, size: layout.size })
        } else {
            Err(AllocError)
        }
    }

    fn deallocate(&self, addr: usize, layout: Layout) {
    }

    fn allocate_zeroed(&self, layout: Layout) -> (r: Result<Block, AllocError>) {
        if layout.size <= self.capacity {
            proof {
                lemma_wf_align_nonzero(layout);
            }
            Ok(Block { addr: layout.align, size: layout.size })
        } else {
            Err(AllocError)
        }
    }

    fn grow(&self, addr: usize, old_layout: Layout, new_layout: Layout) -> (r: Result<
        Block,
        AllocError,
    >) {
        if new_layout.size <= self.capacity {
            proof {
                lemma_wf_align_nonzero(new_layout);
            }
            Ok(Block { addr: new_layout.align, size: new_layout.size })
        } else {
            Err(AllocError)
        }
    }

    fn grow_zeroed(&self, addr: usize, old_layout: Layout, new_layout: Layout) -> (r: Result<
        Block,
        AllocError,
    >) {
        if new_layout.size <= self.capacity {
            proof {
                lemma_wf_align_nonzero(new_layout);
            }
            Ok(Block { addr: new_layout.align, size: new_layout.size })
        } else {
            Err(AllocError)
        }
    }

    fn shrink(&self, addr: usize, old_layout: Layout, new_layout: Layout) -> (r: Result<
        Block,
        AllocError,
    >) {
        if new_layout.size <= self.capacity {
            proof {
                lemma_wf_align_nonzero(new_layout);
            }
            Ok(Block { addr: new_layout.align, size: new_layout.size })
        } else {
            Err(AllocError)
        }
    }
}

} // verus!
