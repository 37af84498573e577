//! The event model: block layouts, allocation outcomes, and the record of
//! one intercepted allocator call.

use vstd::prelude::*;

verus! {

/// The shape of a memory block: a size in bytes and an alignment in bytes.
///
/// A layout is well formed when the alignment is a power of two and the size
/// does not overflow the largest rounded-up allocation the platform admits.
#[derive(Clone, Copy, Debug, PartialEq, Eq, Structural, Hash)]
pub struct Layout {
    pub size: usize,
    pub align: usize,
}

impl Layout {
    /// The conditions an allocator may rely on: alignment is a power of two
    /// and the size stays within the platform's addressable range.
    pub open spec fn wf(self) -> bool {
        vstd::layout::valid_layout(self.size, self.align)
    }

    /// Builds a layout after checking well-formedness; returns `None` exactly
    /// when the pair would not form a valid layout.
    pub fn from_size_align(size: usize, align: usize) -> (r: Option<Layout>)
        ensures
            r is Some <==> vstd::layout::valid_layout(size, align),
            r matches Some(l) ==> l == (Layout { size, align }),
    {
        if !is_power_of_two(align) {
            return None;
        }
        proof {
            reveal(vstd::arithmetic::power2::is_pow2);
            assert(align >= 1);
            vstd::arithmetic::div_mod::lemma_mod_decreases(isize::MAX as nat, align as nat);
        }
        let max: usize = isize::MAX as usize;
        if size <= max - (max % align) {
            Some(Layout { size, align })
        } else {
            None
        }
    }
}

/// A well-formed layout has a nonzero alignment: zero is no power of two.
pub proof fn lemma_wf_align_nonzero(l: Layout)
    requires
        l.wf(),
    ensures
        l.align >= 1,
{
    reveal(vstd::arithmetic::power2::is_pow2);
}

/// Reports whether `n` is a power of two, mirroring the recursive
/// specification `vstd::arithmetic::power2::is_pow2`.
pub fn is_power_of_two(n: usize) -> (r: bool)
    ensures
        r == vstd::arithmetic::power2::is_pow2(n as int),
    decreases n,
{
    proof {
        reveal(vstd::arithmetic::power2::is_pow2);
    }
    if n == 0 {
        false
    } else if n == 1 {
        true
    } else if n % 2 == 0 {
        is_power_of_two(n / 2)
    } else {
        false
    }
}

/// A successfully allocated block: its nonzero address and the usable size,
/// which is at least what was requested.
#[derive(Clone, Copy, Debug, PartialEq, Eq, Structural, Hash)]
pub struct Block {
    pub addr: usize,
    pub size: usize,
}

/// The distinguished failure signal of an allocator operation.
#[derive(Clone, Copy, Debug, PartialEq, Eq, Structural, Hash)]
pub struct AllocError;

/// Names the intercepted operation; the three resizing variants carry the
/// prior layout as payload, the others carry none.
#[derive(Clone, Copy, Debug, PartialEq, Eq, Structural, Hash)]
pub enum Kind {
    Allocate,
    Deallocate,
    AllocateZeroed,
    Grow(Layout),
    GrowZeroed(Layout),
    Shrink(Layout),
}

impl Kind {
    /// True of the variants that resize an existing block and so carry the
    /// old layout as payload.
    pub open spec fn spec_is_resizing(self) -> bool {
        match self {
            Kind::Grow(_) | Kind::GrowZeroed(_) | Kind::Shrink(_) => true,
            _ => false,
        }
    }

    /// True of the variants that resize an existing block.
    #[verifier::when_used_as_spec(spec_is_resizing)]
    pub fn is_resizing(self) -> (r: bool)
        ensures
            r == self.spec_is_resizing(),
    {
        match self {
            Kind::Grow(_) | Kind::GrowZeroed(_) | Kind::Shrink(_) => true,
            _ => false,
        }
    }
}

/// One recorded lifecycle call: the operation, the new or requested layout,
/// and the resulting address — present exactly when the call succeeded (for
/// deallocation, the address being freed, always present).
#[derive(Clone, Copy, Debug, PartialEq, Eq, Structural, Hash)]
pub struct Action {
    pub addr: Option<usize>,
    pub layout: Layout,
    pub kind: Kind,
}

} // verus!
