//! Allocation requests: a size in bytes and an alignment.

use vstd::arithmetic::div_mod::{lemma_mod_bound, lemma_mod_decreases};
use vstd::arithmetic::power2::is_pow2;
use vstd::layout::valid_layout;
use vstd::prelude::*;

verus! {

/// Why a size and an alignment do not describe a memory block.
#[derive(Debug, Clone, Copy, PartialEq, Eq, Structural)]
pub enum LayoutError {
    /// The alignment is zero or not a power of two.
    AlignNotPowerOfTwo,
    /// The size, rounded up to a multiple of the alignment, exceeds `isize::MAX`.
    SizeTooLarge,
}

/// The size and alignment of a requested memory block.
///
/// Every value is valid in the sense of [`valid_layout`]: the alignment is a
/// power of two, and the size rounded up to the alignment fits in an `isize`.
#[derive(Debug, Clone, Copy, PartialEq, Eq, Structural)]
pub struct Layout {
    size: usize,
    align: usize,
}

/// Whether `n` is a power of two.
fn is_power_of_two(n: usize) -> (b: bool)
    ensures
        b == is_pow2(n as int),
{
    if n == 0 {
        proof {
            reveal(is_pow2);
        }
        return false;
    }
    let mut m: usize = n;
    while m % 2 == 0
        invariant
            m > 0,
            is_pow2(m as int) == is_pow2(n as int),
        decreases m,
    {
        proof {
            reveal(is_pow2);
        }
        m = m / 2;
    }
    proof {
        reveal(is_pow2);
    }
    m == 1
}

impl Layout {
    /// The size in bytes.
    pub closed spec fn spec_size(&self) -> usize {
        self.size
    }

    /// The alignment in bytes.
    pub closed spec fn spec_align(&self) -> usize {
        self.align
    }

    /// Validity: the alignment is a power of two, and the size, rounded up
    /// to a multiple of the alignment, fits in an `isize`. Every `Layout`
    /// that exists at run time is valid.
    #[verifier::type_invariant]
    pub open spec fn wf(&self) -> bool {
        valid_layout(self.spec_size(), self.spec_align())
    }

    /// The size of a valid layout fits in an `isize`, and its alignment is
    /// not zero.
    pub proof fn lemma_bounds(self)
        requires
            self.wf(),
        ensures
            self.spec_size() <= isize::MAX,
            self.spec_align() > 0,
    {
        reveal(is_pow2);
        lemma_mod_bound(isize::MAX as int, self.spec_align() as int);
    }

    /// Builds a layout from a size and an alignment, or says why there is none.
    pub fn from_size_align(size: usize, align: usize) -> (r: Result<Layout, LayoutError>)
        ensures
            r is Ok <==> valid_layout(size, align),
            r matches Ok(l) ==> l.wf() && l.spec_size() == size && l.spec_align() == align,
            r == Err::<Layout, LayoutError>(LayoutError::AlignNotPowerOfTwo) <==> !is_pow2(
                align as int,
            ),
            r == Err::<Layout, LayoutError>(LayoutError::SizeTooLarge) <==> is_pow2(align as int)
                && !valid_layout(size, align),
    {
        if !is_power_of_two(align) {
            return Err(LayoutError::AlignNotPowerOfTwo);
        }
        let max: usize = isize::MAX as usize;
        proof {
            reveal(is_pow2);
            lemma_mod_decreases(max as nat, align as nat);
        }
        if size > max - max % align {
            return Err(LayoutError::SizeTooLarge);
        }
        Ok(Layout { size, align })
    }

    /// The size in bytes.
    #[verifier::when_used_as_spec(spec_size)]
    pub fn size(&self) -> (r: usize)
        ensures
            r == self.spec_size(),
    {
        self.size
    }

    /// The alignment in bytes.
    #[verifier::when_used_as_spec(spec_align)]
    pub fn align(&self) -> (r: usize)
        ensures
            r == self.spec_align(),
    {
        self.align
    }
}

} // verus!
