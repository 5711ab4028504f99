//! Memory layouts: a size together with a power-of-two alignment.

use vstd::prelude::*;

verus! {

use vstd::arithmetic::power2::is_pow2;
use vstd::layout::valid_layout;

/// `align` is a power of two, stated on its bits.
pub open spec fn is_pow2_bits(align: usize) -> bool {
    align != 0 && align & ((align - 1) as usize) == 0
}

/// A power of two is exactly a nonzero number that shares no bit with its predecessor.
pub proof fn lemma_pow2_iff_bits(align: usize)
    ensures
        is_pow2(align as int) <==> is_pow2_bits(align),
    decreases align,
{
    reveal(is_pow2);
    if align == 0 {
    } else if align == 1 {
        assert(1usize & 0usize == 0) by (bit_vector);
    } else if align % 2 == 1 {
        assert(align & ((align - 1) as usize) != 0) by (bit_vector)
            requires
                align % 2 == 1,
                align > 1,
        ;
    } else {
        let half: usize = align / 2;
        lemma_pow2_iff_bits(half);
        assert(align & ((align - 1) as usize) == 0 <==> half & ((half - 1) as usize) == 0) by (bit_vector)
            requires
                align % 2 == 0,
                align > 1,
                half == align / 2,
        ;
    }
}


/// The size and alignment of a block of memory.
///
/// The alignment is a power of two, and the size rounded up to a multiple of
/// the alignment does not exceed `isize::MAX`.
#[derive(Clone, Copy, Debug)]
pub struct Layout {
    size: usize,
    align: usize,
}

/// The parameters given to [`Layout::from_size_align`] do not describe a valid layout.
#[derive(Clone, Copy, Debug, PartialEq, Eq)]
pub struct LayoutError;

impl Layout {
    pub closed spec fn spec_size(&self) -> usize {
        self.size
    }

    pub closed spec fn spec_align(&self) -> usize {
        self.align
    }

    /// Every layout is valid in the sense of `vstd::layout::valid_layout`.
    #[verifier::type_invariant]
    pub open spec fn valid(&self) -> bool {
        valid_layout(self.spec_size(), self.spec_align())
    }

    /// Builds the layout of `size` bytes aligned to `align`, or fails when
    /// `align` is not a power of two or `size` rounded up to `align` would
    /// exceed `isize::MAX`.
    pub fn from_size_align(size: usize, align: usize) -> (r: Result<Layout, LayoutError>)
        ensures
            r is Ok <==> valid_layout(size, align),
            r matches Ok(l) ==> l.spec_size() == size && l.spec_align() == align,
    {
        proof {
            lemma_pow2_iff_bits(align);
        }
        if align == 0 || align & (align - 1) != 0 {
            return Err(LayoutError);
        }
        let max: usize = isize::MAX as usize;
        assert(max % align <= max) by (nonlinear_arith)
            requires
                align > 0,
        ;
        if size > max - max % align {
            return Err(LayoutError);
        }
        Ok(Layout { size, align })
    }

    /// The size in bytes.
    #[verifier::when_used_as_spec(spec_size)]
    pub fn size(&self) -> (r: usize)
        ensures
            r == self.spec_size(),
    {
        self.size
    }

    /// The alignment in bytes.
    #[verifier::when_used_as_spec(spec_align)]
    pub fn align(&self) -> (r: usize)
        ensures
            r == self.spec_align(),
    {
        self.align
    }
}

} // verus!
