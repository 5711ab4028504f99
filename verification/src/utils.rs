//! Layout arithmetic used when laying out a task in memory.

use vstd::prelude::*;

verus! {

use vstd::arithmetic::power2::is_pow2;
use vstd::layout::valid_layout;
use vstd::arithmetic::div_mod::{lemma_mod_breakdown, lemma_fundamental_div_mod, lemma_fundamental_div_mod_converse};
use vstd::wrapping::usize_specs;
use crate::layout::{Layout, is_pow2_bits, lemma_pow2_iff_bits};

/// A power of two that fits in a `usize` is at most one past `isize::MAX`.
proof fn lemma_pow2_half(a: usize)
    requires
        is_pow2_bits(a),
    ensures
        a - 1 <= isize::MAX,
        usize::MAX == 2 * isize::MAX + 1,
{
    assert(((a - 1) as usize) <= (!0usize >> 1usize)) by (bit_vector)
        requires
            a != 0,
            a & ((a - 1) as usize) == 0,
    ;
    assert(usize::MAX == 2 * isize::MAX + 1);
    let m: usize = usize::MAX;
    assert(m <= !0usize) by (bit_vector);
    assert(!0usize >> 1usize == (!0usize) / 2) by (bit_vector);
}

/// For a power of two `a`, the low bits selected by `a - 1` are the remainder modulo `a`.
proof fn lemma_low_bits_mod(x: usize, a: usize)
    requires
        is_pow2_bits(a),
    ensures
        x & ((a - 1) as usize) == x % a,
    decreases a,
{
    if a == 1 {
        assert(x & 0usize == 0) by (bit_vector);
    } else {
        let h: usize = a / 2;
        assert(a % 2 == 0 && is_pow2_bits(h)) by (bit_vector)
            requires
                a != 0,
                a != 1,
                a & ((a - 1) as usize) == 0,
                h == a / 2,
        ;
        lemma_low_bits_mod(x / 2, h);
        assert(x & ((a - 1) as usize) == (x & 1) + 2 * ((x / 2) & ((h - 1) as usize))) by (bit_vector)
            requires
                a % 2 == 0,
                a > 1,
                h == a / 2,
        ;
        assert(x & 1 == x % 2) by (bit_vector);
        assert(a == 2 * h);
        lemma_mod_breakdown(x as int, 2, h as int);
    }
}

/// Clearing the low bits of `y` below the power of two `a` rounds `y` down to a multiple of `a`.
proof fn lemma_mask_mod(y: usize, a: usize)
    requires
        is_pow2_bits(a),
    ensures
        y & !((a - 1) as usize) == y - y % a,
{
    lemma_low_bits_mod(y, a);
    let m: usize = (a - 1) as usize;
    assert(y & !m == y - (y & m)) by (bit_vector);
}

/// The size of a layout never exceeds `isize::MAX`.
proof fn lemma_size_fits(layout: Layout)
    requires
        layout.valid(),
    ensures
        layout.size() <= isize::MAX,
        is_pow2_bits(layout.align()),
{
    let a = layout.align();
    lemma_pow2_iff_bits(a);
    assert((isize::MAX as int) % (a as int) >= 0) by (nonlinear_arith)
        requires
            a > 0,
    ;
}

/// Adding `a - 1` and dropping the remainder modulo `a` rounds up by exactly the padding.
proof fn lemma_round_up(len: int, a: int)
    requires
        len >= 0,
        a > 0,
    ensures
        (len + a - 1) - (len + a - 1) % a - len == padding_spec(len, a),
        0 <= padding_spec(len, a) < a,
        (len + padding_spec(len, a)) % a == 0,
{
    lemma_fundamental_div_mod(len, a);
    let q = len / a;
    let r = len % a;
    assert(len == q * a + r) by (nonlinear_arith)
        requires
            len == a * q + r,
    ;
    if r == 0 {
        lemma_fundamental_div_mod_converse(len + a - 1, a, q, a - 1);
        lemma_fundamental_div_mod_converse(len, a, q, 0);
        lemma_fundamental_div_mod_converse(a, a, 1, 0);
        assert(padding_spec(len, a) == 0);
    } else {
        assert((q + 1) * a == q * a + a) by (nonlinear_arith);
        lemma_fundamental_div_mod_converse(len + a - 1, a, q + 1, r - 1);
        lemma_fundamental_div_mod_converse(a - r, a, 0, a - r);
        lemma_fundamental_div_mod_converse(len + (a - r), a, q + 1, 0);
    }
}

/// The number of bytes that must follow `size` bytes for the next address to be
/// a multiple of `align`.
pub open spec fn padding_spec(size: int, align: int) -> int {
    (align - size % align) % align
}

/// `size` rounded up to `align` by masking, in wrapping arithmetic; for an
/// `align` that is a power of two this is the next multiple of `align`.
pub open spec fn masked_round_up(size: usize, align: usize) -> usize {
    usize_specs::wrapping_sub(usize_specs::wrapping_add(size, align), 1) & !usize_specs::wrapping_sub(
        align,
        1,
    )
}

/// Returns the padding after `layout` that aligns the following address to `align`.
///
/// The result only has a meaning when `align` is a power of two; for any other
/// `align` it is the wrapping difference between the masked round-up and the size.
pub fn padding_needed_for(layout: Layout, align: usize) -> (r: usize)
    ensures
        r == usize_specs::wrapping_sub(masked_round_up(layout.size(), align), layout.size()),
        is_pow2(align as int) ==> r == padding_spec(layout.size() as int, align as int),
        is_pow2(align as int) ==> r < align && (layout.size() + r) % (align as int) == 0,
{
    proof {
        use_type_invariant(&layout);
    }
    let len = layout.size();
    let len_rounded_up = len.wrapping_add(align).wrapping_sub(1) & !align.wrapping_sub(1);
    proof {
        if is_pow2(align as int) {
            lemma_pow2_iff_bits(align);
            lemma_pow2_half(align);
            lemma_size_fits(layout);
            let y: usize = (len + align - 1) as usize;
            assert(len_rounded_up == y & !((align - 1) as usize));
            lemma_mask_mod(y, align);
            lemma_round_up(len as int, align as int);
            lemma_padding_aligns(len, align);
        }
    }
    len_rounded_up.wrapping_sub(len)
}

/// The offset at which `b` starts when it follows `a`: the size of `a` rounded
/// up to the alignment of `b`.
pub open spec fn extend_offset(a: Layout, b: Layout) -> int {
    a.size() + padding_spec(a.size() as int, b.align() as int)
}

/// The size of `a` followed by `b`.
pub open spec fn extend_size(a: Layout, b: Layout) -> int {
    extend_offset(a, b) + b.size()
}

/// The alignment of `a` followed by `b`: the larger of the two.
pub open spec fn extend_align(a: Layout, b: Layout) -> usize {
    if a.align() >= b.align() {
        a.align()
    } else {
        b.align()
    }
}

/// `a` followed by `b` is itself a valid layout.
pub open spec fn extend_fits(a: Layout, b: Layout) -> bool {
    extend_size(a, b) <= usize::MAX && valid_layout(extend_size(a, b) as usize, extend_align(a, b))
}

/// Returns the layout for `a` followed by `b` and the offset of `b`.
///
/// When the combined layout is not valid the computation panics, so such
/// inputs are excluded.
pub fn extend(a: Layout, b: Layout) -> (r: (Layout, usize))
    requires
        extend_fits(a, b),
    ensures
        r.0.size() == extend_size(a, b),
        r.0.align() == extend_align(a, b),
        r.1 == extend_offset(a, b),
        r.1 % b.align() == 0,
        a.size() <= r.1 < a.size() + b.align(),
        r.0.size() == r.1 + b.size(),
        r.0.align() == a.align() || r.0.align() == b.align(),
        r.0.align() >= a.align(),
        r.0.align() >= b.align(),
{
    proof {
        use_type_invariant(&a);
        use_type_invariant(&b);
        lemma_extend_offset(a, b);
        lemma_extend_align(a, b);
        lemma_size_fits(a);
        lemma_size_fits(b);
        lemma_pow2_iff_bits(b.align());
        lemma_pow2_half(b.align());
        lemma_round_up(a.size() as int, b.align() as int);
    }
    let new_align = a.align().max(b.align());
    let pad = padding_needed_for(a, b.align());

    let offset = a.size().checked_add(pad).unwrap();
    let new_size = offset.checked_add(b.size()).unwrap();

    let layout = Layout::from_size_align(new_size, new_align).unwrap();
    (layout, offset)
}

/// The padding for a power-of-two `align` is smaller than `align` and brings
/// `size` to a multiple of `align`.
pub proof fn lemma_padding_aligns(size: usize, align: usize)
    requires
        is_pow2(align as int),
    ensures
        0 <= padding_spec(size as int, align as int) < align,
        (size + padding_spec(size as int, align as int)) % (align as int) == 0,
{
    lemma_pow2_iff_bits(align);
    lemma_round_up(size as int, align as int);
}

/// In `a` followed by `b`, `b` starts at a multiple of its alignment, after the
/// last byte of `a`, and less than one alignment of `b` past it.
pub proof fn lemma_extend_offset(a: Layout, b: Layout)
    requires
        a.valid(),
        b.valid(),
    ensures
        extend_offset(a, b) % (b.align() as int) == 0,
        a.size() <= extend_offset(a, b) < a.size() + b.align(),
        extend_offset(a, b) + b.size() == extend_size(a, b),
{
    lemma_padding_aligns(a.size(), b.align());
}

/// The alignment of `a` followed by `b` is one of the two alignments and no
/// smaller than either, so it is the larger of the two; it is a multiple of both,
/// so the start of the combined block is suitably aligned for `a` and for `b`.
pub proof fn lemma_extend_align(a: Layout, b: Layout)
    requires
        a.valid(),
        b.valid(),
    ensures
        extend_align(a, b) % a.align() == 0,
        extend_align(a, b) % b.align() == 0,
        extend_align(a, b) >= a.align(),
        extend_align(a, b) >= b.align(),
        extend_align(a, b) == a.align() || extend_align(a, b) == b.align(),
{
    lemma_size_fits(a);
    lemma_size_fits(b);
    if a.align() <= b.align() {
        lemma_pow2_multiple(a.align(), b.align());
    } else {
        lemma_pow2_multiple(b.align(), a.align());
    }
    lemma_pow2_multiple(a.align(), a.align());
    lemma_pow2_multiple(b.align(), b.align());
}

/// Of two powers of two, the larger is a multiple of the smaller.
proof fn lemma_pow2_multiple(small: usize, large: usize)
    requires
        is_pow2_bits(small),
        is_pow2_bits(large),
        small <= large,
    ensures
        large % small == 0,
{
    lemma_low_bits_mod(large, small);
    assert(large & ((small - 1) as usize) == 0) by (bit_vector)
        requires
            small != 0,
            small & ((small - 1) as usize) == 0,
            large != 0,
            large & ((large - 1) as usize) == 0,
            small <= large,
    ;
}

} // verus!
