use async_task_ffi::layout::LayoutError;
use async_task_ffi::utils::{extend, padding_needed_for};
use async_task_ffi::Layout;

fn layout(size: usize, align: usize) -> Layout {
    Layout::from_size_align(size, align).unwrap()
}

#[test]
fn from_size_align_accepts_valid_layouts() {
    let l = layout(24, 8);
    assert_eq!(l.size(), 24);
    assert_eq!(l.align(), 8);
    let z = layout(0, 1);
    assert_eq!(z.size(), 0);
    assert_eq!(z.align(), 1);
    let big = layout(isize::MAX as usize, 1);
    assert_eq!(big.size(), isize::MAX as usize);
    let high_align = layout(0, 1usize << (usize::BITS - 1));
    assert_eq!(high_align.align(), 1usize << (usize::BITS - 1));
}

#[test]
fn from_size_align_rejects_bad_alignment() {
    assert_eq!(Layout::from_size_align(8, 0).unwrap_err(), LayoutError);
    assert_eq!(Layout::from_size_align(8, 3).unwrap_err(), LayoutError);
    assert_eq!(Layout::from_size_align(8, 12).unwrap_err(), LayoutError);
}

#[test]
fn from_size_align_rejects_oversized() {
    assert!(Layout::from_size_align(isize::MAX as usize + 1, 1).is_err());
    assert!(Layout::from_size_align(isize::MAX as usize, 2).is_err());
    assert!(Layout::from_size_align(isize::MAX as usize - 7, 8).is_ok());
    assert!(Layout::from_size_align(isize::MAX as usize - 6, 8).is_err());
    assert!(Layout::from_size_align(usize::MAX, 1).is_err());
}

#[test]
fn padding_for_power_of_two_alignment() {
    assert_eq!(padding_needed_for(layout(5, 1), 8), 3);
    assert_eq!(padding_needed_for(layout(8, 8), 8), 0);
    assert_eq!(padding_needed_for(layout(0, 1), 16), 0);
    assert_eq!(padding_needed_for(layout(9, 1), 4), 3);
    assert_eq!(padding_needed_for(layout(17, 1), 1), 0);
    assert_eq!(padding_needed_for(layout(1, 1), 4096), 4095);
}

#[test]
fn padding_brings_size_to_alignment() {
    for size in 0..64usize {
        for shift in 0..8u32 {
            let align = 1usize << shift;
            let pad = padding_needed_for(layout(size, 1), align);
            assert!(pad < align);
            assert_eq!((size + pad) % align, 0);
        }
    }
}

#[test]
fn padding_for_other_alignments_is_the_masked_difference() {
    assert_eq!(padding_needed_for(layout(5, 1), 0), usize::MAX - 4);
    assert_eq!(padding_needed_for(layout(5, 1), 3), 0);
    assert_eq!(padding_needed_for(layout(0, 1), 0), 0);
}

#[test]
fn extend_places_second_after_first() {
    let (l, offset) = extend(layout(5, 1), layout(8, 8));
    assert_eq!(offset, 8);
    assert_eq!(l.size(), 16);
    assert_eq!(l.align(), 8);

    let (l, offset) = extend(layout(12, 4), layout(2, 2));
    assert_eq!(offset, 12);
    assert_eq!(l.size(), 14);
    assert_eq!(l.align(), 4);

    let (l, offset) = extend(layout(0, 1), layout(0, 1));
    assert_eq!(offset, 0);
    assert_eq!(l.size(), 0);
    assert_eq!(l.align(), 1);

    let (l, offset) = extend(layout(1, 16), layout(3, 4));
    assert_eq!(offset, 4);
    assert_eq!(l.size(), 7);
    assert_eq!(l.align(), 16);
}

#[test]
fn extend_offset_is_aligned_and_minimal() {
    for a_size in 0..40usize {
        for a_shift in 0..5u32 {
            for b_shift in 0..6u32 {
                let a = layout(a_size, 1 << a_shift);
                let b = layout(3, 1 << b_shift);
                let (l, offset) = extend(a, b);
                assert_eq!(offset % b.align(), 0);
                assert!(a.size() <= offset && offset < a.size() + b.align());
                assert_eq!(l.size(), offset + b.size());
                assert_eq!(l.align() % a.align(), 0);
                assert_eq!(l.align() % b.align(), 0);
            }
        }
    }
}

#[test]
fn extend_up_to_the_size_limit() {
    let max = isize::MAX as usize;
    let (l, offset) = extend(layout(max - 8, 1), layout(8, 1));
    assert_eq!(offset, max - 8);
    assert_eq!(l.size(), max);
}
