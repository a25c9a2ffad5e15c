use tracking_allocator::{Layout, LayoutError};

#[test]
fn a_layout_keeps_its_size_and_alignment() {
    let layout = Layout::from_size_align(64, 8).unwrap();
    assert_eq!(layout.size(), 64);
    assert_eq!(layout.align(), 8);
}

#[test]
fn an_empty_layout_is_valid() {
    let layout = Layout::from_size_align(0, 1).unwrap();
    assert_eq!(layout.size(), 0);
    assert_eq!(layout.align(), 1);
}

#[test]
fn a_zero_alignment_is_refused() {
    assert_eq!(Layout::from_size_align(8, 0).err(), Some(LayoutError::AlignNotPowerOfTwo));
}

#[test]
fn an_alignment_that_is_no_power_of_two_is_refused() {
    for align in [3usize, 6, 12, 100, usize::MAX] {
        assert_eq!(
            Layout::from_size_align(8, align).err(),
            Some(LayoutError::AlignNotPowerOfTwo)
        );
    }
}

#[test]
fn every_power_of_two_is_an_alignment() {
    let mut align: usize = 1;
    for _ in 0..usize::BITS {
        let layout = Layout::from_size_align(0, align).unwrap();
        assert_eq!(layout.align(), align);
        align = align.wrapping_mul(2);
    }
}

#[test]
fn the_size_may_reach_the_last_multiple_of_the_alignment() {
    let largest = isize::MAX as usize;
    assert_eq!(Layout::from_size_align(largest, 1).unwrap().size(), largest);
    assert_eq!(Layout::from_size_align(largest - 1, 2).unwrap().size(), largest - 1);
    assert_eq!(Layout::from_size_align(largest - 4095, 4096).unwrap().size(), largest - 4095);
}

#[test]
fn a_size_beyond_the_last_multiple_of_the_alignment_is_refused() {
    let largest = isize::MAX as usize;
    assert_eq!(Layout::from_size_align(largest, 2).err(), Some(LayoutError::SizeTooLarge));
    assert_eq!(Layout::from_size_align(largest + 1, 1).err(), Some(LayoutError::SizeTooLarge));
    assert_eq!(Layout::from_size_align(largest - 4094, 4096).err(), Some(LayoutError::SizeTooLarge));
    assert_eq!(Layout::from_size_align(usize::MAX, 8).err(), Some(LayoutError::SizeTooLarge));
    assert_eq!(Layout::from_size_align(1, largest + 1).err(), Some(LayoutError::SizeTooLarge));
}

#[test]
fn a_bad_alignment_is_reported_before_a_large_size() {
    assert_eq!(
        Layout::from_size_align(usize::MAX, 3).err(),
        Some(LayoutError::AlignNotPowerOfTwo)
    );
}
