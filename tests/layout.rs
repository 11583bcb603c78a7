use komoswitch::layout::{slot_at, slots_width};

#[test]
fn click_hits_the_marker_under_it() {
    let widths = vec![10, 20, 8];
    assert_eq!(slot_at(&widths, 1, 15), Some(0));
    assert_eq!(slot_at(&widths, 1, 9), None);
    assert_eq!(slot_at(&widths, 1, 10), Some(0));
    assert_eq!(slot_at(&widths, 1, 40), Some(0));
    assert_eq!(slot_at(&widths, 1, 41), None);
    assert_eq!(slot_at(&widths, 1, 55), Some(1));
    assert_eq!(slot_at(&widths, 1, 105), Some(1));
    assert_eq!(slot_at(&widths, 1, 106), None);
    assert_eq!(slot_at(&widths, 1, 120), Some(2));
    assert_eq!(slot_at(&widths, 1, 1000), None);
    assert_eq!(slot_at(&widths, 1, -3), None);
}

#[test]
fn focused_marker_is_wider() {
    let widths = vec![10];
    assert_eq!(slot_at(&widths, 0, 5), Some(0));
    assert_eq!(slot_at(&widths, 1, 5), None);
    assert_eq!(slot_at(&widths, 0, 45), Some(0));
    assert_eq!(slot_at(&widths, 1, 45), None);
}

#[test]
fn total_width_sums_padded_slots() {
    assert_eq!(slots_width(&vec![]), Some(0));
    assert_eq!(slots_width(&vec![10, 20, 8]), Some(158));
    assert_eq!(slots_width(&vec![i32::MAX - 40]), Some(i32::MAX));
    assert_eq!(slots_width(&vec![i32::MAX - 39]), None);
    assert_eq!(slots_width(&vec![i32::MAX, i32::MAX]), None);
}
