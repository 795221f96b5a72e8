use sophross::selection::after_delete;

#[test]
fn deleting_the_only_row_clears_the_selection() {
    assert_eq!(after_delete(0, 1), None);
    assert_eq!(after_delete(0, 0), None);
    assert_eq!(after_delete(5, 1), None);
}

#[test]
fn deleting_the_last_row_selects_the_row_before_it() {
    assert_eq!(after_delete(4, 5), Some(3));
    assert_eq!(after_delete(1, 2), Some(0));
    assert_eq!(after_delete(9, 5), Some(3));
}

#[test]
fn deleting_another_row_selects_the_row_that_followed() {
    assert_eq!(after_delete(0, 5), Some(0));
    assert_eq!(after_delete(3, 5), Some(3));
    assert_eq!(after_delete(usize::MAX - 2, usize::MAX), Some(usize::MAX - 2));
}

#[test]
fn the_selection_is_always_a_row_of_the_shorter_list() {
    for len in 0..8 {
        for selected in 0..10 {
            if let Some(row) = after_delete(selected, len) {
                assert!(row < len - 1);
            } else {
                assert!(len <= 1);
            }
        }
    }
}
