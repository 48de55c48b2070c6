use raytrace::checker::checker_is_even;

#[test]
fn origin_cell_is_even() {
    assert!(checker_is_even(0, 0, 0));
}

#[test]
fn neighbouring_cells_alternate() {
    assert!(!checker_is_even(1, 0, 0));
    assert!(!checker_is_even(0, -1, 0));
    assert!(checker_is_even(1, 1, 0));
    assert!(checker_is_even(-1, 0, -3));
    assert!(!checker_is_even(-2, 0, -3));
}

#[test]
fn extreme_coordinates_do_not_overflow() {
    assert!(!checker_is_even(i32::MAX, i32::MAX, i32::MAX));
    assert!(checker_is_even(i32::MIN, i32::MIN, i32::MIN));
    assert!(!checker_is_even(i32::MAX, i32::MIN, 0));
}
