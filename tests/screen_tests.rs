use raytrace::screen::Screen;

#[test]
fn new_screen_is_black() {
    let s = Screen::new(4, 3);
    assert_eq!(s.width, 4);
    assert_eq!(s.height, 3);
    assert_eq!(s.buffer.len(), 12);
    assert!(s.buffer.iter().all(|p| *p == (0, 0, 0)));
}

#[test]
fn empty_screen_has_no_pixels() {
    let s = Screen::new(0, 7);
    assert_eq!(s.buffer.len(), 0);
}

#[test]
fn write_pixel_sets_row_major_position() {
    let mut s = Screen::new(4, 3);
    s.write_pixel(1, 2, (10, 20, 30));
    assert_eq!(s.buffer[2 * 4 + 1], (10, 20, 30));
    for (i, p) in s.buffer.iter().enumerate() {
        if i != 9 {
            assert_eq!(*p, (0, 0, 0));
        }
    }
}

#[test]
fn write_pixel_overwrites_corners() {
    let mut s = Screen::new(2, 2);
    s.write_pixel(0, 0, (1, 2, 3));
    s.write_pixel(1, 1, (255, 255, 255));
    s.write_pixel(0, 0, (4, 5, 6));
    assert_eq!(s.buffer, vec![(4, 5, 6), (0, 0, 0), (0, 0, 0), (255, 255, 255)]);
}
