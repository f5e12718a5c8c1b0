use chip8::display::Display;

#[test]
fn new_display_is_blank_and_unchanged() {
    let d = Display::new();
    assert!(!d.changed());
    for y in 0..32usize {
        for x in 0..64usize {
            assert_eq!(d.peek(x, y), 0);
        }
    }
}

#[test]
fn display_is_64_by_32() {
    let d = Display::new();
    assert_eq!(d.width(), 64);
    assert_eq!(d.height(), 32);
}

#[test]
fn poke_sets_one_pixel_and_marks_the_display() {
    let mut d = Display::new();
    d.poke(63, 31, 1);
    assert!(d.changed());
    assert_eq!(d.peek(63, 31), 1);
    assert_eq!(d.peek(62, 31), 0);
    assert_eq!(d.peek(63, 30), 0);
    assert_eq!(d.peek(0, 0), 0);
    d.poke(63, 31, 0);
    assert_eq!(d.peek(63, 31), 0);
}

#[test]
fn poke_of_zero_still_marks_the_display() {
    let mut d = Display::new();
    d.poke(3, 4, 0);
    assert!(d.changed());
    assert_eq!(d.peek(3, 4), 0);
}

#[test]
fn pixels_are_addressed_by_column_then_row() {
    let mut d = Display::new();
    d.poke(5, 2, 1);
    assert_eq!(d.peek(5, 2), 1);
    assert_eq!(d.peek(2, 5), 0);
    let mut buf = vec![0u8; 8192];
    d.draw(&mut buf);
    let at = (2 * 64 + 5) * 4;
    assert_eq!(&buf[at..at + 4], &[0xff, 0xff, 0xff, 0xff]);
    let other = (5 * 64 + 2) * 4;
    assert_eq!(&buf[other..other + 4], &[0, 0, 0, 0]);
}

#[test]
fn clear_blanks_the_screen_and_marks_it() {
    let mut d = Display::new();
    d.poke(1, 1, 1);
    d.poke(40, 20, 1);
    let mut buf = vec![0u8; 8192];
    d.draw(&mut buf);
    assert!(!d.changed());
    d.clear();
    assert!(d.changed());
    for y in 0..32usize {
        for x in 0..64usize {
            assert_eq!(d.peek(x, y), 0);
        }
    }
}

#[test]
fn draw_maps_pixels_to_four_bytes_each() {
    let mut d = Display::new();
    d.poke(0, 0, 1);
    d.poke(63, 31, 1);
    let mut buf = vec![0x55u8; 8192];
    d.draw(&mut buf);
    assert_eq!(&buf[0..4], &[0xff, 0xff, 0xff, 0xff]);
    assert_eq!(&buf[4..8], &[0, 0, 0, 0]);
    assert_eq!(&buf[8188..8192], &[0xff, 0xff, 0xff, 0xff]);
    assert_eq!(&buf[8184..8188], &[0, 0, 0, 0]);
    let lit = buf.iter().filter(|b| **b == 0xff).count();
    let dark = buf.iter().filter(|b| **b == 0).count();
    assert_eq!(lit, 8);
    assert_eq!(dark, 8184);
}

#[test]
fn draw_takes_the_change_flag_down_and_keeps_the_pixels() {
    let mut d = Display::new();
    d.poke(10, 10, 1);
    assert!(d.changed());
    let mut buf = vec![0u8; 8192];
    d.draw(&mut buf);
    assert!(!d.changed());
    assert_eq!(d.peek(10, 10), 1);
}

#[test]
fn draw_leaves_the_rest_of_a_longer_buffer_alone() {
    let mut d = Display::new();
    d.poke(0, 0, 1);
    let mut buf = vec![0x77u8; 8192 + 3];
    d.draw(&mut buf);
    assert_eq!(buf[0], 0xff);
    assert_eq!(buf[8191], 0);
    assert_eq!(&buf[8192..], &[0x77, 0x77, 0x77]);
}
