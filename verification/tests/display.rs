use checkin_embedded::display::{flash_steps, frame_total, scroll_frame, text_columns, HT16K33};
use checkin_embedded::glyph::Char;

fn lit(d: &HT16K33, x: usize, y: usize) -> bool {
    (d.buffer[2 * y] >> ((x + 7) % 8)) & 1 == 1
}

#[test]
fn glyphs_from_table() {
    assert_eq!(Char::from('A'), Char(4, 0b0111111000010001000100010111111000000000));
    assert_eq!(Char::from('!'), Char(1, 0b0101111100000000000000000000000000000000));
    assert_eq!(Char::from(' '), Char(3, 0));
    assert_eq!(Char::from('é'), Char(3, 0));
    assert_eq!(Char::from('~'), Char(4, 0b0000100000000100000010000000010000000000));
}

#[test]
fn columns_of_text() {
    assert_eq!(text_columns("!"), vec![0b01011111, 0]);
    assert_eq!(text_columns(" "), vec![0, 0, 0]);
    assert_eq!(text_columns("A "), vec![0b01111110, 0b00010001, 0b00010001, 0b01111110, 0, 0, 0, 0]);
    assert_eq!(text_columns(""), Vec::<u8>::new());
}

#[test]
fn set_pixel_addresses_rows() {
    let mut d = HT16K33::blank();
    d.set_pixel(0, 0, true);
    assert_eq!(d.buffer[0], 0b1000_0000);
    d.set_pixel(1, 0, true);
    assert_eq!(d.buffer[0], 0b1000_0001);
    d.set_pixel(7, 3, true);
    assert_eq!(d.buffer[6], 0b0100_0000);
    d.set_pixel(0, 0, false);
    assert_eq!(d.buffer[0], 0b0000_0001);
    assert!(lit(&d, 1, 0) && lit(&d, 7, 3) && !lit(&d, 0, 0));
}

#[test]
fn all_on_and_clear_leave_odd_bytes() {
    let mut d = HT16K33 { buffer: [0x5a; 16] };
    d.all_on();
    for i in 0..8 {
        assert_eq!(d.buffer[2 * i], 0xff);
        assert_eq!(d.buffer[2 * i + 1], 0x5a);
    }
    d.clear();
    for i in 0..8 {
        assert_eq!(d.buffer[2 * i], 0x00);
        assert_eq!(d.buffer[2 * i + 1], 0x5a);
    }
}

#[test]
fn buffer_writes_carry_addresses() {
    let mut d = HT16K33::blank();
    d.buffer[3] = 9;
    let w = d.buffer_writes();
    assert_eq!(w.len(), 16);
    assert_eq!(w[0], [0, 0]);
    assert_eq!(w[3], [3, 9]);
    assert_eq!(w[15], [15, 0]);
}

#[test]
fn brightness_command_sets_level() {
    assert_eq!(HT16K33::brightness_command(15), 0xEF);
    assert_eq!(HT16K33::brightness_command(0), 0xE0);
}

#[test]
fn first_frame_shows_first_column_at_the_edge() {
    let mut devices = vec![HT16K33::blank(), HT16K33::blank()];
    let columns = text_columns("!");
    scroll_frame(&mut devices, &columns, 0);
    // Screen column 0 is column 0 of the first display and shows 0b01011111.
    for y in 0..8 {
        assert_eq!(lit(&devices[0], 0, y), 0b01011111u8 & (1 << (7 - y)) != 0);
    }
    for x in 1..8 {
        for y in 0..8 {
            assert!(!lit(&devices[0], x, y));
            assert!(!lit(&devices[1], x, y));
        }
    }
}

#[test]
fn scroll_ends_blank() {
    let mut devices = vec![HT16K33 { buffer: [0xff; 16] }, HT16K33 { buffer: [0xff; 16] }];
    let columns = text_columns("Hi!");
    let frames = columns.len() + 8 * devices.len();
    for k in 0..frames {
        scroll_frame(&mut devices, &columns, k);
        if k == 9 {
            // Column 9 (display 1, column 1) shows the first text column.
            for y in 0..8 {
                assert_eq!(lit(&devices[1], 1, y), columns[0] & (1 << (7 - y)) != 0);
            }
        }
    }
    for d in &devices {
        for y in 0..8 {
            assert_eq!(d.buffer[2 * y], 0);
            assert_eq!(d.buffer[2 * y + 1], 0xff);
        }
    }
}

#[test]
fn flash_alternates_starting_lit() {
    assert_eq!(
        flash_steps(&[500, 200, 100, 0]),
        vec![(true, 500), (false, 200), (true, 100), (false, 0)]
    );
    assert_eq!(flash_steps(&[]), vec![]);
}

#[test]
fn frame_total_counts_text_and_screen() {

    let devices = vec![HT16K33::blank(), HT16K33::blank()];
    assert_eq!(frame_total(&text_columns("!"), &devices), 18);
    assert_eq!(frame_total(&[], &devices), 16);
}
