use charlcd::Screen;
use charlcd::ScreenError;
use charlcd::sink::MemSink;
use charlcd::sink::Sink;

fn fresh() -> Screen<MemSink> {
    Screen::new(MemSink::new())
}

#[test]
fn screen_simple_methods_send_their_codes() {
    let mut screen = fresh();
    screen.display_on().unwrap();
    screen.display_off().unwrap();
    screen.cursor_on().unwrap();
    screen.cursor_off().unwrap();
    screen.blink_on().unwrap();
    screen.blink_off().unwrap();
    screen.backlight_on().unwrap();
    screen.backlight_off().unwrap();
    screen.flash_backlight().unwrap();
    screen.small_font().unwrap();
    screen.large_font().unwrap();
    screen.one_line().unwrap();
    screen.two_lines().unwrap();
    screen.shift_cursor_left().unwrap();
    screen.shift_cursor_right().unwrap();
    screen.shift_display_left().unwrap();
    screen.shift_display_right().unwrap();
    screen.kill_eol().unwrap();
    screen.reinit().unwrap();
    let expected = "\x1b[LD\x1b[Ld\x1b[LC\x1b[Lc\x1b[LB\x1b[Lb\x1b[L+\x1b[L-\x1b[L*\
                    \x1b[Lf\x1b[LF\x1b[Ln\x1b[LN\x1b[Ll\x1b[Lr\x1b[LL\x1b[LR\x1b[Lk\x1b[LI";
    assert_eq!(screen.take_bytes(), expected.as_bytes().to_vec());
}

#[test]
fn clear_writes_one_form_feed_byte() {
    let mut screen = fresh();
    screen.clear().unwrap();
    assert_eq!(screen.take_bytes(), vec![0x0c]);
}

#[test]
fn back_writes_one_backspace_byte() {
    let mut screen = fresh();
    screen.back().unwrap();
    assert_eq!(screen.take_bytes(), vec![0x08]);
}

#[test]
fn goto_methods_send_goto_codes() {
    let mut screen = fresh();
    screen.gotoxy(42, 32).unwrap();
    assert_eq!(screen.take_bytes(), b"\x1b[Lx42y32;".to_vec());
    screen.gotox(42).unwrap();
    assert_eq!(screen.take_bytes(), b"\x1b[Lx42;".to_vec());
    screen.gotoy(42).unwrap();
    assert_eq!(screen.take_bytes(), b"\x1b[Ly42;".to_vec());
    screen.gotoxy(0, 0).unwrap();
    assert_eq!(screen.take_bytes(), b"\x1b[Lx0y0;".to_vec());
}

#[test]
fn custom_char_packs_first_row_highest() {
    let mut screen = fresh();
    screen
        .custom_char(7, [0xde, 0xad, 0xbe, 0xef, 0xde, 0xca, 0xca, 0xfe])
        .unwrap();
    assert_eq!(screen.take_bytes(), b"\x1b[LG7deadbeefdecacafe;".to_vec());

    screen.custom_char(0, [1, 2, 3, 4, 5, 6, 7, 8]).unwrap();
    assert_eq!(screen.take_bytes(), b"\x1b[LG00102030405060708;".to_vec());

    // Rows that use only the low five bits, as real glyphs do.
    screen
        .custom_char(2, [0b00000, 0b01000, 0b01100, 0b01110, 0b01100, 0b01000, 0b00000, 0b00000])
        .unwrap();
    assert_eq!(screen.take_bytes(), b"\x1b[LG200080c0e0c080000;".to_vec());
}

#[test]
fn custom_char_bad_slot_sends_nothing() {
    let mut screen = fresh();
    let r = screen.custom_char(8, [0xff; 8]);
    assert_eq!(r.unwrap_err(), ScreenError::BadCharIndex);
    assert_eq!(screen.take_bytes(), Vec::<u8>::new());
}

#[test]
fn write_and_flush_pass_through() {
    let mut screen = fresh();
    let n = screen.write(b"hello, world!").unwrap();
    assert_eq!(n, 13);
    screen.flush().unwrap();
    screen.flash_backlight().unwrap();
    assert_eq!(screen.take_bytes(), b"hello, world!\x1b[L*".to_vec());
    // Taking the bytes drained the buffer.
    assert_eq!(screen.take_bytes(), Vec::<u8>::new());
}

#[test]
fn sink_keeps_call_order() {
    let mut sink = MemSink::new();
    sink.write(b"text").unwrap();
    sink.write(&[0x0c]).unwrap();
    sink.flush().unwrap();
    sink.write(b"more").unwrap();
    assert_eq!(sink.data().as_slice(), b"text\x0cmore");
    assert_eq!(sink.take(), b"text\x0cmore".to_vec());
    assert!(sink.data().is_empty());
}
