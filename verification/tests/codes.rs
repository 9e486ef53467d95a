use charlcd::ScreenError;
use charlcd::codes::SpecialCode;
use charlcd::codes::WriteInto;
use charlcd::codes::encode;
use charlcd::sink::MemSink;

fn assert_code_eq(code: SpecialCode, expected: &str) {
    let mut buf = MemSink::new();
    let count = code.write_into(&mut buf).unwrap();
    let expected = expected.as_bytes();

    assert_eq!(count, expected.len());
    assert_eq!(&buf.data()[0..count], expected);
}

#[test]
fn simple_codes() {
    assert_code_eq(SpecialCode::DisplayOff, "\x1b[Ld");
    assert_code_eq(SpecialCode::DisplayOn, "\x1b[LD");
}

#[test]
fn special_code_goto_xy() {
    assert_code_eq(SpecialCode::GotoXY(None, None), "\x1b[L;");
    assert_code_eq(SpecialCode::GotoXY(Some(42), None), "\x1b[Lx42;");
    assert_code_eq(SpecialCode::GotoXY(None, Some(42)), "\x1b[Ly42;");
    assert_code_eq(SpecialCode::GotoXY(Some(42), Some(32)), "\x1b[Lx42y32;");
}

#[test]
fn special_code_gen() {
    assert_code_eq(
        SpecialCode::Generator(7, 0xdeadbeefdecacafe),
        "\x1b[LG7deadbeefdecacafe;",
    );
    assert_code_eq(SpecialCode::Generator(7, 0xff), "\x1b[LG700000000000000ff;");
}

#[test]
fn every_simple_code() {
    assert_code_eq(SpecialCode::DisplayOn, "\x1b[LD");
    assert_code_eq(SpecialCode::DisplayOff, "\x1b[Ld");
    assert_code_eq(SpecialCode::CursorOn, "\x1b[LC");
    assert_code_eq(SpecialCode::CursorOff, "\x1b[Lc");
    assert_code_eq(SpecialCode::BlinkOn, "\x1b[LB");
    assert_code_eq(SpecialCode::BlinkOff, "\x1b[Lb");
    assert_code_eq(SpecialCode::BacklightOn, "\x1b[L+");
    assert_code_eq(SpecialCode::BacklightOff, "\x1b[L-");
    assert_code_eq(SpecialCode::FlashBacklight, "\x1b[L*");
    assert_code_eq(SpecialCode::SmallFont, "\x1b[Lf");
    assert_code_eq(SpecialCode::LargeFont, "\x1b[LF");
    assert_code_eq(SpecialCode::OneLine, "\x1b[Ln");
    assert_code_eq(SpecialCode::TwoLines, "\x1b[LN");
    assert_code_eq(SpecialCode::ShiftCursorLeft, "\x1b[Ll");
    assert_code_eq(SpecialCode::ShiftCursorRight, "\x1b[Lr");
    assert_code_eq(SpecialCode::ShiftDisplayLeft, "\x1b[LL");
    assert_code_eq(SpecialCode::ShiftDisplayRight, "\x1b[LR");
    assert_code_eq(SpecialCode::KillEndOfLine, "\x1b[Lk");
    assert_code_eq(SpecialCode::ReinitializeDisplay, "\x1b[LI");
}

#[test]
fn goto_xy_edge_coordinates() {
    assert_code_eq(SpecialCode::GotoXY(Some(0), Some(0)), "\x1b[Lx0y0;");
    assert_code_eq(
        SpecialCode::GotoXY(Some(4294967295), None),
        "\x1b[Lx4294967295;",
    );
    assert_code_eq(SpecialCode::GotoXY(Some(10), Some(100)), "\x1b[Lx10y100;");
}

#[test]
fn generator_hex_is_zero_padded() {
    assert_code_eq(SpecialCode::Generator(0, 0), "\x1b[LG00000000000000000;");
    assert_code_eq(
        SpecialCode::Generator(1, 0x0123456789abcdef),
        "\x1b[LG10123456789abcdef;",
    );
}

#[test]
fn generator_bad_index_writes_nothing() {
    let mut buf = MemSink::new();
    let r = SpecialCode::Generator(8, 0xdeadbeefdecacafe).write_into(&mut buf);
    assert_eq!(r.unwrap_err(), ScreenError::BadCharIndex);
    assert!(buf.data().is_empty());

    let mut buf = MemSink::new();
    let r = SpecialCode::Generator(255, 0).write_into(&mut buf);
    assert_eq!(r.unwrap_err(), ScreenError::BadCharIndex);
    assert!(buf.data().is_empty());
}

#[test]
fn encode_matches_write_into() {
    let bytes = encode(SpecialCode::KillEndOfLine).unwrap();
    assert_eq!(bytes, b"\x1b[Lk".to_vec());
    let bytes = encode(SpecialCode::GotoXY(Some(42), Some(32))).unwrap();
    assert_eq!(bytes, b"\x1b[Lx42y32;".to_vec());
    let err = encode(SpecialCode::Generator(9, 1)).unwrap_err();
    assert_eq!(err, ScreenError::BadCharIndex);
}

#[test]
fn write_into_returns_byte_count() {
    let mut buf = MemSink::new();
    let count = SpecialCode::GotoXY(Some(42), Some(32)).write_into(&mut buf).unwrap();
    assert_eq!(count, 10);
    let count = SpecialCode::Generator(7, 0xff).write_into(&mut buf).unwrap();
    assert_eq!(count, 22);
    let count = SpecialCode::BacklightOn.write_into(&mut buf).unwrap();
    assert_eq!(count, 4);
}
