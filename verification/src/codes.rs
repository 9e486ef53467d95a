//! The escape-code encoder: the mapping from display operations to the
//! exact byte sequences the charlcd driver understands.
//!
//! Every sequence starts with the three-byte prefix `ESC [ L`.  A simple
//! command adds one command letter; `GotoXY` adds optional `x`/`y` axes with
//! decimal coordinates and a closing `;`; `Generator` adds `G`, the slot
//! digit, sixteen zero-padded lowercase hex digits of the glyph bitmap, and
//! a closing `;`.  The spec functions below state those sequences exactly,
//! and the executable encoder is proved to produce them.

use vstd::prelude::*;

use crate::ScreenError;
use crate::sink::Sink;

verus! {

/// Largest custom-glyph slot index the hardware has.
pub const GENERATOR_MAX_CHAR_INDEX: u8 = 7;

/// One display operation, with its payload where it has one.
#[derive(Clone, Copy, Debug, PartialEq, Eq)]
pub enum SpecialCode {
    DisplayOn,
    DisplayOff,
    CursorOn,
    CursorOff,
    BlinkOn,
    BlinkOff,
    BacklightOn,
    BacklightOff,
    FlashBacklight,
    SmallFont,
    LargeFont,
    OneLine,
    TwoLines,
    ShiftCursorLeft,
    ShiftCursorRight,
    ShiftDisplayLeft,
    ShiftDisplayRight,
    KillEndOfLine,
    ReinitializeDisplay,
    /// Define the custom glyph at the given slot from a packed 8x8 bitmap.
    Generator(u8, u64),
    /// Move the cursor; either axis may be absent.
    GotoXY(Option<u32>, Option<u32>),
}

/// The three-byte escape prefix `ESC [ L` that opens every sequence.
pub open spec fn spec_prefix() -> Seq<u8> {
    seq![0x1bu8, 0x5bu8, 0x4cu8]
}

/// Whether the operation is a simple command: one fixed letter, no payload.
pub open spec fn spec_is_simple(code: SpecialCode) -> bool {
    match code {
        SpecialCode::Generator(_, _) => false,
        SpecialCode::GotoXY(_, _) => false,
        _ => true,
    }
}

/// The single command letter of a simple command.
pub open spec fn spec_simple_byte(code: SpecialCode) -> u8 {
    match code {
        SpecialCode::DisplayOn => 0x44,
        SpecialCode::DisplayOff => 0x64,
        SpecialCode::CursorOn => 0x43,
        SpecialCode::CursorOff => 0x63,
        SpecialCode::BlinkOn => 0x42,
        SpecialCode::BlinkOff => 0x62,
        SpecialCode::BacklightOn => 0x2b,
        SpecialCode::BacklightOff => 0x2d,
        SpecialCode::FlashBacklight => 0x2a,
        SpecialCode::SmallFont => 0x66,
        SpecialCode::LargeFont => 0x46,
        SpecialCode::OneLine => 0x6e,
        SpecialCode::TwoLines => 0x4e,
        SpecialCode::ShiftCursorLeft => 0x6c,
        SpecialCode::ShiftCursorRight => 0x72,
        SpecialCode::ShiftDisplayLeft => 0x4c,
        SpecialCode::ShiftDisplayRight => 0x52,
        SpecialCode::KillEndOfLine => 0x6b,
        SpecialCode::ReinitializeDisplay => 0x49,
        _ => 0,
    }
}

/// The decimal ASCII digits of `n`, most significant first, no sign and no
/// leading zero (a lone `0` for zero).
pub open spec fn spec_decimal(n: nat) -> Seq<u8>
    decreases n,
{
    if n < 10 {
        seq![(0x30 + n) as u8]
    } else {
        spec_decimal(n / 10) + seq![(0x30 + n % 10) as u8]
    }
}

/// The lowercase hex digit of a nibble value.
pub open spec fn spec_hex_digit(d: nat) -> u8 {
    if d < 10 {
        (0x30 + d) as u8
    } else {
        (0x57 + d) as u8
    }
}

/// The last `width` lowercase hex digits of `n`, most significant first,
/// zero-padded.
pub open spec fn spec_hex(n: nat, width: nat) -> Seq<u8>
    decreases width,
{
    if width == 0 {
        Seq::empty()
    } else {
        spec_hex(n / 16, (width - 1) as nat) + seq![spec_hex_digit(n % 16)]
    }
}

/// One `GotoXY` axis: the axis letter and the decimal coordinate when the
/// coordinate is present, nothing when it is absent.
pub open spec fn spec_axis(sym: u8, v: Option<u32>) -> Seq<u8> {
    match v {
        Some(n) => seq![sym] + spec_decimal(n as nat),
        None => Seq::empty(),
    }
}

/// The bytes that follow the escape prefix for an operation.
pub open spec fn spec_body(code: SpecialCode) -> Seq<u8> {
    match code {
        SpecialCode::Generator(index, value) => seq![0x47, (0x30 + index) as u8]
            + spec_hex(value as nat, 16) + seq![0x3b],
        SpecialCode::GotoXY(x, y) => spec_axis(0x78, x) + spec_axis(0x79, y) + seq![0x3b],
        _ => seq![spec_simple_byte(code)],
    }
}

/// The full wire encoding of an operation: the escape prefix, then the
/// operation's body.
pub open spec fn spec_encoding(code: SpecialCode) -> Seq<u8> {
    spec_prefix() + spec_body(code)
}

/// Whether the operation passes validation: a `Generator` slot index must
/// name one of the 8 hardware slots, everything else is always valid.
pub open spec fn spec_valid(code: SpecialCode) -> bool {
    match code {
        SpecialCode::Generator(index, _) => index <= GENERATOR_MAX_CHAR_INDEX,
        _ => true,
    }
}

/// Every simple command encodes as the prefix plus exactly one letter, four
/// bytes in all.
pub proof fn lemma_simple_encoding(code: SpecialCode)
    requires
        spec_is_simple(code),
    ensures
        spec_encoding(code) == spec_prefix() + seq![spec_simple_byte(code)],
        spec_encoding(code).len() == 4,
{
}

/// The command letter of a simple command.
fn simple_byte(code: SpecialCode) -> (b: u8)
    requires
        spec_is_simple(code),
    ensures
        b == spec_simple_byte(code),
{
    match code {
        SpecialCode::DisplayOn => 0x44,
        SpecialCode::DisplayOff => 0x64,
        SpecialCode::CursorOn => 0x43,
        SpecialCode::CursorOff => 0x63,
        SpecialCode::BlinkOn => 0x42,
        SpecialCode::BlinkOff => 0x62,
        SpecialCode::BacklightOn => 0x2b,
        SpecialCode::BacklightOff => 0x2d,
        SpecialCode::FlashBacklight => 0x2a,
        SpecialCode::SmallFont => 0x66,
        SpecialCode::LargeFont => 0x46,
        SpecialCode::OneLine => 0x6e,
        SpecialCode::TwoLines => 0x4e,
        SpecialCode::ShiftCursorLeft => 0x6c,
        SpecialCode::ShiftCursorRight => 0x72,
        SpecialCode::ShiftDisplayLeft => 0x4c,
        SpecialCode::ShiftDisplayRight => 0x52,
        SpecialCode::KillEndOfLine => 0x6b,
        _ => 0x49,
    }
}

/// Append the decimal ASCII digits of `n` to `out`.
fn push_decimal(out: &mut Vec<u8>, n: u32)
    ensures
        final(out)@ == old(out)@ + spec_decimal(n as nat),
    decreases n,
{
    if n >= 10 {
        push_decimal(out, n / 10);
    }
    out.push(0x30 + (n % 10) as u8);
    proof {
        assert(final(out)@ =~= old(out)@ + spec_decimal(n as nat));
    }
}

/// Append the last `width` zero-padded lowercase hex digits of `n` to
/// `out`.
fn push_hex(out: &mut Vec<u8>, n: u64, width: usize)
    ensures
        final(out)@ == old(out)@ + spec_hex(n as nat, width as nat),
    decreases width,
{
    if width > 0 {
        push_hex(out, n / 16, width - 1);
        let d: u8 = (n % 16) as u8;
        if d < 10 {
            out.push(0x30 + d);
        } else {
            out.push(0x57 + d);
        }
        proof {
            assert(final(out)@ =~= old(out)@ + spec_hex(n as nat, width as nat));
        }
    }
}

/// Produce the full wire encoding of an operation, or refuse it before
/// producing any byte when validation fails.
pub fn encode(code: SpecialCode) -> (r: Result<Vec<u8>, ScreenError>)
    ensures
        match r {
            Ok(bytes) => spec_valid(code) && bytes@ == spec_encoding(code),
            Err(e) => e == ScreenError::BadCharIndex && !spec_valid(code),
        },
{
    let mut out: Vec<u8> = Vec::new();
    out.push(0x1b);
    out.push(0x5b);
    out.push(0x4c);
    proof {
        assert(out@ =~= spec_prefix());
    }
    match code {
        SpecialCode::GotoXY(x, y) => {
            if let Some(n) = x {
                out.push(0x78);
                push_decimal(&mut out, n);
            }
            if let Some(n) = y {
                out.push(0x79);
                push_decimal(&mut out, n);
            }
            out.push(0x3b);
            proof {
                assert(out@ =~= spec_encoding(code));
            }
        }
        SpecialCode::Generator(index, value) => {
            if index > GENERATOR_MAX_CHAR_INDEX {
                return Err(ScreenError::BadCharIndex);
            }
            out.push(0x47);
            out.push(0x30 + index);
            push_hex(&mut out, value, 16);
            out.push(0x3b);
            proof {
                assert(out@ =~= spec_encoding(code));
            }
        }
        _ => {
            out.push(simple_byte(code));
            proof {
                assert(out@ =~= spec_encoding(code));
            }
        }
    }
    Ok(out)
}

/// Something that can be serialized into a byte sink.
pub trait WriteInto<W: Sink>: Sized {
    /// The exact bytes the value serializes to.
    spec fn wire_bytes(&self) -> Seq<u8>;

    /// Whether the value passes validation and may be serialized at all.
    spec fn wire_valid(&self) -> bool;

    /// Serialize the value into `writer` and return the count of bytes
    /// written.  A validation failure is reported before any byte reaches
    /// the sink; a sink failure leaves nothing of the value in the sink.
    fn write_into(self, writer: &mut W) -> (r: Result<usize, ScreenError>)
        ensures
            match r {
                Ok(n) => self.wire_valid() && n == self.wire_bytes().len()
                    && final(writer).accepted() == old(writer).accepted() + self.wire_bytes(),
                Err(e) => final(writer).accepted() == old(writer).accepted() && (match e {
                    ScreenError::Transport => self.wire_valid(),
                    ScreenError::BadCharIndex => !self.wire_valid(),
                }),
            },
    ;
}

impl<W: Sink> WriteInto<W> for SpecialCode {
    open spec fn wire_bytes(&self) -> Seq<u8> {
        spec_encoding(*self)
    }

    open spec fn wire_valid(&self) -> bool {
        spec_valid(*self)
    }

    fn write_into(self, writer: &mut W) -> (r: Result<usize, ScreenError>) {
        match encode(self) {
            Ok(bytes) => writer.write(bytes.as_slice()),
            Err(e) => Err(e),
        }
    }
}

} // verus!
