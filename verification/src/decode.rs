//! A ghost decoder for the escape protocol, and the round-trip proof.
//!
//! No executable decoder is in scope: the driver is the only consumer of
//! the byte stream.  The spec-level decoder here exists as a consistency
//! check on the encoder: decoding the encoding of any valid operation
//! recovers that operation exactly, so the encoding loses nothing.

use vstd::arithmetic::div_mod::lemma_fundamental_div_mod;
use vstd::arithmetic::div_mod::lemma_multiply_divide_lt;
use vstd::prelude::*;

use crate::codes::SpecialCode;
use crate::codes::spec_body;
use crate::codes::spec_decimal;
use crate::codes::spec_encoding;
use crate::codes::spec_hex;
use crate::codes::spec_hex_digit;
use crate::codes::spec_is_simple;
use crate::codes::spec_prefix;
use crate::codes::spec_simple_byte;
use crate::codes::spec_valid;

verus! {

/// Whether the byte is a decimal ASCII digit.
pub open spec fn is_digit(b: u8) -> bool {
    0x30 <= b <= 0x39
}

/// Whether the byte is a lowercase hexadecimal ASCII digit.
pub open spec fn is_hex_digit(b: u8) -> bool {
    is_digit(b) || 0x61 <= b <= 0x66
}

/// The value of one hexadecimal digit byte.
pub open spec fn hex_digit_val(b: u8) -> nat {
    if is_digit(b) {
        (b - 0x30) as nat
    } else {
        (b - 0x57) as nat
    }
}

/// The number a string of decimal digit bytes denotes.
pub open spec fn decimal_val(s: Seq<u8>) -> nat
    decreases s.len(),
{
    if s.len() == 0 {
        0
    } else {
        decimal_val(s.drop_last()) * 10 + (s.last() - 0x30) as nat
    }
}

/// The number a string of hexadecimal digit bytes denotes.
pub open spec fn hex_val(s: Seq<u8>) -> nat
    decreases s.len(),
{
    if s.len() == 0 {
        0
    } else {
        hex_val(s.drop_last()) * 16 + hex_digit_val(s.last())
    }
}

/// How many decimal digit bytes stand at the front of `s`.
pub open spec fn digits_len(s: Seq<u8>) -> nat
    decreases s.len(),
{
    if s.len() > 0 && is_digit(s[0]) {
        1 + digits_len(s.drop_first())
    } else {
        0
    }
}

/// 16 to the power `k`: the count of values `k` hex digits can hold.
pub open spec fn pow16(k: nat) -> nat
    decreases k,
{
    if k == 0 {
        1
    } else {
        16 * pow16((k - 1) as nat)
    }
}

/// The simple command a lone command letter decodes to.
pub open spec fn decode_simple(b: u8) -> Option<SpecialCode> {
    if b == 0x44 {
        Some(SpecialCode::DisplayOn)
    } else if b == 0x64 {
        Some(SpecialCode::DisplayOff)
    } else if b == 0x43 {
        Some(SpecialCode::CursorOn)
    } else if b == 0x63 {
        Some(SpecialCode::CursorOff)
    } else if b == 0x42 {
        Some(SpecialCode::BlinkOn)
    } else if b == 0x62 {
        Some(SpecialCode::BlinkOff)
    } else if b == 0x2b {
        Some(SpecialCode::BacklightOn)
    } else if b == 0x2d {
        Some(SpecialCode::BacklightOff)
    } else if b == 0x2a {
        Some(SpecialCode::FlashBacklight)
    } else if b == 0x66 {
        Some(SpecialCode::SmallFont)
    } else if b == 0x46 {
        Some(SpecialCode::LargeFont)
    } else if b == 0x6e {
        Some(SpecialCode::OneLine)
    } else if b == 0x4e {
        Some(SpecialCode::TwoLines)
    } else if b == 0x6c {
        Some(SpecialCode::ShiftCursorLeft)
    } else if b == 0x72 {
        Some(SpecialCode::ShiftCursorRight)
    } else if b == 0x4c {
        Some(SpecialCode::ShiftDisplayLeft)
    } else if b == 0x52 {
        Some(SpecialCode::ShiftDisplayRight)
    } else if b == 0x6b {
        Some(SpecialCode::KillEndOfLine)
    } else if b == 0x49 {
        Some(SpecialCode::ReinitializeDisplay)
    } else {
        None
    }
}

/// The `Generator` operation a body decodes to: `G`, one slot digit,
/// sixteen hex digits, `;`.
pub open spec fn decode_generator(b: Seq<u8>) -> Option<SpecialCode> {
    if b.len() == 19 && b[0] == 0x47 && 0x30 <= b[1] <= 0x37 && (forall|i: int|
        2 <= i < 18 ==> is_hex_digit(#[trigger] b[i])) && b[18] == 0x3b {
        Some(
            SpecialCode::Generator((b[1] - 0x30) as u8, hex_val(b.subrange(2, 18)) as u64),
        )
    } else {
        None
    }
}

/// The rest of a `GotoXY` body after its `y` letter: the decimal `y`
/// coordinate and the terminator.
pub open spec fn decode_tail_y(r: Seq<u8>, x: Option<u32>) -> Option<SpecialCode> {
    let k = digits_len(r) as int;
    if k == 0 {
        None
    } else {
        let y = decimal_val(r.take(k));
        let rest = r.skip(k);
        if y < 0x1_0000_0000 && rest.len() == 1 && rest[0] == 0x3b {
            Some(SpecialCode::GotoXY(x, Some(y as u32)))
        } else {
            None
        }
    }
}

/// The `GotoXY` operation a body decodes to: an optional `x` axis, an
/// optional `y` axis, and the terminator.
pub open spec fn decode_goto(b: Seq<u8>) -> Option<SpecialCode> {
    if b.len() == 1 && b[0] == 0x3b {
        Some(SpecialCode::GotoXY(None, None))
    } else if b.len() > 1 && b[0] == 0x78 {
        let r = b.skip(1);
        let k = digits_len(r) as int;
        if k == 0 {
            None
        } else {
            let x = decimal_val(r.take(k));
            let rest = r.skip(k);
            if x >= 0x1_0000_0000 {
                None
            } else if rest.len() == 1 && rest[0] == 0x3b {
                Some(SpecialCode::GotoXY(Some(x as u32), None))
            } else if rest.len() > 1 && rest[0] == 0x79 {
                decode_tail_y(rest.skip(1), Some(x as u32))
            } else {
                None
            }
        }
    } else if b.len() > 1 && b[0] == 0x79 {
        decode_tail_y(b.skip(1), None)
    } else {
        None
    }
}

/// The operation a body (everything after the escape prefix) decodes to.
pub open spec fn decode_body(b: Seq<u8>) -> Option<SpecialCode> {
    if b.len() == 0 {
        None
    } else if b[0] == 0x47 {
        decode_generator(b)
    } else if b[0] == 0x78 || b[0] == 0x79 || b[0] == 0x3b {
        decode_goto(b)
    } else if b.len() == 1 {
        decode_simple(b[0])
    } else {
        None
    }
}

/// The operation a full byte stream decodes to: the escape prefix, then
/// the operation's body.
pub open spec fn spec_decode(s: Seq<u8>) -> Option<SpecialCode> {
    if s.len() < 4 || s.take(3) != spec_prefix() {
        None
    } else {
        decode_body(s.skip(3))
    }
}

proof fn lemma_decimal_props(n: nat)
    ensures
        spec_decimal(n).len() >= 1,
        forall|i: int|
            0 <= i < spec_decimal(n).len() ==> is_digit(#[trigger] spec_decimal(n)[i]),
    decreases n,
{
    if n >= 10 {
        lemma_decimal_props(n / 10);
        assert forall|i: int| 0 <= i < spec_decimal(n).len() implies is_digit(
            #[trigger] spec_decimal(n)[i],
        ) by {
            if i < spec_decimal(n / 10).len() {
                assert(spec_decimal(n)[i] == spec_decimal(n / 10)[i]);
            }
        }
    }
}

proof fn lemma_decimal_val(n: nat)
    ensures
        decimal_val(spec_decimal(n)) == n,
    decreases n,
{
    if n < 10 {
        let s = spec_decimal(n);
        assert(s.drop_last() =~= Seq::<u8>::empty());
        assert(decimal_val(Seq::<u8>::empty()) == 0);
        assert(s.last() == (0x30 + n) as u8);
    } else {
        let a = spec_decimal(n / 10);
        let x = (0x30 + n % 10) as u8;
        lemma_decimal_val(n / 10);
        assert((a + seq![x]).drop_last() =~= a);
        assert((a + seq![x]).last() == x);
        lemma_fundamental_div_mod(n as int, 10);
    }
}

proof fn lemma_digits_len_concat(s1: Seq<u8>, s2: Seq<u8>)
    requires
        forall|i: int| 0 <= i < s1.len() ==> is_digit(#[trigger] s1[i]),
        s2.len() > 0,
        !is_digit(s2[0]),
    ensures
        digits_len(s1 + s2) == s1.len(),
    decreases s1.len(),
{
    if s1.len() == 0 {
        assert(s1 + s2 =~= s2);
    } else {
        let t = s1 + s2;
        assert(t[0] == s1[0]);
        assert(t.drop_first() =~= s1.drop_first() + s2);
        lemma_digits_len_concat(s1.drop_first(), s2);
    }
}

proof fn lemma_hex_props(n: nat, w: nat)
    ensures
        spec_hex(n, w).len() == w,
        forall|i: int| 0 <= i < w ==> is_hex_digit(#[trigger] spec_hex(n, w)[i]),
    decreases w,
{
    if w > 0 {
        let a = spec_hex(n / 16, (w - 1) as nat);
        lemma_hex_props(n / 16, (w - 1) as nat);
        assert(is_hex_digit(spec_hex_digit(n % 16)));
        assert forall|i: int| 0 <= i < w implies is_hex_digit(#[trigger] spec_hex(n, w)[i]) by {
            if i < w - 1 {
                assert(spec_hex(n, w)[i] == a[i]);
            } else {
                assert(spec_hex(n, w)[i] == spec_hex_digit(n % 16));
            }
        }
    }
}

proof fn lemma_hex_val(n: nat, w: nat)
    requires
        n < pow16(w),
    ensures
        hex_val(spec_hex(n, w)) == n,
    decreases w,
{
    if w == 0 {
        assert(hex_val(Seq::<u8>::empty()) == 0);
    } else {
        let a = spec_hex(n / 16, (w - 1) as nat);
        let x = spec_hex_digit(n % 16);
        lemma_multiply_divide_lt(n as int, 16, pow16((w - 1) as nat) as int);
        lemma_hex_val(n / 16, (w - 1) as nat);
        assert((a + seq![x]).drop_last() =~= a);
        assert((a + seq![x]).last() == x);
        assert(hex_digit_val(spec_hex_digit(n % 16)) == n % 16);
        lemma_fundamental_div_mod(n as int, 16);
    }
}

proof fn lemma_pow16_16()
    ensures
        pow16(16) == 0x1_0000_0000_0000_0000,
{
    reveal_with_fuel(pow16, 17);
}

proof fn lemma_encoding_split(code: SpecialCode)
    ensures
        spec_encoding(code).len() == 3 + spec_body(code).len(),
        spec_encoding(code).take(3) == spec_prefix(),
        spec_encoding(code).skip(3) == spec_body(code),
{
    assert(spec_encoding(code).take(3) =~= spec_prefix());
    assert(spec_encoding(code).skip(3) =~= spec_body(code));
}

proof fn lemma_tail_y_round_trip(y: u32, x: Option<u32>)
    ensures
        decode_tail_y(spec_decimal(y as nat) + seq![0x3bu8], x) == Some(
            SpecialCode::GotoXY(x, Some(y)),
        ),
{
    let d = spec_decimal(y as nat);
    let r = d + seq![0x3bu8];
    lemma_decimal_props(y as nat);
    lemma_digits_len_concat(d, seq![0x3bu8]);
    let k = digits_len(r) as int;
    assert(k == d.len());
    assert(r.take(k) =~= d);
    lemma_decimal_val(y as nat);
    assert(r.skip(k) =~= seq![0x3bu8]);
}

/// Round trip: the byte stream of any valid operation decodes back to
/// exactly that operation, so the encoding is lossless and unambiguous.
pub proof fn lemma_round_trip(code: SpecialCode)
    requires
        spec_valid(code),
    ensures
        spec_decode(spec_encoding(code)) == Some(code),
{
    let s = spec_encoding(code);
    let body = spec_body(code);
    lemma_encoding_split(code);
    match code {
        SpecialCode::Generator(index, value) => {
            let hx = spec_hex(value as nat, 16);
            lemma_hex_props(value as nat, 16);
            assert(body.len() == 19);
            assert(body[0] == 0x47);
            assert(body[1] == (0x30 + index) as u8);
            assert(0x30 <= body[1] <= 0x37);
            assert forall|i: int| 2 <= i < 18 implies is_hex_digit(#[trigger] body[i]) by {
                assert(body[i] == hx[i - 2]);
            }
            assert(body[18] == 0x3b);
            assert(body.subrange(2, 18) =~= hx);
            lemma_pow16_16();
            lemma_hex_val(value as nat, 16);
            assert((body[1] - 0x30) as u8 == index);
            assert(hex_val(body.subrange(2, 18)) as u64 == value);
            assert(decode_body(body) == Some(code));
        }
        SpecialCode::GotoXY(x, y) => {
            match (x, y) {
                (None, None) => {
                    assert(body =~= seq![0x3bu8]);
                    assert(decode_body(body) == Some(code));
                }
                (Some(xv), None) => {
                    let d = spec_decimal(xv as nat);
                    assert(body =~= seq![0x78u8] + (d + seq![0x3bu8]));
                    lemma_decimal_props(xv as nat);
                    assert(body.len() > 1);
                    assert(body[0] == 0x78);
                    let r = body.skip(1);
                    assert(r =~= d + seq![0x3bu8]);
                    lemma_digits_len_concat(d, seq![0x3bu8]);
                    let k = digits_len(r) as int;
                    assert(k == d.len());
                    assert(r.take(k) =~= d);
                    lemma_decimal_val(xv as nat);
                    assert(r.skip(k) =~= seq![0x3bu8]);
                    assert(decode_body(body) == Some(code));
                }
                (None, Some(yv)) => {
                    let d = spec_decimal(yv as nat);
                    assert(body =~= seq![0x79u8] + (d + seq![0x3bu8]));
                    lemma_decimal_props(yv as nat);
                    assert(body.len() > 1);
                    assert(body[0] == 0x79);
                    assert(body.skip(1) =~= d + seq![0x3bu8]);
                    lemma_tail_y_round_trip(yv, None);
                    assert(decode_body(body) == Some(code));
                }
                (Some(xv), Some(yv)) => {
                    let dx = spec_decimal(xv as nat);
                    let tail = seq![0x79u8] + spec_decimal(yv as nat) + seq![0x3bu8];
                    assert(body =~= seq![0x78u8] + (dx + tail));
                    lemma_decimal_props(xv as nat);
                    lemma_decimal_props(yv as nat);
                    assert(body.len() > 1);
                    assert(body[0] == 0x78);
                    let r = body.skip(1);
                    assert(r =~= dx + tail);
                    lemma_digits_len_concat(dx, tail);
                    let k = digits_len(r) as int;
                    assert(k == dx.len());
                    assert(r.take(k) =~= dx);
                    lemma_decimal_val(xv as nat);
                    let rest = r.skip(k);
                    assert(rest =~= tail);
                    assert(rest.len() > 1);
                    assert(rest[0] == 0x79);
                    assert(rest.skip(1) =~= spec_decimal(yv as nat) + seq![0x3bu8]);
                    lemma_tail_y_round_trip(yv, Some(xv));
                    assert(decode_body(body) == Some(code));
                }
            }
        }
        _ => {
            assert(spec_is_simple(code));
            assert(body =~= seq![spec_simple_byte(code)]);
            assert(decode_simple(spec_simple_byte(code)) == Some(code));
            assert(decode_body(body) == Some(code));
        }
    }
}

/// No two valid operations share a byte stream: the encoding is injective,
/// so no sequence the encoder emits is ever ambiguous.
pub proof fn lemma_encoding_injective(a: SpecialCode, b: SpecialCode)
    requires
        spec_valid(a),
        spec_valid(b),
        spec_encoding(a) == spec_encoding(b),
    ensures
        a == b,
{
    lemma_round_trip(a);
    lemma_round_trip(b);
}

} // verus!
