//! Custom characters: 8x5 pixel glyphs, given as eight row bytes whose low
//! five bits are the pixels, top row first.
//!
//! The screen packs the eight rows into one 64-bit bitmap, row 0 in the
//! most significant byte and row 7 in the least significant byte; the spec
//! functions and lemmas here pin that packing down.  The mirror helpers
//! flip a glyph on either axis.

use vstd::arithmetic::div_mod::lemma_fundamental_div_mod_converse;
use vstd::prelude::*;

verus! {

/// 256 to the power `k`: the weight of the `k`-th byte from the right in a
/// byte-packed number.
pub open spec fn pow256(k: nat) -> nat
    decreases k,
{
    if k == 0 {
        1
    } else {
        256 * pow256((k - 1) as nat)
    }
}

/// The rows packed into one number, first row most significant: each
/// further row shifts what came before up by one byte.
pub open spec fn spec_pack_rows(rows: Seq<u8>) -> nat
    decreases rows.len(),
{
    if rows.len() == 0 {
        0
    } else {
        (spec_pack_rows(rows.drop_last()) * 256 + rows.last()) as nat
    }
}

proof fn lemma_pow256_pos(k: nat)
    ensures
        pow256(k) >= 1,
    decreases k,
{
    if k > 0 {
        lemma_pow256_pos((k - 1) as nat);
    }
}

proof fn lemma_pow256_le(a: nat, b: nat)
    requires
        a <= b,
    ensures
        pow256(a) <= pow256(b),
    decreases b,
{
    if a < b {
        lemma_pow256_le(a, (b - 1) as nat);
        lemma_pow256_pos((b - 1) as nat);
    }
}

proof fn lemma_pow256_vals()
    ensures
        pow256(7) == 0x0100_0000_0000_0000,
        pow256(8) == 0x1_0000_0000_0000_0000,
{
    reveal_with_fuel(pow256, 9);
}

/// Packed rows are bounded by the weight of the byte just above them.
proof fn lemma_pack_rows_bound(rows: Seq<u8>)
    ensures
        spec_pack_rows(rows) < pow256(rows.len()),
    decreases rows.len(),
{
    if rows.len() > 0 {
        lemma_pack_rows_bound(rows.drop_last());
    }
}

/// A glyph bitmap fits in 64 bits, and while a row is still to come it
/// leaves the top byte free.
pub proof fn lemma_pack_rows_fits(rows: Seq<u8>)
    requires
        rows.len() <= 8,
    ensures
        spec_pack_rows(rows) < 0x1_0000_0000_0000_0000,
        rows.len() <= 7 ==> spec_pack_rows(rows) < 0x0100_0000_0000_0000,
{
    lemma_pack_rows_bound(rows);
    lemma_pow256_vals();
    lemma_pow256_le(rows.len(), 8);
    if rows.len() <= 7 {
        lemma_pow256_le(rows.len(), 7);
    }
}

/// Packing can also be read from the front: the first row carries the
/// weight of the whole rest.
proof fn lemma_pack_rows_first(rows: Seq<u8>)
    requires
        rows.len() >= 1,
    ensures
        spec_pack_rows(rows) == rows[0] * pow256((rows.len() - 1) as nat) + spec_pack_rows(
            rows.drop_first(),
        ),
    decreases rows.len(),
{
    if rows.len() == 1 {
        assert(rows.drop_last() =~= Seq::<u8>::empty());
        assert(rows.drop_first() =~= Seq::<u8>::empty());
        assert(rows.last() == rows[0]);
        assert(pow256(0) == 1);
        assert(spec_pack_rows(Seq::<u8>::empty()) == 0);
        assert(spec_pack_rows(rows) == rows[0]);
        assert(rows[0] * pow256((rows.len() - 1) as nat) == rows[0]);
    } else {
        let dl = rows.drop_last();
        let df = rows.drop_first();
        let mid = dl.drop_first();
        let p = pow256((rows.len() - 2) as nat);
        lemma_pack_rows_first(dl);
        assert(dl[0] == rows[0]);
        assert(df.drop_last() =~= mid);
        assert(df.last() == rows.last());
        assert(spec_pack_rows(df) == spec_pack_rows(mid) * 256 + rows.last());
        assert(spec_pack_rows(dl) == rows[0] * p + spec_pack_rows(mid));
        assert(spec_pack_rows(rows) == spec_pack_rows(dl) * 256 + rows.last());
        assert((rows[0] * p + spec_pack_rows(mid)) * 256 == (rows[0] * p) * 256 + spec_pack_rows(
            mid,
        ) * 256) by (nonlinear_arith);
        assert((rows[0] * p) * 256 == rows[0] * (256 * p)) by (nonlinear_arith);
        assert(pow256((rows.len() - 1) as nat) == 256 * p);
        assert(spec_pack_rows(dl) * 256 == (rows[0] * p + spec_pack_rows(mid)) * 256);
        assert(spec_pack_rows(rows) == rows[0] * (256 * p) + spec_pack_rows(mid) * 256
            + rows.last());
        assert(rows[0] * pow256((rows.len() - 1) as nat) == rows[0] * (256 * p));
        assert(spec_pack_rows(rows) == rows[0] * pow256((rows.len() - 1) as nat) + spec_pack_rows(
            df,
        ));
    }
}

/// Where each row lands in the packed bitmap: row 0 is the most significant
/// byte and row 7 the least significant byte.
pub proof fn lemma_pack_rows_bytes(rows: Seq<u8>)
    requires
        rows.len() == 8,
    ensures
        spec_pack_rows(rows) / 0x0100_0000_0000_0000 == rows[0],
        spec_pack_rows(rows) % 256 == rows[7],
{
    let packed = spec_pack_rows(rows) as int;
    assert(rows.last() == rows[7]);
    lemma_fundamental_div_mod_converse(
        packed,
        256,
        spec_pack_rows(rows.drop_last()) as int,
        rows[7] as int,
    );
    lemma_pack_rows_first(rows);
    lemma_pack_rows_fits(rows.drop_first());
    lemma_pow256_vals();
    lemma_fundamental_div_mod_converse(
        packed,
        0x0100_0000_0000_0000,
        rows[0] as int,
        spec_pack_rows(rows.drop_first()) as int,
    );
}

/// The low five bits of `b` in reverse order; the high three bits are
/// dropped.
pub open spec fn spec_mirror5(b: u8) -> u8 {
    ((b & 0x01) << 4) | ((b & 0x02) << 2) | (b & 0x04) | ((b & 0x08) >> 2) | ((b & 0x10) >> 4)
}

/// What the row mirror means pixel by pixel: pixel `i` of the result is
/// pixel `4 - i` of the row, nothing stands above the five pixels, and
/// mirroring twice recovers exactly the row's five pixels.
pub proof fn lemma_mirror5_bits(b: u8)
    by (bit_vector)
    ensures
        (spec_mirror5(b) >> 0) & 1 == (b >> 4) & 1,
        (spec_mirror5(b) >> 1) & 1 == (b >> 3) & 1,
        (spec_mirror5(b) >> 2) & 1 == (b >> 2) & 1,
        (spec_mirror5(b) >> 3) & 1 == (b >> 1) & 1,
        (spec_mirror5(b) >> 4) & 1 == (b >> 0) & 1,
        spec_mirror5(b) < 32,
        spec_mirror5(spec_mirror5(b)) == b & 0x1f,
{
}

/// Reverse the five pixels of one glyph row.
fn mirror_row(b: u8) -> (r: u8)
    ensures
        r == spec_mirror5(b),
{
    ((b & 0x01) << 4) | ((b & 0x02) << 2) | (b & 0x04) | ((b & 0x08) >> 2) | ((b & 0x10) >> 4)
}

/// X-axis mirror of a custom LCD character: every row's five pixels are
/// reversed.
pub fn mirror_x(src: [u8; 8]) -> (r: [u8; 8])
    ensures
        forall|i: int| 0 <= i < 8 ==> r@[i] == spec_mirror5(src@[i]),
{
    let mut out: [u8; 8] = [0; 8];
    let mut i: usize = 0;
    while i < 8
        invariant
            i <= 8,
            forall|j: int| 0 <= j < i ==> out@[j] == spec_mirror5(src@[j]),
        decreases 8 - i,
    {
        out[i] = mirror_row(src[i]);
        i = i + 1;
    }
    out
}

/// Y-axis mirror of a custom LCD character: the rows in reverse order.
pub fn mirror_y(src: [u8; 8]) -> (r: [u8; 8])
    ensures
        forall|i: int| 0 <= i < 8 ==> r@[i] == src@[7 - i],
{
    let mut out: [u8; 8] = [0; 8];
    let mut i: usize = 0;
    while i < 8
        invariant
            i <= 8,
            forall|j: int| 0 <= j < i ==> out@[j] == src@[7 - j],
        decreases 8 - i,
    {
        out[i] = src[7 - i];
        i = i + 1;
    }
    out
}

} // verus!
