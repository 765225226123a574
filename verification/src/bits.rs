//! Conversions between bytes or half-words and their little-endian bit lists.

use vstd::prelude::*;

verus! {

/// `2^i`: the weight of bit `i` in a little-endian bit list.
pub open spec fn weight(i: nat) -> nat
    decreases i,
{
    if i == 0 {
        1
    } else {
        2 * weight((i - 1) as nat)
    }
}

/// Bit `i` of the byte `x` (bit 0 is the least significant one).
pub open spec fn bit8(x: u8, i: u8) -> bool {
    (x >> i) & 1u8 == 1u8
}

/// The eight bits of `x`, least significant first.
pub open spec fn split_seq(x: u8) -> Seq<bool> {
    Seq::new(8, |i: int| bit8(x, i as u8))
}

/// The number whose little-endian bits are the first `n` entries of `s`.
pub open spec fn value_upto(s: Seq<bool>, n: nat) -> nat
    decreases n,
{
    if n == 0 {
        0
    } else {
        value_upto(s, (n - 1) as nat) + if s[n - 1] {
            weight((n - 1) as nat)
        } else {
            0
        }
    }
}

/// The number whose little-endian bits are `s`.
pub open spec fn bits_value(s: Seq<bool>) -> nat {
    value_upto(s, s.len())
}

/// The first `n` bits of a list are worth less than `2^n`.
pub proof fn lemma_value_upto_bound(s: Seq<bool>, n: nat)
    requires
        n <= s.len(),
    ensures
        value_upto(s, n) < weight(n),
    decreases n,
{
    if n > 0 {
        lemma_value_upto_bound(s, (n - 1) as nat);
    }
}

/// A byte is the sum of its set bits' weights.
proof fn lemma_byte_as_sum(x: u8)
    by (bit_vector)
    ensures
        x == (if (x >> 0u8) & 1u8 == 1u8 { 1u8 } else { 0u8 }) + (if (x >> 1u8) & 1u8 == 1u8 { 2u8 } else { 0u8 }) + (if (x >> 2u8) & 1u8 == 1u8 { 4u8 } else { 0u8 }) + (if (x >> 3u8) & 1u8 == 1u8 { 8u8 } else { 0u8 }) + (if (x >> 4u8) & 1u8 == 1u8 { 16u8 } else { 0u8 }) + (if (x >> 5u8) & 1u8 == 1u8 { 32u8 } else { 0u8 }) + (if (x >> 6u8) & 1u8 == 1u8 { 64u8 } else { 0u8 }) + (if (x >> 7u8) & 1u8 == 1u8 { 128u8 } else { 0u8 }),
{
}

/// The sum of distinct bit weights has exactly the chosen bits set.
proof fn lemma_sum_as_byte(b0: bool, b1: bool, b2: bool, b3: bool, b4: bool, b5: bool, b6: bool, b7: bool)
    by (bit_vector)
    ensures
        ((((if b0 { 1u8 } else { 0u8 }) + (if b1 { 2u8 } else { 0u8 }) + (if b2 { 4u8 } else { 0u8 }) + (if b3 { 8u8 } else { 0u8 }) + (if b4 { 16u8 } else { 0u8 }) + (if b5 { 32u8 } else { 0u8 }) + (if b6 { 64u8 } else { 0u8 }) + (if b7 { 128u8 } else { 0u8 })) as u8) >> 0u8) & 1u8 == 1u8 <==> b0,
        ((((if b0 { 1u8 } else { 0u8 }) + (if b1 { 2u8 } else { 0u8 }) + (if b2 { 4u8 } else { 0u8 }) + (if b3 { 8u8 } else { 0u8 }) + (if b4 { 16u8 } else { 0u8 }) + (if b5 { 32u8 } else { 0u8 }) + (if b6 { 64u8 } else { 0u8 }) + (if b7 { 128u8 } else { 0u8 })) as u8) >> 1u8) & 1u8 == 1u8 <==> b1,
        ((((if b0 { 1u8 } else { 0u8 }) + (if b1 { 2u8 } else { 0u8 }) + (if b2 { 4u8 } else { 0u8 }) + (if b3 { 8u8 } else { 0u8 }) + (if b4 { 16u8 } else { 0u8 }) + (if b5 { 32u8 } else { 0u8 }) + (if b6 { 64u8 } else { 0u8 }) + (if b7 { 128u8 } else { 0u8 })) as u8) >> 2u8) & 1u8 == 1u8 <==> b2,
        ((((if b0 { 1u8 } else { 0u8 }) + (if b1 { 2u8 } else { 0u8 }) + (if b2 { 4u8 } else { 0u8 }) + (if b3 { 8u8 } else { 0u8 }) + (if b4 { 16u8 } else { 0u8 }) + (if b5 { 32u8 } else { 0u8 }) + (if b6 { 64u8 } else { 0u8 }) + (if b7 { 128u8 } else { 0u8 })) as u8) >> 3u8) & 1u8 == 1u8 <==> b3,
        ((((if b0 { 1u8 } else { 0u8 }) + (if b1 { 2u8 } else { 0u8 }) + (if b2 { 4u8 } else { 0u8 }) + (if b3 { 8u8 } else { 0u8 }) + (if b4 { 16u8 } else { 0u8 }) + (if b5 { 32u8 } else { 0u8 }) + (if b6 { 64u8 } else { 0u8 }) + (if b7 { 128u8 } else { 0u8 })) as u8) >> 4u8) & 1u8 == 1u8 <==> b4,
        ((((if b0 { 1u8 } else { 0u8 }) + (if b1 { 2u8 } else { 0u8 }) + (if b2 { 4u8 } else { 0u8 }) + (if b3 { 8u8 } else { 0u8 }) + (if b4 { 16u8 } else { 0u8 }) + (if b5 { 32u8 } else { 0u8 }) + (if b6 { 64u8 } else { 0u8 }) + (if b7 { 128u8 } else { 0u8 })) as u8) >> 5u8) & 1u8 == 1u8 <==> b5,
        ((((if b0 { 1u8 } else { 0u8 }) + (if b1 { 2u8 } else { 0u8 }) + (if b2 { 4u8 } else { 0u8 }) + (if b3 { 8u8 } else { 0u8 }) + (if b4 { 16u8 } else { 0u8 }) + (if b5 { 32u8 } else { 0u8 }) + (if b6 { 64u8 } else { 0u8 }) + (if b7 { 128u8 } else { 0u8 })) as u8) >> 6u8) & 1u8 == 1u8 <==> b6,
        ((((if b0 { 1u8 } else { 0u8 }) + (if b1 { 2u8 } else { 0u8 }) + (if b2 { 4u8 } else { 0u8 }) + (if b3 { 8u8 } else { 0u8 }) + (if b4 { 16u8 } else { 0u8 }) + (if b5 { 32u8 } else { 0u8 }) + (if b6 { 64u8 } else { 0u8 }) + (if b7 { 128u8 } else { 0u8 })) as u8) >> 7u8) & 1u8 == 1u8 <==> b7,
{
}

/// Fusing the bits that a split gives back restores the byte.
pub proof fn lemma_fuse_split(x: u8)
    ensures
        bits_value(split_seq(x)) == x,
{
    reveal_with_fuel(value_upto, 9);
    reveal_with_fuel(weight, 8);
    lemma_byte_as_sum(x);
}

/// Splitting the byte that a fuse gives back restores the eight bits.
pub proof fn lemma_split_fuse(s: Seq<bool>)
    requires
        s.len() == 8,
    ensures
        bits_value(s) < 256,
        split_seq(bits_value(s) as u8) == s,
{
    reveal_with_fuel(value_upto, 9);
    reveal_with_fuel(weight, 8);
    lemma_sum_as_byte(s[0], s[1], s[2], s[3], s[4], s[5], s[6], s[7]);
    assert(split_seq(bits_value(s) as u8) =~= s);
}

/// Bit `i` of the half-word `x` (bit 0 is the least significant one).
pub open spec fn bit16(x: u16, i: u16) -> bool {
    (x >> i) & 1u16 == 1u16
}

/// A half-word is the sum of its set bits' weights.
proof fn lemma_half_as_sum(x: u16)
    by (bit_vector)
    ensures
        x == (if (x >> 0u16) & 1u16 == 1u16 { 1u16 } else { 0u16 }) + (if (x >> 1u16) & 1u16 == 1u16 { 2u16 } else { 0u16 }) + (if (x >> 2u16) & 1u16 == 1u16 { 4u16 } else { 0u16 }) + (if (x >> 3u16) & 1u16 == 1u16 { 8u16 } else { 0u16 }) + (if (x >> 4u16) & 1u16 == 1u16 { 16u16 } else { 0u16 }) + (if (x >> 5u16) & 1u16 == 1u16 { 32u16 } else { 0u16 }) + (if (x >> 6u16) & 1u16 == 1u16 { 64u16 } else { 0u16 }) + (if (x >> 7u16) & 1u16 == 1u16 { 128u16 } else { 0u16 }) + (if (x >> 8u16) & 1u16 == 1u16 { 256u16 } else { 0u16 }) + (if (x >> 9u16) & 1u16 == 1u16 { 512u16 } else { 0u16 }) + (if (x >> 10u16) & 1u16 == 1u16 { 1024u16 } else { 0u16 }) + (if (x >> 11u16) & 1u16 == 1u16 { 2048u16 } else { 0u16 }) + (if (x >> 12u16) & 1u16 == 1u16 { 4096u16 } else { 0u16 }) + (if (x >> 13u16) & 1u16 == 1u16 { 8192u16 } else { 0u16 }) + (if (x >> 14u16) & 1u16 == 1u16 { 16384u16 } else { 0u16 }) + (if (x >> 15u16) & 1u16 == 1u16 { 32768u16 } else { 0u16 }),
{
}

/// Eight bits that agree with the bits of `v` are worth `v`.
pub proof fn lemma_value_of_bits8(s: Seq<bool>, v: u8)
    requires
        s.len() == 8,
        s[0] == bit8(v, 0u8),
        s[1] == bit8(v, 1u8),
        s[2] == bit8(v, 2u8),
        s[3] == bit8(v, 3u8),
        s[4] == bit8(v, 4u8),
        s[5] == bit8(v, 5u8),
        s[6] == bit8(v, 6u8),
        s[7] == bit8(v, 7u8),
    ensures
        bits_value(s) == v,
{
    reveal_with_fuel(value_upto, 9);
    reveal_with_fuel(weight, 8);
    lemma_byte_as_sum(v);
}

/// The value of sixteen bits, written out term by term.
proof fn lemma_value16_terms(s: Seq<bool>)
    requires
        s.len() == 16,
    ensures
        bits_value(s) == (if s[0] { 1nat } else { 0nat }) + (if s[1] { 2nat } else { 0nat }) + (if s[2] { 4nat } else { 0nat }) + (if s[3] { 8nat } else { 0nat }) + (if s[4] { 16nat } else { 0nat }) + (if s[5] { 32nat } else { 0nat }) + (if s[6] { 64nat } else { 0nat }) + (if s[7] { 128nat } else { 0nat }) + (if s[8] { 256nat } else { 0nat }) + (if s[9] { 512nat } else { 0nat }) + (if s[10] { 1024nat } else { 0nat }) + (if s[11] { 2048nat } else { 0nat }) + (if s[12] { 4096nat } else { 0nat }) + (if s[13] { 8192nat } else { 0nat }) + (if s[14] { 16384nat } else { 0nat }) + (if s[15] { 32768nat } else { 0nat }),
{
    assert(weight(0) == 1);
    assert(weight(1) == 2);
    assert(weight(2) == 4);
    assert(weight(3) == 8);
    assert(weight(4) == 16);
    assert(weight(5) == 32);
    assert(weight(6) == 64);
    assert(weight(7) == 128);
    assert(weight(8) == 256);
    assert(weight(9) == 512);
    assert(weight(10) == 1024);
    assert(weight(11) == 2048);
    assert(weight(12) == 4096);
    assert(weight(13) == 8192);
    assert(weight(14) == 16384);
    assert(weight(15) == 32768);
    assert(value_upto(s, 0) == 0);
    assert(value_upto(s, 1) == value_upto(s, 0) + if s[0] { 1nat } else { 0nat });
    assert(value_upto(s, 2) == value_upto(s, 1) + if s[1] { 2nat } else { 0nat });
    assert(value_upto(s, 3) == value_upto(s, 2) + if s[2] { 4nat } else { 0nat });
    assert(value_upto(s, 4) == value_upto(s, 3) + if s[3] { 8nat } else { 0nat });
    assert(value_upto(s, 5) == value_upto(s, 4) + if s[4] { 16nat } else { 0nat });
    assert(value_upto(s, 6) == value_upto(s, 5) + if s[5] { 32nat } else { 0nat });
    assert(value_upto(s, 7) == value_upto(s, 6) + if s[6] { 64nat } else { 0nat });
    assert(value_upto(s, 8) == value_upto(s, 7) + if s[7] { 128nat } else { 0nat });
    assert(value_upto(s, 9) == value_upto(s, 8) + if s[8] { 256nat } else { 0nat });
    assert(value_upto(s, 10) == value_upto(s, 9) + if s[9] { 512nat } else { 0nat });
    assert(value_upto(s, 11) == value_upto(s, 10) + if s[10] { 1024nat } else { 0nat });
    assert(value_upto(s, 12) == value_upto(s, 11) + if s[11] { 2048nat } else { 0nat });
    assert(value_upto(s, 13) == value_upto(s, 12) + if s[12] { 4096nat } else { 0nat });
    assert(value_upto(s, 14) == value_upto(s, 13) + if s[13] { 8192nat } else { 0nat });
    assert(value_upto(s, 15) == value_upto(s, 14) + if s[14] { 16384nat } else { 0nat });
    assert(value_upto(s, 16) == value_upto(s, 15) + if s[15] { 32768nat } else { 0nat });
}

/// Sixteen bits that agree with the bits of `v` are worth `v`.
pub proof fn lemma_value_of_bits16(s: Seq<bool>, v: u16)
    requires
        s.len() == 16,
        s[0] == bit16(v, 0u16),
        s[1] == bit16(v, 1u16),
        s[2] == bit16(v, 2u16),
        s[3] == bit16(v, 3u16),
        s[4] == bit16(v, 4u16),
        s[5] == bit16(v, 5u16),
        s[6] == bit16(v, 6u16),
        s[7] == bit16(v, 7u16),
        s[8] == bit16(v, 8u16),
        s[9] == bit16(v, 9u16),
        s[10] == bit16(v, 10u16),
        s[11] == bit16(v, 11u16),
        s[12] == bit16(v, 12u16),
        s[13] == bit16(v, 13u16),
        s[14] == bit16(v, 14u16),
        s[15] == bit16(v, 15u16),
    ensures
        bits_value(s) == v,
{
    lemma_value16_terms(s);
    lemma_half_as_sum(v);
}

proof fn lemma_bits_arith(x: u8)
    by (bit_vector)
    ensures
        bit8(x, 0u8) == ((x / 1) % 2 == 1),
        bit8(x, 1u8) == ((x / 2) % 2 == 1),
        bit8(x, 2u8) == ((x / 4) % 2 == 1),
        bit8(x, 3u8) == ((x / 8) % 2 == 1),
        bit8(x, 4u8) == ((x / 16) % 2 == 1),
        bit8(x, 5u8) == ((x / 32) % 2 == 1),
        bit8(x, 6u8) == ((x / 64) % 2 == 1),
        bit8(x, 7u8) == ((x / 128) % 2 == 1),
{
}

/// Splitting gives bit `i` of the byte as entry `i`: whether `x / 2^i` is odd.
pub proof fn lemma_split_entries(x: u8)
    ensures
        split_seq(x).len() == 8,
        split_seq(x)[0] == ((x / 1) % 2 == 1),
        split_seq(x)[1] == ((x / 2) % 2 == 1),
        split_seq(x)[2] == ((x / 4) % 2 == 1),
        split_seq(x)[3] == ((x / 8) % 2 == 1),
        split_seq(x)[4] == ((x / 16) % 2 == 1),
        split_seq(x)[5] == ((x / 32) % 2 == 1),
        split_seq(x)[6] == ((x / 64) % 2 == 1),
        split_seq(x)[7] == ((x / 128) % 2 == 1),
{
    lemma_bits_arith(x);
}

/// Eight bits are worth the sum of `2^i` over the entries `i` that are set.
pub proof fn lemma_value_of_eight(s: Seq<bool>)
    requires
        s.len() == 8,
    ensures
        bits_value(s) == (if s[0] { 1nat } else { 0nat }) + (if s[1] { 2nat } else { 0nat }) + (if s[2] { 4nat } else { 0nat }) + (if s[3] { 8nat } else { 0nat }) + (if s[4] { 16nat } else { 0nat }) + (if s[5] { 32nat } else { 0nat }) + (if s[6] { 64nat } else { 0nat }) + (if s[7] { 128nat } else { 0nat }),
{
    assert(weight(0) == 1);
    assert(weight(1) == 2);
    assert(weight(2) == 4);
    assert(weight(3) == 8);
    assert(weight(4) == 16);
    assert(weight(5) == 32);
    assert(weight(6) == 64);
    assert(weight(7) == 128);
    assert(value_upto(s, 0) == 0);
    assert(value_upto(s, 1) == value_upto(s, 0) + if s[0] { 1nat } else { 0nat });
    assert(value_upto(s, 2) == value_upto(s, 1) + if s[1] { 2nat } else { 0nat });
    assert(value_upto(s, 3) == value_upto(s, 2) + if s[2] { 4nat } else { 0nat });
    assert(value_upto(s, 4) == value_upto(s, 3) + if s[3] { 8nat } else { 0nat });
    assert(value_upto(s, 5) == value_upto(s, 4) + if s[4] { 16nat } else { 0nat });
    assert(value_upto(s, 6) == value_upto(s, 5) + if s[5] { 32nat } else { 0nat });
    assert(value_upto(s, 7) == value_upto(s, 6) + if s[6] { 64nat } else { 0nat });
    assert(value_upto(s, 8) == value_upto(s, 7) + if s[7] { 128nat } else { 0nat });
}

/// Sixteen bits are worth the sum of `2^i` over the entries `i` that are set.
pub proof fn lemma_value_of_sixteen(s: Seq<bool>)
    requires
        s.len() == 16,
    ensures
        bits_value(s) == (if s[0] { 1nat } else { 0nat }) + (if s[1] { 2nat } else { 0nat }) + (if s[2] { 4nat } else { 0nat }) + (if s[3] { 8nat } else { 0nat }) + (if s[4] { 16nat } else { 0nat }) + (if s[5] { 32nat } else { 0nat }) + (if s[6] { 64nat } else { 0nat }) + (if s[7] { 128nat } else { 0nat }) + (if s[8] { 256nat } else { 0nat }) + (if s[9] { 512nat } else { 0nat }) + (if s[10] { 1024nat } else { 0nat }) + (if s[11] { 2048nat } else { 0nat }) + (if s[12] { 4096nat } else { 0nat }) + (if s[13] { 8192nat } else { 0nat }) + (if s[14] { 16384nat } else { 0nat }) + (if s[15] { 32768nat } else { 0nat }),
{
    lemma_value16_terms(s);
}

} // verus!
