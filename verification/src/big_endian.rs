//! Big-endian byte strings as numbers, and the calls that read and write them.

use byteorder::{BigEndian, ByteOrder};
use vstd::prelude::*;

verus! {

/// The `width` base-256 digits of `v`, most significant first.
pub open spec fn be_bytes(v: nat, width: nat) -> Seq<u8>
    decreases width,
{
    if width == 0 {
        Seq::empty()
    } else {
        be_bytes(v / 256, (width - 1) as nat).push((v % 256) as u8)
    }
}

/// The number whose base-256 digits, most significant first, are `s`.
pub open spec fn be_value(s: Seq<u8>) -> nat
    decreases s.len(),
{
    if s.len() == 0 {
        0
    } else {
        be_value(s.drop_last()) * 256 + s.last() as nat
    }
}

/// How many numbers have `width` base-256 digits: 256 to the power `width`.
pub open spec fn radix(width: nat) -> nat
    decreases width,
{
    if width == 0 {
        1
    } else {
        256 * radix((width - 1) as nat)
    }
}

/// The two's-complement pattern of `v`, read as an unsigned number below `modulus`.
pub open spec fn unsigned_pattern(v: int, modulus: int) -> nat {
    if v < 0 {
        (v + modulus) as nat
    } else {
        v as nat
    }
}

/// The signed number whose two's-complement pattern below `modulus` is `u`.
pub open spec fn signed_value(u: nat, modulus: int) -> int {
    if 2 * u >= modulus {
        u - modulus
    } else {
        u as int
    }
}

/// The radix at the widths of the key types.
pub proof fn lemma_radix_values()
    ensures
        radix(0) == 1,
        radix(2) == 0x1_0000,
        radix(4) == 0x1_0000_0000,
        radix(8) == 0x1_0000_0000_0000_0000,
{
    reveal_with_fuel(radix, 9);
}

/// A number written at `width` digits has `width` digits.
pub proof fn lemma_be_bytes_len(v: nat, width: nat)
    ensures
        be_bytes(v, width).len() == width,
    decreases width,
{
    if width > 0 {
        lemma_be_bytes_len(v / 256, (width - 1) as nat);
    }
}

/// What a byte string spells is below the radix of its length.
pub proof fn lemma_be_value_bound(s: Seq<u8>)
    ensures
        be_value(s) < radix(s.len()),
    decreases s.len(),
{
    if s.len() > 0 {
        lemma_be_value_bound(s.drop_last());
    }
}

/// Reading back the digits of a number that fits in them gives the number.
pub proof fn lemma_value_of_bytes(v: nat, width: nat)
    requires
        v < radix(width),
    ensures
        be_value(be_bytes(v, width)) == v,
    decreases width,
{
    if width > 0 {
        let rest = be_bytes(v / 256, (width - 1) as nat);
        lemma_value_of_bytes(v / 256, (width - 1) as nat);
        assert(be_bytes(v, width).drop_last() == rest);
    }
}

/// Writing out the number that a byte string spells gives the byte string.
pub proof fn lemma_bytes_of_value(s: Seq<u8>)
    ensures
        be_bytes(be_value(s), s.len()) == s,
    decreases s.len(),
{
    if s.len() > 0 {
        lemma_bytes_of_value(s.drop_last());
        assert(s.drop_last().push(s.last()) == s);
    }
}

/// Two's complement loses nothing: a signed number in range comes back from its pattern.
pub proof fn lemma_signed_of_pattern(v: int, modulus: int)
    requires
        modulus > 0,
        modulus % 2 == 0,
        -modulus <= 2 * v < modulus,
    ensures
        unsigned_pattern(v, modulus) < modulus,
        signed_value(unsigned_pattern(v, modulus), modulus) == v,
{
}

/// Nor does reading a pattern as a signed number: its pattern is the one read.
pub proof fn lemma_pattern_of_signed(u: nat, modulus: int)
    requires
        modulus % 2 == 0,
        u < modulus,
    ensures
        -modulus <= 2 * signed_value(u, modulus) < modulus,
        unsigned_pattern(signed_value(u, modulus), modulus) == u,
{
}

/// `byteorder::BigEndian::write_u16`: puts the two bytes of `n`, most
/// significant first, at the start of `buf` and leaves the rest of `buf` alone.
#[verifier::external_body]
pub(crate) fn write_u16(buf: &mut [u8], n: u16)
    requires
        old(buf)@.len() >= 2,
    ensures
        final(buf)@ == be_bytes(n as nat, 2) + old(buf)@.skip(2),
{
    BigEndian::write_u16(buf, n)
}

/// `byteorder::BigEndian::write_u32`: puts the four bytes of `n`, most
/// significant first, at the start of `buf` and leaves the rest of `buf` alone.
#[verifier::external_body]
pub(crate) fn write_u32(buf: &mut [u8], n: u32)
    requires
        old(buf)@.len() >= 4,
    ensures
        final(buf)@ == be_bytes(n as nat, 4) + old(buf)@.skip(4),
{
    BigEndian::write_u32(buf, n)
}

/// `byteorder::BigEndian::write_u64`: puts the eight bytes of `n`, most
/// significant first, at the start of `buf` and leaves the rest of `buf` alone.
#[verifier::external_body]
pub(crate) fn write_u64(buf: &mut [u8], n: u64)
    requires
        old(buf)@.len() >= 8,
    ensures
        final(buf)@ == be_bytes(n as nat, 8) + old(buf)@.skip(8),
{
    BigEndian::write_u64(buf, n)
}

/// `byteorder::BigEndian::write_i16`: as `write_u16`, on the two's-complement
/// pattern of `n`.
#[verifier::external_body]
pub(crate) fn write_i16(buf: &mut [u8], n: i16)
    requires
        old(buf)@.len() >= 2,
    ensures
        final(buf)@ == be_bytes(unsigned_pattern(n as int, 0x1_0000), 2) + old(buf)@.skip(2),
{
    BigEndian::write_i16(buf, n)
}

/// `byteorder::BigEndian::write_i32`: as `write_u32`, on the two's-complement
/// pattern of `n`.
#[verifier::external_body]
pub(crate) fn write_i32(buf: &mut [u8], n: i32)
    requires
        old(buf)@.len() >= 4,
    ensures
        final(buf)@ == be_bytes(unsigned_pattern(n as int, 0x1_0000_0000), 4) + old(buf)@.skip(4),
{
    BigEndian::write_i32(buf, n)
}

/// `byteorder::BigEndian::write_i64`: as `write_u64`, on the two's-complement
/// pattern of `n`.
#[verifier::external_body]
pub(crate) fn write_i64(buf: &mut [u8], n: i64)
    requires
        old(buf)@.len() >= 8,
    ensures
        final(buf)@ == be_bytes(unsigned_pattern(n as int, 0x1_0000_0000_0000_0000), 8) + old(
            buf,
        )@.skip(8),
{
    BigEndian::write_i64(buf, n)
}

/// `byteorder::BigEndian::read_u16`: the number that the first two bytes of
/// `buf` spell, most significant first.
#[verifier::external_body]
pub(crate) fn read_u16(buf: &[u8]) -> (n: u16)
    requires
        buf@.len() >= 2,
    ensures
        n as nat == be_value(buf@.take(2)),
{
    BigEndian::read_u16(buf)
}

/// `byteorder::BigEndian::read_u32`: the number that the first four bytes of
/// `buf` spell, most significant first.
#[verifier::external_body]
pub(crate) fn read_u32(buf: &[u8]) -> (n: u32)
    requires
        buf@.len() >= 4,
    ensures
        n as nat == be_value(buf@.take(4)),
{
    BigEndian::read_u32(buf)
}

/// `byteorder::BigEndian::read_u64`: the number that the first eight bytes of
/// `buf` spell, most significant first.
#[verifier::external_body]
pub(crate) fn read_u64(buf: &[u8]) -> (n: u64)
    requires
        buf@.len() >= 8,
    ensures
        n as nat == be_value(buf@.take(8)),
{
    BigEndian::read_u64(buf)
}

/// `byteorder::BigEndian::read_i16`: the signed number whose two's-complement
/// pattern the first two bytes of `buf` spell, most significant first.
#[verifier::external_body]
pub(crate) fn read_i16(buf: &[u8]) -> (n: i16)
    requires
        buf@.len() >= 2,
    ensures
        n as int == signed_value(be_value(buf@.take(2)), 0x1_0000),
{
    BigEndian::read_i16(buf)
}

/// `byteorder::BigEndian::read_i32`: the signed number whose two's-complement
/// pattern the first four bytes of `buf` spell, most significant first.
#[verifier::external_body]
pub(crate) fn read_i32(buf: &[u8]) -> (n: i32)
    requires
        buf@.len() >= 4,
    ensures
        n as int == signed_value(be_value(buf@.take(4)), 0x1_0000_0000),
{
    BigEndian::read_i32(buf)
}

/// `byteorder::BigEndian::read_i64`: the signed number whose two's-complement
/// pattern the first eight bytes of `buf` spell, most significant first.
#[verifier::external_body]
pub(crate) fn read_i64(buf: &[u8]) -> (n: i64)
    requires
        buf@.len() >= 8,
    ensures
        n as int == signed_value(be_value(buf@.take(8)), 0x1_0000_0000_0000_0000),
{
    BigEndian::read_i64(buf)
}

} // verus!
