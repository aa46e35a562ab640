//! What holds of the key encodings: decoding undoes encoding, keys that
//! differ have bytes that differ, and how the byte order of the encodings
//! relates to the order of the keys.

use crate::big_endian::{
    be_value, lemma_be_bytes_len, lemma_be_value_bound, lemma_bytes_of_value,
    lemma_pattern_of_signed, lemma_radix_values, lemma_signed_of_pattern, lemma_value_of_bytes,
    unsigned_pattern,
};
use crate::error::Error;
use crate::key_encode::KeyEncoder;
use crate::order::{lemma_be_bytes_injective, lemma_be_bytes_order, lex_less};
use vstd::prelude::*;
use vstd::utf8::{decode_utf8_encode_utf8, encode_utf8_decode_utf8, encode_utf8_valid_utf8};

verus! {

/// Decoding the canonical bytes of a `u16` key gives the key back.
pub proof fn lemma_u16_round_trip(v: u16, r: Result<u16, Error>)
    requires
        <u16 as KeyEncoder>::decode_outcome(v.key_bytes(), r),
    ensures
        r == Ok::<u16, Error>(v),
{
    lemma_radix_values();
    lemma_be_bytes_len(v as nat, 2);
    lemma_value_of_bytes(v as nat, 2);
    assert(v.key_bytes().take(2) == v.key_bytes());
}

/// The canonical bytes of a decoded `u16` key are the bytes it was decoded
/// from.
pub proof fn lemma_u16_reencode(bytes: Seq<u8>, v: u16)
    requires
        <u16 as KeyEncoder>::decode_outcome(bytes, Ok(v)),
    ensures
        bytes.len() >= 2,
        v.key_bytes() == bytes.take(2),
{
    lemma_bytes_of_value(bytes.take(2));
}

/// `u16` keys that differ have canonical bytes that differ.
pub proof fn lemma_u16_injective(a: u16, b: u16)
    requires
        a.key_bytes() == b.key_bytes(),
    ensures
        a == b,
{
    lemma_radix_values();
    lemma_be_bytes_injective(a as nat, b as nat, 2);
}

/// The canonical bytes of `u16` keys compare, byte by byte, as the keys do.
pub proof fn lemma_u16_order(a: u16, b: u16)
    ensures
        lex_less(a.key_bytes(), b.key_bytes()) <==> a < b,
{
    lemma_radix_values();
    lemma_be_bytes_order(a as nat, b as nat, 2);
}

/// Decoding the canonical bytes of an `i16` key gives the key back.
pub proof fn lemma_i16_round_trip(v: i16, r: Result<i16, Error>)
    requires
        <i16 as KeyEncoder>::decode_outcome(v.key_bytes(), r),
    ensures
        r == Ok::<i16, Error>(v),
{
    let u = unsigned_pattern(v as int, 0x1_0000);
    lemma_radix_values();
    lemma_signed_of_pattern(v as int, 0x1_0000);
    lemma_be_bytes_len(u, 2);
    lemma_value_of_bytes(u, 2);
    assert(v.key_bytes().take(2) == v.key_bytes());
}

/// The canonical bytes of a decoded `i16` key are the bytes it was decoded
/// from.
pub proof fn lemma_i16_reencode(bytes: Seq<u8>, v: i16)
    requires
        <i16 as KeyEncoder>::decode_outcome(bytes, Ok(v)),
    ensures
        bytes.len() >= 2,
        v.key_bytes() == bytes.take(2),
{
    lemma_radix_values();
    lemma_be_value_bound(bytes.take(2));
    lemma_pattern_of_signed(be_value(bytes.take(2)), 0x1_0000);
    lemma_bytes_of_value(bytes.take(2));
}

/// `i16` keys that differ have canonical bytes that differ.
pub proof fn lemma_i16_injective(a: i16, b: i16)
    requires
        a.key_bytes() == b.key_bytes(),
    ensures
        a == b,
{
    lemma_radix_values();
    lemma_signed_of_pattern(a as int, 0x1_0000);
    lemma_signed_of_pattern(b as int, 0x1_0000);
    lemma_be_bytes_injective(
        unsigned_pattern(a as int, 0x1_0000),
        unsigned_pattern(b as int, 0x1_0000),
        2,
    );
}

/// The canonical bytes of `i16` keys of one sign compare, byte by byte, as
/// the keys do; those of a negative key come after those of every key that is
/// not negative.
pub proof fn lemma_i16_order(a: i16, b: i16)
    ensures
        lex_less(a.key_bytes(), b.key_bytes()) <==> if (a < 0) == (b < 0) {
            a < b
        } else {
            b < 0
        },
{
    lemma_radix_values();
    lemma_signed_of_pattern(a as int, 0x1_0000);
    lemma_signed_of_pattern(b as int, 0x1_0000);
    lemma_be_bytes_order(
        unsigned_pattern(a as int, 0x1_0000),
        unsigned_pattern(b as int, 0x1_0000),
        2,
    );
}

/// Decoding the canonical bytes of a `u32` key gives the key back.
pub proof fn lemma_u32_round_trip(v: u32, r: Result<u32, Error>)
    requires
        <u32 as KeyEncoder>::decode_outcome(v.key_bytes(), r),
    ensures
        r == Ok::<u32, Error>(v),
{
    lemma_radix_values();
    lemma_be_bytes_len(v as nat, 4);
    lemma_value_of_bytes(v as nat, 4);
    assert(v.key_bytes().take(4) == v.key_bytes());
}

/// The canonical bytes of a decoded `u32` key are the bytes it was decoded
/// from.
pub proof fn lemma_u32_reencode(bytes: Seq<u8>, v: u32)
    requires
        <u32 as KeyEncoder>::decode_outcome(bytes, Ok(v)),
    ensures
        bytes.len() >= 4,
        v.key_bytes() == bytes.take(4),
{
    lemma_bytes_of_value(bytes.take(4));
}

/// `u32` keys that differ have canonical bytes that differ.
pub proof fn lemma_u32_injective(a: u32, b: u32)
    requires
        a.key_bytes() == b.key_bytes(),
    ensures
        a == b,
{
    lemma_radix_values();
    lemma_be_bytes_injective(a as nat, b as nat, 4);
}

/// The canonical bytes of `u32` keys compare, byte by byte, as the keys do.
pub proof fn lemma_u32_order(a: u32, b: u32)
    ensures
        lex_less(a.key_bytes(), b.key_bytes()) <==> a < b,
{
    lemma_radix_values();
    lemma_be_bytes_order(a as nat, b as nat, 4);
}

/// Decoding the canonical bytes of an `i32` key gives the key back.
pub proof fn lemma_i32_round_trip(v: i32, r: Result<i32, Error>)
    requires
        <i32 as KeyEncoder>::decode_outcome(v.key_bytes(), r),
    ensures
        r == Ok::<i32, Error>(v),
{
    let u = unsigned_pattern(v as int, 0x1_0000_0000);
    lemma_radix_values();
    lemma_signed_of_pattern(v as int, 0x1_0000_0000);
    lemma_be_bytes_len(u, 4);
    lemma_value_of_bytes(u, 4);
    assert(v.key_bytes().take(4) == v.key_bytes());
}

/// The canonical bytes of a decoded `i32` key are the bytes it was decoded
/// from.
pub proof fn lemma_i32_reencode(bytes: Seq<u8>, v: i32)
    requires
        <i32 as KeyEncoder>::decode_outcome(bytes, Ok(v)),
    ensures
        bytes.len() >= 4,
        v.key_bytes() == bytes.take(4),
{
    lemma_radix_values();
    lemma_be_value_bound(bytes.take(4));
    lemma_pattern_of_signed(be_value(bytes.take(4)), 0x1_0000_0000);
    lemma_bytes_of_value(bytes.take(4));
}

/// `i32` keys that differ have canonical bytes that differ.
pub proof fn lemma_i32_injective(a: i32, b: i32)
    requires
        a.key_bytes() == b.key_bytes(),
    ensures
        a == b,
{
    lemma_radix_values();
    lemma_signed_of_pattern(a as int, 0x1_0000_0000);
    lemma_signed_of_pattern(b as int, 0x1_0000_0000);
    lemma_be_bytes_injective(
        unsigned_pattern(a as int, 0x1_0000_0000),
        unsigned_pattern(b as int, 0x1_0000_0000),
        4,
    );
}

/// The canonical bytes of `i32` keys of one sign compare, byte by byte, as
/// the keys do; those of a negative key come after those of every key that is
/// not negative.
pub proof fn lemma_i32_order(a: i32, b: i32)
    ensures
        lex_less(a.key_bytes(), b.key_bytes()) <==> if (a < 0) == (b < 0) {
            a < b
        } else {
            b < 0
        },
{
    lemma_radix_values();
    lemma_signed_of_pattern(a as int, 0x1_0000_0000);
    lemma_signed_of_pattern(b as int, 0x1_0000_0000);
    lemma_be_bytes_order(
        unsigned_pattern(a as int, 0x1_0000_0000),
        unsigned_pattern(b as int, 0x1_0000_0000),
        4,
    );
}

/// Decoding the canonical bytes of a `u64` key gives the key back.
pub proof fn lemma_u64_round_trip(v: u64, r: Result<u64, Error>)
    requires
        <u64 as KeyEncoder>::decode_outcome(v.key_bytes(), r),
    ensures
        r == Ok::<u64, Error>(v),
{
    lemma_radix_values();
    lemma_be_bytes_len(v as nat, 8);
    lemma_value_of_bytes(v as nat, 8);
    assert(v.key_bytes().take(8) == v.key_bytes());
}

/// The canonical bytes of a decoded `u64` key are the bytes it was decoded
/// from.
pub proof fn lemma_u64_reencode(bytes: Seq<u8>, v: u64)
    requires
        <u64 as KeyEncoder>::decode_outcome(bytes, Ok(v)),
    ensures
        bytes.len() >= 8,
        v.key_bytes() == bytes.take(8),
{
    lemma_bytes_of_value(bytes.take(8));
}

/// `u64` keys that differ have canonical bytes that differ.
pub proof fn lemma_u64_injective(a: u64, b: u64)
    requires
        a.key_bytes() == b.key_bytes(),
    ensures
        a == b,
{
    lemma_radix_values();
    lemma_be_bytes_injective(a as nat, b as nat, 8);
}

/// The canonical bytes of `u64` keys compare, byte by byte, as the keys do.
pub proof fn lemma_u64_order(a: u64, b: u64)
    ensures
        lex_less(a.key_bytes(), b.key_bytes()) <==> a < b,
{
    lemma_radix_values();
    lemma_be_bytes_order(a as nat, b as nat, 8);
}

/// Decoding the canonical bytes of an `i64` key gives the key back.
pub proof fn lemma_i64_round_trip(v: i64, r: Result<i64, Error>)
    requires
        <i64 as KeyEncoder>::decode_outcome(v.key_bytes(), r),
    ensures
        r == Ok::<i64, Error>(v),
{
    let u = unsigned_pattern(v as int, 0x1_0000_0000_0000_0000);
    lemma_radix_values();
    lemma_signed_of_pattern(v as int, 0x1_0000_0000_0000_0000);
    lemma_be_bytes_len(u, 8);
    lemma_value_of_bytes(u, 8);
    assert(v.key_bytes().take(8) == v.key_bytes());
}

/// The canonical bytes of a decoded `i64` key are the bytes it was decoded
/// from.
pub proof fn lemma_i64_reencode(bytes: Seq<u8>, v: i64)
    requires
        <i64 as KeyEncoder>::decode_outcome(bytes, Ok(v)),
    ensures
        bytes.len() >= 8,
        v.key_bytes() == bytes.take(8),
{
    lemma_radix_values();
    lemma_be_value_bound(bytes.take(8));
    lemma_pattern_of_signed(be_value(bytes.take(8)), 0x1_0000_0000_0000_0000);
    lemma_bytes_of_value(bytes.take(8));
}

/// `i64` keys that differ have canonical bytes that differ.
pub proof fn lemma_i64_injective(a: i64, b: i64)
    requires
        a.key_bytes() == b.key_bytes(),
    ensures
        a == b,
{
    lemma_radix_values();
    lemma_signed_of_pattern(a as int, 0x1_0000_0000_0000_0000);
    lemma_signed_of_pattern(b as int, 0x1_0000_0000_0000_0000);
    lemma_be_bytes_injective(
        unsigned_pattern(a as int, 0x1_0000_0000_0000_0000),
        unsigned_pattern(b as int, 0x1_0000_0000_0000_0000),
        8,
    );
}

/// The canonical bytes of `i64` keys of one sign compare, byte by byte, as
/// the keys do; those of a negative key come after those of every key that is
/// not negative.
pub proof fn lemma_i64_order(a: i64, b: i64)
    ensures
        lex_less(a.key_bytes(), b.key_bytes()) <==> if (a < 0) == (b < 0) {
            a < b
        } else {
            b < 0
        },
{
    lemma_radix_values();
    lemma_signed_of_pattern(a as int, 0x1_0000_0000_0000_0000);
    lemma_signed_of_pattern(b as int, 0x1_0000_0000_0000_0000);
    lemma_be_bytes_order(
        unsigned_pattern(a as int, 0x1_0000_0000_0000_0000),
        unsigned_pattern(b as int, 0x1_0000_0000_0000_0000),
        8,
    );
}

/// Decoding the canonical bytes of a text key gives a string of the same
/// characters.
pub proof fn lemma_string_round_trip(s: String, r: Result<String, Error>)
    requires
        <String as KeyEncoder>::decode_outcome(s.key_bytes(), r),
    ensures
        r matches Ok(t) && t@ == s@,
{
    encode_utf8_valid_utf8(s@);
    encode_utf8_decode_utf8(s@);
}

/// The canonical bytes of a decoded text key are the bytes it was decoded
/// from.
pub proof fn lemma_string_reencode(bytes: Seq<u8>, s: String)
    requires
        <String as KeyEncoder>::decode_outcome(bytes, Ok(s)),
    ensures
        s.key_bytes() == bytes,
{
    decode_utf8_encode_utf8(bytes);
}

/// Text keys that differ in their characters have canonical bytes that differ.
pub proof fn lemma_string_injective(a: String, b: String)
    requires
        a.key_bytes() == b.key_bytes(),
    ensures
        a@ == b@,
{
    encode_utf8_decode_utf8(a@);
    encode_utf8_decode_utf8(b@);
}

} // verus!
