//! Canonical byte encodings of the primitive key types.
//!
//! An integer key is its big-endian bytes, at the fixed width of its type; a
//! signed one is the big-endian bytes of its two's-complement pattern, with no
//! sign-bit flip, so that under byte-wise comparison the negative keys come
//! after the others. A text key is its UTF-8 bytes, with neither a length
//! prefix nor a terminator.

use crate::big_endian::{
    be_bytes, be_value, lemma_be_bytes_len, read_i16, read_i32, read_i64, read_u16, read_u32,
    read_u64, signed_value, unsigned_pattern, write_i16, write_i32, write_i64, write_u16,
    write_u32, write_u64,
};
use crate::error::Error;
use vstd::prelude::*;
use vstd::slice::slice_to_vec;
use vstd::utf8::{decode_utf8, encode_utf8, valid_utf8};

verus! {

/// What `encode_key` must leave in the buffer and return, for a key whose
/// canonical bytes are `key`: the bytes at the start of the buffer and their
/// number, or `TruncatedInput` and an untouched buffer where they do not fit.
pub open spec fn encode_outcome(
    key: Seq<u8>,
    before: Seq<u8>,
    after: Seq<u8>,
    r: Result<usize, Error>,
) -> bool {
    if before.len() < key.len() {
        r == Err::<usize, Error>(Error::TruncatedInput) && after == before
    } else {
        r == Ok::<usize, Error>(key.len() as usize) && after == key + before.skip(key.len() as int)
    }
}

/// A key type with a canonical byte encoding.
///
/// The two `spec` functions are what the contracts say of a key type. The key
/// types of this crate state them below; for a key type that is not verified
/// they stand for whatever its methods return.
pub trait KeyEncoder<T = Self> {
    /// The canonical bytes of this key.
    closed spec fn key_bytes(&self) -> Seq<u8> {
        arbitrary()
    }

    /// Whether `r` is what decoding `bytes` must give.
    closed spec fn decode_outcome(bytes: Seq<u8>, r: Result<T, Error>) -> bool {
        arbitrary()
    }

    /// Writes the canonical bytes of this key to the start of `bytes`.
    fn encode_key(&self, bytes: &mut [u8]) -> (r: Result<usize, Error>)
        ensures
            encode_outcome(self.key_bytes(), old(bytes)@, final(bytes)@, r),
    ;

    /// The number of bytes that `encode_key` writes for this key.
    fn key_len(&self) -> (n: usize)
        ensures
            n == self.key_bytes().len(),
    ;

    /// Reads a key back from the start of `bytes`.
    fn decode_key(bytes: &[u8]) -> (r: Result<T, Error>)
        ensures
            Self::decode_outcome(bytes@, r),
    ;
}

impl KeyEncoder for u16 {
    open spec fn key_bytes(&self) -> Seq<u8> {
        be_bytes(*self as nat, 2)
    }

    open spec fn decode_outcome(bytes: Seq<u8>, r: Result<u16, Error>) -> bool {
        if bytes.len() < 2 {
            r == Err::<u16, Error>(Error::TruncatedInput)
        } else {
            r matches Ok(v) && v as nat == be_value(bytes.take(2))
        }
    }

    fn encode_key(&self, bytes: &mut [u8]) -> (r: Result<usize, Error>) {
        proof {
            lemma_be_bytes_len(*self as nat, 2);
        }
        if bytes.len() < 2 {
            return Err(Error::TruncatedInput);
        }
        write_u16(bytes, *self);
        Ok(2)
    }

    fn key_len(&self) -> (n: usize) {
        proof {
            lemma_be_bytes_len(*self as nat, 2);
        }
        2
    }

    fn decode_key(bytes: &[u8]) -> (r: Result<u16, Error>) {
        if bytes.len() < 2 {
            return Err(Error::TruncatedInput);
        }
        Ok(read_u16(bytes))
    }
}

impl KeyEncoder for i16 {
    open spec fn key_bytes(&self) -> Seq<u8> {
        be_bytes(unsigned_pattern(*self as int, 0x1_0000), 2)
    }

    open spec fn decode_outcome(bytes: Seq<u8>, r: Result<i16, Error>) -> bool {
        if bytes.len() < 2 {
            r == Err::<i16, Error>(Error::TruncatedInput)
        } else {
            r matches Ok(v) && v as int == signed_value(be_value(bytes.take(2)), 0x1_0000)
        }
    }

    fn encode_key(&self, bytes: &mut [u8]) -> (r: Result<usize, Error>) {
        proof {
            lemma_be_bytes_len(unsigned_pattern(*self as int, 0x1_0000), 2);
        }
        if bytes.len() < 2 {
            return Err(Error::TruncatedInput);
        }
        write_i16(bytes, *self);
        Ok(2)
    }

    fn key_len(&self) -> (n: usize) {
        proof {
            lemma_be_bytes_len(unsigned_pattern(*self as int, 0x1_0000), 2);
        }
        2
    }

    fn decode_key(bytes: &[u8]) -> (r: Result<i16, Error>) {
        if bytes.len() < 2 {
            return Err(Error::TruncatedInput);
        }
        Ok(read_i16(bytes))
    }
}

impl KeyEncoder for u32 {
    open spec fn key_bytes(&self) -> Seq<u8> {
        be_bytes(*self as nat, 4)
    }

    open spec fn decode_outcome(bytes: Seq<u8>, r: Result<u32, Error>) -> bool {
        if bytes.len() < 4 {
            r == Err::<u32, Error>(Error::TruncatedInput)
        } else {
            r matches Ok(v) && v as nat == be_value(bytes.take(4))
        }
    }

    fn encode_key(&self, bytes: &mut [u8]) -> (r: Result<usize, Error>) {
        proof {
            lemma_be_bytes_len(*self as nat, 4);
        }
        if bytes.len() < 4 {
            return Err(Error::TruncatedInput);
        }
        write_u32(bytes, *self);
        Ok(4)
    }

    fn key_len(&self) -> (n: usize) {
        proof {
            lemma_be_bytes_len(*self as nat, 4);
        }
        4
    }

    fn decode_key(bytes: &[u8]) -> (r: Result<u32, Error>) {
        if bytes.len() < 4 {
            return Err(Error::TruncatedInput);
        }
        Ok(read_u32(bytes))
    }
}

impl KeyEncoder for i32 {
    open spec fn key_bytes(&self) -> Seq<u8> {
        be_bytes(unsigned_pattern(*self as int, 0x1_0000_0000), 4)
    }

    open spec fn decode_outcome(bytes: Seq<u8>, r: Result<i32, Error>) -> bool {
        if bytes.len() < 4 {
            r == Err::<i32, Error>(Error::TruncatedInput)
        } else {
            r matches Ok(v) && v as int == signed_value(be_value(bytes.take(4)), 0x1_0000_0000)
        }
    }

    fn encode_key(&self, bytes: &mut [u8]) -> (r: Result<usize, Error>) {
        proof {
            lemma_be_bytes_len(unsigned_pattern(*self as int, 0x1_0000_0000), 4);
        }
        if bytes.len() < 4 {
            return Err(Error::TruncatedInput);
        }
        write_i32(bytes, *self);
        Ok(4)
    }

    fn key_len(&self) -> (n: usize) {
        proof {
            lemma_be_bytes_len(unsigned_pattern(*self as int, 0x1_0000_0000), 4);
        }
        4
    }

    fn decode_key(bytes: &[u8]) -> (r: Result<i32, Error>) {
        if bytes.len() < 4 {
            return Err(Error::TruncatedInput);
        }
        Ok(read_i32(bytes))
    }
}

impl KeyEncoder for u64 {
    open spec fn key_bytes(&self) -> Seq<u8> {
        be_bytes(*self as nat, 8)
    }

    open spec fn decode_outcome(bytes: Seq<u8>, r: Result<u64, Error>) -> bool {
        if bytes.len() < 8 {
            r == Err::<u64, Error>(Error::TruncatedInput)
        } else {
            r matches Ok(v) && v as nat == be_value(bytes.take(8))
        }
    }

    fn encode_key(&self, bytes: &mut [u8]) -> (r: Result<usize, Error>) {
        proof {
            lemma_be_bytes_len(*self as nat, 8);
        }
        if bytes.len() < 8 {
            return Err(Error::TruncatedInput);
        }
        write_u64(bytes, *self);
        Ok(8)
    }

    fn key_len(&self) -> (n: usize) {
        proof {
            lemma_be_bytes_len(*self as nat, 8);
        }
        8
    }

    fn decode_key(bytes: &[u8]) -> (r: Result<u64, Error>) {
        if bytes.len() < 8 {
            return Err(Error::TruncatedInput);
        }
        Ok(read_u64(bytes))
    }
}

impl KeyEncoder for i64 {
    open spec fn key_bytes(&self) -> Seq<u8> {
        be_bytes(unsigned_pattern(*self as int, 0x1_0000_0000_0000_0000), 8)
    }

    open spec fn decode_outcome(bytes: Seq<u8>, r: Result<i64, Error>) -> bool {
        if bytes.len() < 8 {
            r == Err::<i64, Error>(Error::TruncatedInput)
        } else {
            r matches Ok(v) && v as int == signed_value(be_value(bytes.take(8)), 0x1_0000_0000_0000_0000)
        }
    }

    fn encode_key(&self, bytes: &mut [u8]) -> (r: Result<usize, Error>) {
        proof {
            lemma_be_bytes_len(unsigned_pattern(*self as int, 0x1_0000_0000_0000_0000), 8);
        }
        if bytes.len() < 8 {
            return Err(Error::TruncatedInput);
        }
        write_i64(bytes, *self);
        Ok(8)
    }

    fn key_len(&self) -> (n: usize) {
        proof {
            lemma_be_bytes_len(unsigned_pattern(*self as int, 0x1_0000_0000_0000_0000), 8);
        }
        8
    }

    fn decode_key(bytes: &[u8]) -> (r: Result<i64, Error>) {
        if bytes.len() < 8 {
            return Err(Error::TruncatedInput);
        }
        Ok(read_i64(bytes))
    }
}

/// `String::from_utf8`: the string whose UTF-8 encoding is `bytes`, where
/// `bytes` is valid UTF-8, and nothing where it is not.
#[verifier::external_body]
fn string_from_utf8(bytes: Vec<u8>) -> (r: Option<String>)
    ensures
        r is Some <==> valid_utf8(bytes@),
        r matches Some(s) ==> encode_utf8(s@) == bytes@,
{
    match String::from_utf8(bytes) {
        Ok(s) => Some(s),
        Err(_) => None,
    }
}

impl KeyEncoder for String {
    open spec fn key_bytes(&self) -> Seq<u8> {
        encode_utf8(self@)
    }

    open spec fn decode_outcome(bytes: Seq<u8>, r: Result<String, Error>) -> bool {
        if valid_utf8(bytes) {
            r matches Ok(s) && s@ == decode_utf8(bytes)
        } else {
            r == Err::<String, Error>(Error::InvalidEncoding)
        }
    }

    fn encode_key(&self, bytes: &mut [u8]) -> (r: Result<usize, Error>) {
        let text: &[u8] = self.as_str().as_bytes();
        let n: usize = text.len();
        if bytes.len() < n {
            return Err(Error::TruncatedInput);
        }
        let ghost before = bytes@;
        let mut i: usize = 0;
        while i < n
            invariant
                i <= n,
                n == text@.len(),
                n <= bytes@.len(),
                bytes@.len() == before.len(),
                forall|j: int| 0 <= j < i ==> bytes@[j] == text@[j],
                forall|j: int| i <= j < before.len() ==> bytes@[j] == before[j],
            decreases n - i,
        {
            bytes[i] = text[i];
            i += 1;
        }
        assert(bytes@ =~= text@ + before.skip(n as int));
        Ok(n)
    }

    fn key_len(&self) -> (n: usize) {
        self.as_str().as_bytes().len()
    }

    fn decode_key(bytes: &[u8]) -> (r: Result<String, Error>) {
        match string_from_utf8(slice_to_vec(bytes)) {
            Some(s) => {
                proof {
                    vstd::utf8::encode_utf8_decode_utf8(s@);
                }
                Ok(s)
            },
            None => Err(Error::InvalidEncoding),
        }
    }
}

/// The canonical bytes of `key`, in a buffer of exactly their length.
pub fn encode_key<T>(key: &T) -> (data: Vec<u8>) where T: KeyEncoder
    ensures
        data@ == key.key_bytes(),
{
    let len: usize = key.key_len();
    let mut data: Vec<u8> = vec![0; len];
    let r = key.encode_key(data.as_mut_slice());
    assert(r is Ok);
    data
}

} // verus!
