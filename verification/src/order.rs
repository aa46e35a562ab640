//! Byte-wise lexicographic order, and how big-endian digits follow it.

use crate::big_endian::{be_bytes, lemma_be_bytes_len, lemma_value_of_bytes, radix};
use vstd::prelude::*;

verus! {

/// `a` and `b` agree before index `i`, and at `i` either `a` has ended while
/// `b` goes on, or `a` holds the smaller byte.
pub open spec fn less_at(a: Seq<u8>, b: Seq<u8>, i: int) -> bool {
    &&& 0 <= i <= a.len()
    &&& i < b.len()
    &&& forall|j: int| 0 <= j < i ==> a[j] == b[j]
    &&& (i == a.len() || a[i] < b[i])
}

/// `a` comes strictly before `b` in byte-wise lexicographic order.
pub open spec fn lex_less(a: Seq<u8>, b: Seq<u8>) -> bool {
    exists|i: int| less_at(a, b, i)
}

/// No byte string comes before another that comes before it; none comes
/// before itself.
pub proof fn lemma_lex_less_asymmetric(a: Seq<u8>, b: Seq<u8>)
    ensures
        !(lex_less(a, b) && lex_less(b, a)),
{
    if lex_less(a, b) && lex_less(b, a) {
        let i = choose|i: int| less_at(a, b, i);
        let j = choose|j: int| less_at(b, a, j);
        if i < j {
            assert(b[i] == a[i]);
        } else if j < i {
            assert(a[j] == b[j]);
        }
    }
}

/// Of two numbers that fit in `width` digits, the smaller has the digits that
/// come first.
pub proof fn lemma_be_bytes_increasing(x: nat, y: nat, width: nat)
    requires
        x < y,
        y < radix(width),
    ensures
        lex_less(be_bytes(x, width), be_bytes(y, width)),
    decreases width,
{
    if width > 0 {
        let w = (width - 1) as nat;
        let p = be_bytes(x / 256, w);
        let q = be_bytes(y / 256, w);
        lemma_be_bytes_len(x / 256, w);
        lemma_be_bytes_len(y / 256, w);
        if x / 256 < y / 256 {
            lemma_be_bytes_increasing(x / 256, y / 256, w);
            let i = choose|i: int| less_at(p, q, i);
            assert(less_at(be_bytes(x, width), be_bytes(y, width), i));
        } else {
            assert(x / 256 == y / 256);
            assert(less_at(be_bytes(x, width), be_bytes(y, width), w as int));
        }
    }
}

/// Numbers that fit in `width` digits compare as their digits do.
pub proof fn lemma_be_bytes_order(x: nat, y: nat, width: nat)
    requires
        x < radix(width),
        y < radix(width),
    ensures
        lex_less(be_bytes(x, width), be_bytes(y, width)) <==> x < y,
{
    if x < y {
        lemma_be_bytes_increasing(x, y, width);
    } else if y < x {
        lemma_be_bytes_increasing(y, x, width);
        lemma_lex_less_asymmetric(be_bytes(x, width), be_bytes(y, width));
    } else {
        lemma_lex_less_asymmetric(be_bytes(x, width), be_bytes(y, width));
    }
}

/// Numbers that fit in `width` digits and have the same digits are the same.
pub proof fn lemma_be_bytes_injective(x: nat, y: nat, width: nat)
    requires
        x < radix(width),
        y < radix(width),
        be_bytes(x, width) == be_bytes(y, width),
    ensures
        x == y,
{
    lemma_value_of_bytes(x, width);
    lemma_value_of_bytes(y, width);
}

} // verus!
