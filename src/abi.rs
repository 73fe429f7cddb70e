//! Fixed-width Solidity ABI words, and the calls into `alloy-sol-types` that
//! encode and decode the public-output tuples of the two games.

use vstd::prelude::*;
use alloy_sol_types::{sol_data, SolType};

verus! {

/// Unsigned value of four big-endian bytes.
pub open spec fn be_u32_value(b: Seq<u8>) -> int {
    b[0] as int * 16777216 + b[1] as int * 65536 + b[2] as int * 256 + b[3] as int
}

/// A `uint32` as one ABI word: 28 zero bytes, then the value in big-endian order.
pub open spec fn u32_word(x: u32) -> Seq<u8> {
    Seq::new(28, |i: int| 0u8) + seq![
        (x / 16777216) as u8,
        ((x / 65536) % 256) as u8,
        ((x / 256) % 256) as u8,
        (x % 256) as u8,
    ]
}

/// Every byte of `b` in `[lo, hi)` is zero.
pub open spec fn zero_bytes(b: Seq<u8>, lo: int, hi: int) -> bool {
    forall|i: int| lo <= i < hi ==> b[i] == 0u8
}

/// What `abi_decode` reports when it rejects a `(bytes32, bytes32)` blob.
pub uninterp spec fn word_pair_error_text(data: Seq<u8>, validate: bool) -> Seq<char>;

/// Relies on alloy-sol-types' `SolType::abi_decode` for the Solidity tuple
/// `(bytes32, bytes32)` (the same layout as `(uint256, uint256)`): the two
/// words are read in place; with `validate`, the blob must also be exactly the
/// re-encoding of what was read, so no trailing bytes are accepted.
#[verifier::external_body]
pub(crate) fn abi_decode_word_pair(data: &[u8], validate: bool) -> (r: Result<([u8; 32], [u8; 32]), String>)
    ensures
        r is Ok <==> (if validate { data@.len() == 64 } else { data@.len() >= 64 }),
        r is Ok ==> r->Ok_0.0@ == data@.subrange(0, 32) && r->Ok_0.1@ == data@.subrange(32, 64),
        r is Err ==> r->Err_0@ == word_pair_error_text(data@, validate),
{
    <(sol_data::FixedBytes<32>, sol_data::FixedBytes<32>) as SolType>::abi_decode(data, validate)
        .map(|(a, b)| (a.0, b.0))
        .map_err(|e| e.to_string())
}

/// Relies on alloy-sol-types' `SolType::abi_encode` for the Solidity tuple
/// `(bytes32, bytes32)`: a static tuple is encoded as its words in order.
#[verifier::external_body]
pub(crate) fn abi_encode_word_pair(a: &[u8; 32], b: &[u8; 32]) -> (r: Vec<u8>)
    ensures
        r@ == a@ + b@,
{
    <(sol_data::FixedBytes<32>, sol_data::FixedBytes<32>) as SolType>::abi_encode(&(*a, *b))
}

/// What `abi_decode` reports when it rejects a `(bytes32, uint32, uint32)` blob.
pub uninterp spec fn word_and_heights_error_text(data: Seq<u8>) -> Seq<char>;

/// Relies on alloy-sol-types' `SolType::abi_decode` with validation for the
/// Solidity tuple `(bytes32, uint32, uint32)`: three words read in place, the
/// blob exactly their re-encoding, and the 28 high bytes of each `uint32` word
/// zero (its type check); a `uint32` is read from the low four bytes.
#[verifier::external_body]
pub(crate) fn abi_decode_word_and_heights(data: &[u8]) -> (r: Result<([u8; 32], u32, u32), String>)
    ensures
        r is Ok <==> (data@.len() == 96 && zero_bytes(data@, 32, 60) && zero_bytes(data@, 64, 92)),
        r is Ok ==> {
            &&& r->Ok_0.0@ == data@.subrange(0, 32)
            &&& r->Ok_0.1 as int == be_u32_value(data@.subrange(60, 64))
            &&& r->Ok_0.2 as int == be_u32_value(data@.subrange(92, 96))
        },
        r is Err ==> r->Err_0@ == word_and_heights_error_text(data@),
{
    <(sol_data::FixedBytes<32>, sol_data::Uint<32>, sol_data::Uint<32>) as SolType>::abi_decode(data, true)
        .map(|(a, first, last)| (a.0, first, last))
        .map_err(|e| e.to_string())
}

/// Relies on alloy-sol-types' `SolType::abi_encode` for the Solidity tuple
/// `(bytes32, uint32, uint32)`: the words in order, each `uint32` left-padded
/// with zeros.
#[verifier::external_body]
pub(crate) fn abi_encode_word_and_heights(a: &[u8; 32], first: u32, last: u32) -> (r: Vec<u8>)
    ensures
        r@ == a@ + u32_word(first) + u32_word(last),
{
    <(sol_data::FixedBytes<32>, sol_data::Uint<32>, sol_data::Uint<32>) as SolType>::abi_encode(&(*a, first, last))
}

/// Decoding a `uint32` word gives back the value it was made from.
pub proof fn lemma_u32_word_round_trip(x: u32)
    ensures
        u32_word(x).len() == 32,
        zero_bytes(u32_word(x), 0, 28),
        be_u32_value(u32_word(x).subrange(28, 32)) == x as int,
{
    let w = u32_word(x);
    let t = w.subrange(28, 32);
    assert(t[0] == (x / 16777216) as u8);
    assert(t[3] == (x % 256) as u8);
    assert(be_u32_value(t) == x as int) by (nonlinear_arith)
        requires
            t[0] == (x / 16777216) as u8,
            t[1] == ((x / 65536) % 256) as u8,
            t[2] == ((x / 256) % 256) as u8,
            t[3] == (x % 256) as u8,
            be_u32_value(t) == t[0] as int * 16777216 + t[1] as int * 65536 + t[2] as int * 256 + t[3] as int,
    ;
}

/// Re-encoding the value of a zero-padded `uint32` word gives back the word.
pub proof fn lemma_u32_word_of_value(w: Seq<u8>)
    requires
        w.len() == 32,
        zero_bytes(w, 0, 28),
    ensures
        0 <= be_u32_value(w.subrange(28, 32)) <= u32::MAX,
        u32_word(be_u32_value(w.subrange(28, 32)) as u32) == w,
{
    let t = w.subrange(28, 32);
    let (b0, b1, b2, b3) = (t[0] as int, t[1] as int, t[2] as int, t[3] as int);
    let v = be_u32_value(t);
    assert(0 <= v <= u32::MAX && v / 16777216 == b0 && (v / 65536) % 256 == b1
        && (v / 256) % 256 == b2 && v % 256 == b3) by (nonlinear_arith)
        requires
            0 <= b0 < 256,
            0 <= b1 < 256,
            0 <= b2 < 256,
            0 <= b3 < 256,
            v == b0 * 16777216 + b1 * 65536 + b2 * 256 + b3,
    ;
    let x = v as u32;
    assert(u32_word(x) =~= w) by {
        assert forall|i: int| 0 <= i < 32 implies u32_word(x)[i] == w[i] by {
            if i >= 28 {
                assert(w[i] == t[i - 28]);
            }
        }
    }
}

} // verus!
