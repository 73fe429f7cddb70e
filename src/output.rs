//! The public output that the in-circuit program commits to, per game, and
//! its fixed-width ABI layout.

use vstd::prelude::*;
use vstd::array::spec_array_update;
use crate::abi::{
    abi_decode_word_and_heights, abi_decode_word_pair, abi_encode_word_and_heights,
    abi_encode_word_pair, be_u32_value, lemma_u32_word_of_value, lemma_u32_word_round_trip, u32_word,
    word_and_heights_error_text, word_pair_error_text, zero_bytes,
};
use crate::error::{result_view, Error, ErrorView};
use crate::game::Game;

verus! {

/// Public output of the block-execution game: `(uint256 input_hash, uint256 block_id)`.
#[derive(Clone, Copy, Debug, PartialEq, Eq)]
pub struct BlockExecutionOutput {
    pub input_hash: [u8; 32],
    pub block_id: [u8; 32],
}

/// Public output of the decompression game:
/// `(uint256 input_hash, uint32 first_block_height, uint32 last_block_height)`.
#[derive(Clone, Copy, Debug, PartialEq, Eq)]
pub struct DecompressionOutput {
    pub input_hash: [u8; 32],
    pub first_block_height: u32,
    pub last_block_height: u32,
}

/// A decoded public output of either game.
#[derive(Clone, Copy, Debug, PartialEq, Eq)]
pub enum PublicOutput {
    BlockExecution(BlockExecutionOutput),
    Decompression(DecompressionOutput),
}

impl PublicOutput {
    /// The game that committed this output.
    pub open spec fn game(self) -> Game {
        match self {
            PublicOutput::BlockExecution(_) => Game::BlockExecution,
            PublicOutput::Decompression(_) => Game::Decompression,
        }
    }
}

/// The bytes that encode `o`: its fields as 32-byte words, in order.
pub open spec fn output_bytes(o: PublicOutput) -> Seq<u8> {
    match o {
        PublicOutput::BlockExecution(b) => b.input_hash@ + b.block_id@,
        PublicOutput::Decompression(d) => d.input_hash@ + u32_word(d.first_block_height)
            + u32_word(d.last_block_height),
    }
}

/// The byte strings that decode as an output of `game`.
pub open spec fn well_formed_output(game: Game, b: Seq<u8>) -> bool {
    match game {
        Game::BlockExecution => b.len() == 64,
        Game::Decompression => b.len() == 96 && zero_bytes(b, 32, 60) && zero_bytes(b, 64, 92),
    }
}

/// What a well-formed byte string of `game` decodes to.
pub open spec fn output_of_bytes(game: Game, b: Seq<u8>) -> PublicOutput {
    match game {
        Game::BlockExecution => PublicOutput::BlockExecution(
            BlockExecutionOutput {
                input_hash: bytes32_of(b.subrange(0, 32)),
                block_id: bytes32_of(b.subrange(32, 64)),
            },
        ),
        Game::Decompression => PublicOutput::Decompression(
            DecompressionOutput {
                input_hash: bytes32_of(b.subrange(0, 32)),
                first_block_height: be_u32_value(b.subrange(60, 64)) as u32,
                last_block_height: be_u32_value(b.subrange(92, 96)) as u32,
            },
        ),
    }
}

/// The array whose view is `s` (for `s` of length 32).
pub open spec fn bytes32_of(s: Seq<u8>) -> [u8; 32] {
    choose|a: [u8; 32]| a@ == s
}

/// What decoding reports when `b` is not a well-formed output of `game`.
pub open spec fn output_error_text(game: Game, b: Seq<u8>) -> Seq<char> {
    match game {
        Game::BlockExecution => word_pair_error_text(b, true),
        Game::Decompression => word_and_heights_error_text(b),
    }
}

/// The result of decoding `b` as a public output of `game`.
pub open spec fn spec_decode_public_output(game: Game, b: Seq<u8>) -> Result<PublicOutput, ErrorView> {
    if well_formed_output(game, b) {
        Ok(output_of_bytes(game, b))
    } else {
        Err(ErrorView::FailedToDeserializePublicOutput(output_error_text(game, b)))
    }
}

/// Encodes a public output in its fixed-width ABI layout, as the in-circuit
/// program commits it.
pub fn encode_public_output(output: &PublicOutput) -> (r: Vec<u8>)
    ensures
        r@ == output_bytes(*output),
{
    match output {
        PublicOutput::BlockExecution(b) => abi_encode_word_pair(&b.input_hash, &b.block_id),
        PublicOutput::Decompression(d) => abi_encode_word_and_heights(
            &d.input_hash,
            d.first_block_height,
            d.last_block_height,
        ),
    }
}

/// Decodes public-output bytes as the output of `game`. Only the exact
/// fixed-width layout is accepted: no trailing bytes, and zero padding in front
/// of each `uint32`.
pub fn decode_public_output(game: Game, bytes: &[u8]) -> (r: Result<PublicOutput, Error>)
    ensures
        r is Ok <==> well_formed_output(game, bytes@),
        result_view(r) == spec_decode_public_output(game, bytes@),
{
    match game {
        Game::BlockExecution => match abi_decode_word_pair(bytes, true) {
            Ok((input_hash, block_id)) => {
                proof {
                    lemma_bytes32_of(input_hash);
                    lemma_bytes32_of(block_id);
                }
                Ok(PublicOutput::BlockExecution(BlockExecutionOutput { input_hash, block_id }))
            },
            Err(e) => Err(Error::FailedToDeserializePublicOutput(e)),
        },
        Game::Decompression => match abi_decode_word_and_heights(bytes) {
            Ok((input_hash, first_block_height, last_block_height)) => {
                proof {
                    lemma_bytes32_of(input_hash);
                }
                Ok(
                    PublicOutput::Decompression(
                        DecompressionOutput { input_hash, first_block_height, last_block_height },
                    ),
                )
            },
            Err(e) => Err(Error::FailedToDeserializePublicOutput(e)),
        },
    }
}

/// Decoding the encoding of an output gives back that output, as an output
/// of its own game.
pub proof fn lemma_decode_encode(o: PublicOutput)
    ensures
        well_formed_output(o.game(), output_bytes(o)),
        spec_decode_public_output(o.game(), output_bytes(o)) == Ok::<PublicOutput, ErrorView>(o),
{
    let b = output_bytes(o);
    match o {
        PublicOutput::BlockExecution(x) => {
            assert(b.subrange(0, 32) =~= x.input_hash@);
            assert(b.subrange(32, 64) =~= x.block_id@);
            lemma_bytes32_of(x.input_hash);
            lemma_bytes32_of(x.block_id);
        },
        PublicOutput::Decompression(x) => {
            lemma_u32_word_round_trip(x.first_block_height);
            lemma_u32_word_round_trip(x.last_block_height);
            let w1 = u32_word(x.first_block_height);
            let w2 = u32_word(x.last_block_height);
            assert(b.subrange(0, 32) =~= x.input_hash@);
            assert(b.subrange(60, 64) =~= w1.subrange(28, 32));
            assert(b.subrange(92, 96) =~= w2.subrange(28, 32));
            assert(zero_bytes(b, 32, 60)) by {
                assert forall|i: int| 32 <= i < 60 implies b[i] == 0u8 by {
                    assert(b[i] == w1[i - 32]);
                }
            }
            assert(zero_bytes(b, 64, 92)) by {
                assert forall|i: int| 64 <= i < 92 implies b[i] == 0u8 by {
                    assert(b[i] == w2[i - 64]);
                }
            }
            lemma_bytes32_of(x.input_hash);
        },
    }
}

/// Decoding accepts only canonical bytes: a well-formed byte string is the
/// encoding of what it decodes to.
pub proof fn lemma_encode_decode(game: Game, b: Seq<u8>)
    requires
        well_formed_output(game, b),
    ensures
        output_of_bytes(game, b).game() == game,
        output_bytes(output_of_bytes(game, b)) == b,
{
    let h = b.subrange(0, 32);
    let hash: [u8; 32] = bytes32_of(h);
    assert(exists|a: [u8; 32]| a@ == h) by {
        lemma_array_of_seq32(h);
    }
    match game {
        Game::BlockExecution => {
            let id = b.subrange(32, 64);
            assert(exists|a: [u8; 32]| a@ == id) by {
                lemma_array_of_seq32(id);
            }
            assert(hash@ + bytes32_of(id)@ =~= b);
        },
        Game::Decompression => {
            let w1 = b.subrange(32, 64);
            let w2 = b.subrange(64, 96);
            assert(zero_bytes(w1, 0, 28)) by {
                assert forall|i: int| 0 <= i < 28 implies w1[i] == 0u8 by {
                    assert(w1[i] == b[i + 32]);
                }
            }
            assert(zero_bytes(w2, 0, 28)) by {
                assert forall|i: int| 0 <= i < 28 implies w2[i] == 0u8 by {
                    assert(w2[i] == b[i + 64]);
                }
            }
            lemma_u32_word_of_value(w1);
            lemma_u32_word_of_value(w2);
            assert(w1.subrange(28, 32) =~= b.subrange(60, 64));
            assert(w2.subrange(28, 32) =~= b.subrange(92, 96));
            assert(hash@ + w1 + w2 =~= b);
        },
    }
}

/// An array that agrees with `s` on its first `k` bytes.
proof fn array_agreeing_with(s: Seq<u8>, k: int) -> (a: [u8; 32])
    requires
        s.len() == 32,
        0 <= k <= 32,
    ensures
        forall|i: int| 0 <= i < k ==> a@[i] == s[i],
    decreases k,
{
    if k == 0 {
        arbitrary()
    } else {
        let prev = array_agreeing_with(s, k - 1);
        let a = spec_array_update(prev, k - 1, s[k - 1]);
        assert(a@ == prev@.update(k - 1, s[k - 1]));
        a
    }
}

/// Every sequence of 32 bytes is the view of some array.
proof fn lemma_array_of_seq32(s: Seq<u8>)
    requires
        s.len() == 32,
    ensures
        exists|a: [u8; 32]| a@ == s,
{
    let a = array_agreeing_with(s, 32);
    assert(a@ =~= s);
}

/// An array is the one `bytes32_of` picks for its own view.
pub proof fn lemma_bytes32_of(a: [u8; 32])
    ensures
        bytes32_of(a@) == a,
{
    let b = bytes32_of(a@);
    assert(b@ == a@);
    assert(b =~= a);
}

} // verus!
