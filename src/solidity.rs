//! The record from which tests of an on-chain verifier are generated: a
//! block-execution proof's public values and proof bytes, as hex strings,
//! beside the decoded block identifier and input hash.

use vstd::prelude::*;
use vstd::string::StringExecFns;
use crate::abi::{abi_decode_word_pair, word_pair_error_text};
use crate::error::{result_view, Error, ErrorView};
use crate::harness::ProofSystem;
use crate::output::{bytes32_of, lemma_bytes32_of};

verus! {

/// The lowercase hexadecimal digit of a value below 16.
pub open spec fn hex_digit(n: int) -> char {
    seq!['0', '1', '2', '3', '4', '5', '6', '7', '8', '9', 'a', 'b', 'c', 'd', 'e', 'f'][n]
}

/// Bytes as lowercase hexadecimal: two digits per byte, high nibble first.
pub open spec fn hex_of(b: Seq<u8>) -> Seq<char> {
    Seq::new(
        2 * b.len(),
        |i: int|
            if i % 2 == 0 {
                hex_digit(b[i / 2] as int / 16)
            } else {
                hex_digit(b[i / 2] as int % 16)
            },
    )
}

/// Bytes as a `0x`-prefixed lowercase hexadecimal string.
pub open spec fn prefixed_hex_of(b: Seq<u8>) -> Seq<char> {
    seq!['0', 'x'] + hex_of(b)
}

/// Relies on hex::encode: each byte becomes two lowercase hex digits, the
/// high nibble first.
#[verifier::external_body]
fn to_hex(b: &[u8]) -> (r: String)
    ensures
        r@ == hex_of(b@),
{
    hex::encode(b)
}

fn to_prefixed_hex(b: &[u8]) -> (r: String)
    ensures
        r@ == prefixed_hex_of(b@),
{
    let digits = to_hex(b);
    let mut s = String::from_str("0x");
    proof {
        reveal_strlit("0x");
    }
    s.append(digits.as_str());
    s
}

/// A proof of the block-execution game, laid out for an on-chain verifier's tests.
#[derive(Clone, Debug, PartialEq, Eq)]
pub struct SolidityContext {
    pub block_id: [u8; 32],
    pub input_hash: [u8; 32],
    /// The verification key, as the backend prints it.
    pub vkey: String,
    /// The public values, `0x`-prefixed hex.
    pub public_values: String,
    /// The proof bytes, `0x`-prefixed hex.
    pub proof: String,
}

/// A `SolidityContext` with its strings seen as sequences of characters.
pub struct SolidityContextView {
    pub block_id: [u8; 32],
    pub input_hash: [u8; 32],
    pub vkey: Seq<char>,
    pub public_values: Seq<char>,
    pub proof: Seq<char>,
}

impl View for SolidityContext {
    type V = SolidityContextView;

    open spec fn view(&self) -> SolidityContextView {
        SolidityContextView {
            block_id: self.block_id,
            input_hash: self.input_hash,
            vkey: self.vkey@,
            public_values: self.public_values@,
            proof: self.proof@,
        }
    }
}

/// The record for public values `pv`, proof bytes `proof` and key `vkey`.
/// The public values are read leniently: their first two words are the input
/// hash and the block identifier, and anything after them is kept in the hex
/// string but not read.
pub open spec fn spec_solidity_context(pv: Seq<u8>, proof: Seq<u8>, vkey: Seq<char>) -> Result<SolidityContextView, ErrorView> {
    if pv.len() >= 64 {
        Ok(
            SolidityContextView {
                block_id: bytes32_of(pv.subrange(32, 64)),
                input_hash: bytes32_of(pv.subrange(0, 32)),
                vkey,
                public_values: prefixed_hex_of(pv),
                proof: prefixed_hex_of(proof),
            },
        )
    } else {
        Err(ErrorView::FailedToDeserializePublicOutput(word_pair_error_text(pv, false)))
    }
}

/// Builds the on-chain verifier record of a block-execution proof from its
/// public values, its proof bytes and its verification key.
pub fn create_solidity_context(public_values: &[u8], proof: &[u8], vkey: String) -> (r: Result<SolidityContext, Error>)
    ensures
        r is Ok <==> public_values@.len() >= 64,
        r is Ok ==> r->Ok_0@ == spec_solidity_context(public_values@, proof@, vkey@)->Ok_0,
        r is Err ==> result_view(r)->Err_0 == spec_solidity_context(public_values@, proof@, vkey@)->Err_0,
{
    match abi_decode_word_pair(public_values, false) {
        Err(e) => Err(Error::FailedToDeserializePublicOutput(e)),
        Ok((input_hash, block_id)) => {
            proof {
                lemma_bytes32_of(input_hash);
                lemma_bytes32_of(block_id);
            }
            Ok(
                SolidityContext {
                    block_id,
                    input_hash,
                    vkey,
                    public_values: to_prefixed_hex(public_values),
                    proof: to_prefixed_hex(proof),
                },
            )
        },
    }
}

/// The name of the file that holds the record of a proof made with `system`:
/// the system's name in lower case, then `-fixture.json`.
pub fn fixture_file_name(system: ProofSystem) -> (r: String)
    ensures
        system == ProofSystem::Core ==> r@ == "core-fixture.json"@,
        system == ProofSystem::Plonk ==> r@ == "plonk-fixture.json"@,
        system == ProofSystem::Groth16 ==> r@ == "groth16-fixture.json"@,
{
    match system {
        ProofSystem::Core => String::from_str("core-fixture.json"),
        ProofSystem::Plonk => String::from_str("plonk-fixture.json"),
        ProofSystem::Groth16 => String::from_str("groth16-fixture.json"),
    }
}

} // verus!
