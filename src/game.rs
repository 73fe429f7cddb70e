//! The two proving games: what each reads of its input, and the invariant
//! that its public output must meet.

use vstd::prelude::*;
use crate::output::{BlockExecutionOutput, DecompressionOutput, PublicOutput};

verus! {

/// A proving game: an in-circuit program with its input/output contract.
#[derive(Clone, Copy, Debug, PartialEq, Eq, Structural)]
pub enum Game {
    /// Full execution of one block.
    BlockExecution,
    /// Decompression of a batch of blocks.
    Decompression,
}

/// What the harness reads of a decoded raw input.
#[derive(Clone, Copy, Debug, PartialEq, Eq)]
pub enum DomainInput {
    /// A block-execution context; `block_id` identifies its block header.
    BlockExecution { block_id: [u8; 32] },
    /// A decompression batch; nothing of it is compared with the output.
    Decompression,
}

impl DomainInput {
    /// The game that this input belongs to.
    pub open spec fn game(self) -> Game {
        match self {
            DomainInput::BlockExecution { .. } => Game::BlockExecution,
            DomainInput::Decompression => Game::Decompression,
        }
    }
}

/// The value captured from the input before the backend consumes it, against
/// which the public output is checked.
#[derive(Clone, Copy, Debug, PartialEq, Eq)]
pub enum ComparisonValue {
    /// The output must commit to exactly this block identifier.
    BlockId([u8; 32]),
    /// The output's block-height range must be ordered.
    OrderedHeights,
}

impl ComparisonValue {
    /// The game whose invariant this value serves.
    pub open spec fn game(self) -> Game {
        match self {
            ComparisonValue::BlockId(_) => Game::BlockExecution,
            ComparisonValue::OrderedHeights => Game::Decompression,
        }
    }
}

/// A decoded output that disagrees with what its input demands.
#[derive(Clone, Copy, Debug, PartialEq, Eq)]
pub enum Fault {
    /// The committed block identifier differs from the one of the input.
    BlockIdMismatch { expected: [u8; 32], actual: [u8; 32] },
    /// The committed first block height exceeds the last one.
    HeightsOutOfOrder { first: u32, last: u32 },
    /// The comparison value and the output belong to different games.
    GameMismatch { checked_against: Game, committed_by: Game },
}

pub open spec fn spec_comparison_value(input: DomainInput) -> ComparisonValue {
    match input {
        DomainInput::BlockExecution { block_id } => ComparisonValue::BlockId(block_id),
        DomainInput::Decompression => ComparisonValue::OrderedHeights,
    }
}

/// The verdict of the game's invariant on a decoded output.
pub open spec fn spec_check_invariant(expected: ComparisonValue, output: PublicOutput) -> Result<(), Fault> {
    match (expected, output) {
        (ComparisonValue::BlockId(id), PublicOutput::BlockExecution(b)) => {
            if b.block_id == id {
                Ok(())
            } else {
                Err(Fault::BlockIdMismatch { expected: id, actual: b.block_id })
            }
        },
        (ComparisonValue::OrderedHeights, PublicOutput::Decompression(d)) => {
            if d.first_block_height <= d.last_block_height {
                Ok(())
            } else {
                Err(Fault::HeightsOutOfOrder { first: d.first_block_height, last: d.last_block_height })
            }
        },
        _ => Err(Fault::GameMismatch { checked_against: expected.game(), committed_by: output.game() }),
    }
}

/// Extracts the comparison value from a decoded input.
pub fn comparison_value(input: &DomainInput) -> (r: ComparisonValue)
    ensures
        r == spec_comparison_value(*input),
        r.game() == input.game(),
{
    match input {
        DomainInput::BlockExecution { block_id } => ComparisonValue::BlockId(*block_id),
        DomainInput::Decompression => ComparisonValue::OrderedHeights,
    }
}

/// Whether two 32-byte identifiers are equal, byte for byte.
pub fn same_bytes32(a: &[u8; 32], b: &[u8; 32]) -> (r: bool)
    ensures
        r <==> *a == *b,
{
    let mut i: usize = 0;
    while i < 32
        invariant
            0 <= i <= 32,
            forall|j: int| 0 <= j < i ==> a[j] == b[j],
        decreases 32 - i,
    {
        if a[i] != b[i] {
            return false;
        }
        i = i + 1;
    }
    assert(*a =~= *b);
    true
}

/// Checks a decoded output against the comparison value captured from its
/// input: equal block identifiers for block execution, an ordered height
/// range for decompression.
pub fn check_invariant(expected: &ComparisonValue, output: &PublicOutput) -> (r: Result<(), Fault>)
    ensures
        r == spec_check_invariant(*expected, *output),
{
    match (expected, output) {
        (ComparisonValue::BlockId(id), PublicOutput::BlockExecution(b)) => check_block_id(id, b),
        (ComparisonValue::OrderedHeights, PublicOutput::Decompression(d)) => check_height_order(d),
        (ComparisonValue::BlockId(_), PublicOutput::Decompression(_)) => Err(
            Fault::GameMismatch { checked_against: Game::BlockExecution, committed_by: Game::Decompression },
        ),
        (ComparisonValue::OrderedHeights, PublicOutput::BlockExecution(_)) => Err(
            Fault::GameMismatch { checked_against: Game::Decompression, committed_by: Game::BlockExecution },
        ),
    }
}

/// The block-execution invariant: the committed block identifier is the one
/// recomputed from the input.
pub fn check_block_id(expected: &[u8; 32], output: &BlockExecutionOutput) -> (r: Result<(), Fault>)
    ensures
        r == spec_check_invariant(
            ComparisonValue::BlockId(*expected),
            PublicOutput::BlockExecution(*output),
        ),
{
    if same_bytes32(&output.block_id, expected) {
        Ok(())
    } else {
        Err(Fault::BlockIdMismatch { expected: *expected, actual: output.block_id })
    }
}

/// The decompression invariant: the committed height range is ordered.
pub fn check_height_order(output: &DecompressionOutput) -> (r: Result<(), Fault>)
    ensures
        r == spec_check_invariant(ComparisonValue::OrderedHeights, PublicOutput::Decompression(*output)),
{
    if output.first_block_height <= output.last_block_height {
        Ok(())
    } else {
        Err(
            Fault::HeightsOutOfOrder {
                first: output.first_block_height,
                last: output.last_block_height,
            },
        )
    }
}

} // verus!
