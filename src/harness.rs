//! The proving-game harness as a state machine.
//!
//! The harness decides; its caller acts. Each action names the outside work
//! to perform next (decode the raw input, stage it in the backend, build the
//! environment, execute or prove); the caller performs it on the chosen
//! backend and hands the result back as an event. The comparison value is
//! captured from the decoded input before any backend call, and a run ends
//! with exactly one report.

use vstd::prelude::*;
use crate::error::{result_view, Error, ErrorView};
use crate::game::{
    check_invariant, comparison_value, spec_check_invariant, spec_comparison_value,
    ComparisonValue, DomainInput, Fault, Game,
};
use crate::output::{
    decode_public_output, lemma_decode_encode, output_bytes, spec_decode_public_output, PublicOutput,
};

verus! {

/// Trace-only execution, or a full proof.
#[derive(Clone, Copy, Debug, PartialEq, Eq, Structural)]
pub enum Mode {
    Execute,
    Prove,
}

/// The proof system that a backend is asked to produce.
#[derive(Clone, Copy, Debug, PartialEq, Eq, Structural)]
pub enum ProofSystem {
    /// The backend's native proof.
    Core,
    /// A PLONK proof, verifiable on chain.
    Plonk,
    /// A Groth16 proof, verifiable on chain.
    Groth16,
}

/// The zkVM that performs the actions of a run.
#[derive(Clone, Copy, Debug, PartialEq, Eq, Structural)]
pub enum Backend {
    /// The trace-based zkVM (RISC Zero).
    Risc0,
    /// The instruction-based zkVM (SP1), with the proof system to produce.
    Sp1(ProofSystem),
}

/// Statistics that a backend reports of a trace-only run.
#[derive(Clone, Copy, Debug, PartialEq, Eq)]
pub struct ExecutionSummary {
    pub instruction_count: u64,
    pub memory_address_count: u64,
    pub syscall_count: u64,
}

/// Where a run stands.
#[derive(Clone, Copy, Debug, PartialEq, Eq)]
pub enum Stage {
    /// The raw input has yet to be decoded.
    AwaitingInput,
    /// The comparison value is held; the raw input has yet to be staged.
    WritingInput(ComparisonValue),
    /// The input is staged; the environment has yet to be built.
    BuildingEnvironment(ComparisonValue),
    /// The environment is built; the backend has yet to execute or prove.
    Running(ComparisonValue),
    /// The run has been reported.
    Finished,
}

/// What a successful run yields.
#[derive(Clone, Copy, Debug, PartialEq, Eq)]
pub enum Outcome {
    /// A trace-only run completed; its output is neither decoded nor checked.
    Executed(ExecutionSummary),
    /// A proof was produced and its public output passed the game's invariant.
    Proved(PublicOutput),
}

/// The result of the outside work that an action asked for.
#[derive(Debug, PartialEq, Eq)]
pub enum Event {
    /// The raw input, decoded as the game's domain input, or why it did not decode.
    InputDecoded(Result<DomainInput, String>),
    /// The backend accepted the staged input, or rejected it.
    InputWritten(Result<(), String>),
    /// The backend built its environment, or failed to.
    EnvironmentBuilt(Result<(), String>),
    /// A trace-only run finished, or failed.
    Executed(Result<ExecutionSummary, String>),
    /// A proof was produced, with its public-output bytes, or proving failed.
    Proved(Result<Vec<u8>, String>),
}

/// What the caller is to do next.
#[derive(Debug, PartialEq, Eq)]
pub enum Action {
    DecodeInput,
    WriteInput,
    BuildEnvironment,
    Execute,
    Prove,
    /// The run is over: this is its result.
    Report(Result<Outcome, Error>),
    /// The run was already reported; nothing is left to do.
    Halt,
}

/// An `Event` with its texts and bytes seen as sequences.
pub enum EventView {
    InputDecoded(Result<DomainInput, Seq<char>>),
    InputWritten(Result<(), Seq<char>>),
    EnvironmentBuilt(Result<(), Seq<char>>),
    Executed(Result<ExecutionSummary, Seq<char>>),
    Proved(Result<Seq<u8>, Seq<char>>),
}

/// An `Action` with the error of its report seen through `ErrorView`.
pub enum ActionView {
    DecodeInput,
    WriteInput,
    BuildEnvironment,
    Execute,
    Prove,
    Report(Result<Outcome, ErrorView>),
    Halt,
}

/// A result with its error text seen as a sequence of characters.
pub open spec fn text_result<T>(r: Result<T, String>) -> Result<T, Seq<char>> {
    match r {
        Ok(v) => Ok(v),
        Err(s) => Err(s@),
    }
}

impl View for Event {
    type V = EventView;

    open spec fn view(&self) -> EventView {
        match self {
            Event::InputDecoded(r) => EventView::InputDecoded(text_result(*r)),
            Event::InputWritten(r) => EventView::InputWritten(text_result(*r)),
            Event::EnvironmentBuilt(r) => EventView::EnvironmentBuilt(text_result(*r)),
            Event::Executed(r) => EventView::Executed(text_result(*r)),
            Event::Proved(r) => EventView::Proved(
                match r {
                    Ok(b) => Ok(b@),
                    Err(s) => Err(s@),
                },
            ),
        }
    }
}

impl View for Action {
    type V = ActionView;

    open spec fn view(&self) -> ActionView {
        match self {
            Action::DecodeInput => ActionView::DecodeInput,
            Action::WriteInput => ActionView::WriteInput,
            Action::BuildEnvironment => ActionView::BuildEnvironment,
            Action::Execute => ActionView::Execute,
            Action::Prove => ActionView::Prove,
            Action::Report(r) => ActionView::Report(result_view(*r)),
            Action::Halt => ActionView::Halt,
        }
    }
}

/// The backend call that runs the program in `mode`.
pub open spec fn run_action(mode: Mode) -> ActionView {
    match mode {
        Mode::Execute => ActionView::Execute,
        Mode::Prove => ActionView::Prove,
    }
}

/// The action that a stage waits to see answered.
pub open spec fn pending_action(mode: Mode, stage: Stage) -> ActionView {
    match stage {
        Stage::AwaitingInput => ActionView::DecodeInput,
        Stage::WritingInput(_) => ActionView::WriteInput,
        Stage::BuildingEnvironment(_) => ActionView::BuildEnvironment,
        Stage::Running(_) => run_action(mode),
        Stage::Finished => ActionView::Halt,
    }
}

/// What a proof's public output yields: decoded as the game of `expected`,
/// then held to its invariant.
pub open spec fn spec_validate_public_output(expected: ComparisonValue, journal: Seq<u8>) -> Result<PublicOutput, ErrorView> {
    match spec_decode_public_output(expected.game(), journal) {
        Err(e) => Err(e),
        Ok(output) => match spec_check_invariant(expected, output) {
            Err(f) => Err(ErrorView::Fault(f)),
            Ok(()) => Ok(output),
        },
    }
}

/// The report of a proving run, from what the backend returned.
pub open spec fn prove_report(expected: ComparisonValue, proved: Result<Seq<u8>, Seq<char>>) -> Result<Outcome, ErrorView> {
    match proved {
        Err(m) => Err(ErrorView::FailedToProveProvingGame(m)),
        Ok(journal) => match spec_validate_public_output(expected, journal) {
            Err(e) => Err(e),
            Ok(output) => Ok(Outcome::Proved(output)),
        },
    }
}

/// One decision of the harness: the next stage and action, in `mode`, when
/// `event` arrives at `stage`. An event that does not answer the pending
/// action leaves the stage as it is and asks for that action again.
pub open spec fn spec_step(mode: Mode, stage: Stage, event: EventView) -> (Stage, ActionView) {
    match (stage, event) {
        (Stage::AwaitingInput, EventView::InputDecoded(Ok(input))) => (
            Stage::WritingInput(spec_comparison_value(input)),
            ActionView::WriteInput,
        ),
        (Stage::AwaitingInput, EventView::InputDecoded(Err(m))) => (
            Stage::Finished,
            ActionView::Report(Err(ErrorView::FailedToDeserializeInput(m))),
        ),
        (Stage::WritingInput(cv), EventView::InputWritten(Ok(()))) => (
            Stage::BuildingEnvironment(cv),
            ActionView::BuildEnvironment,
        ),
        (Stage::WritingInput(_), EventView::InputWritten(Err(m))) => (
            Stage::Finished,
            ActionView::Report(Err(ErrorView::FailedToWriteInputToProverEnv(m))),
        ),
        (Stage::BuildingEnvironment(cv), EventView::EnvironmentBuilt(Ok(()))) => (
            Stage::Running(cv),
            run_action(mode),
        ),
        (Stage::BuildingEnvironment(_), EventView::EnvironmentBuilt(Err(m))) => (
            Stage::Finished,
            ActionView::Report(Err(ErrorView::FailedToBuildProverEnv(m))),
        ),
        (Stage::Running(_), EventView::Executed(r)) if mode == Mode::Execute => (
            Stage::Finished,
            ActionView::Report(
                match r {
                    Ok(summary) => Ok(Outcome::Executed(summary)),
                    Err(m) => Err(ErrorView::FailedToExecuteProvingGame(m)),
                },
            ),
        ),
        (Stage::Running(cv), EventView::Proved(r)) if mode == Mode::Prove => (
            Stage::Finished,
            ActionView::Report(prove_report(cv, r)),
        ),
        _ => (stage, pending_action(mode, stage)),
    }
}

/// The actions that a run in `mode` issues from `stage` as `events` arrive.
pub open spec fn spec_run(mode: Mode, stage: Stage, events: Seq<EventView>) -> Seq<ActionView>
    decreases events.len(),
{
    if events.len() == 0 {
        Seq::empty()
    } else {
        let (next, action) = spec_step(mode, stage, events[0]);
        seq![action] + spec_run(mode, next, events.drop_first())
    }
}

/// Round trip: an output that honours the comparison value, once encoded as
/// the in-circuit program commits it, decodes back to itself and passes the
/// game's invariant.
pub proof fn lemma_honest_output_round_trip(expected: ComparisonValue, output: PublicOutput)
    requires
        spec_check_invariant(expected, output) is Ok,
    ensures
        spec_validate_public_output(expected, output_bytes(output)) == Ok::<PublicOutput, ErrorView>(output),
{
    lemma_decode_encode(output);
}

/// Every output that a proving run reports as proved meets the invariant of
/// the comparison value held when the proof came in.
pub proof fn lemma_proved_output_meets_invariant(mode: Mode, stage: Stage, event: EventView, output: PublicOutput)
    requires
        spec_step(mode, stage, event).1 == ActionView::Report(Ok(Outcome::Proved(output))),
    ensures
        stage is Running,
        spec_check_invariant(stage->Running_0, output) is Ok,
{
}

/// Block execution: a reported proof commits to exactly the block identifier
/// captured from the input, byte for byte.
pub proof fn lemma_proved_block_id_matches(mode: Mode, stage: Stage, event: EventView, output: PublicOutput, id: [u8; 32])
    requires
        stage == Stage::Running(ComparisonValue::BlockId(id)),
        spec_step(mode, stage, event).1 == ActionView::Report(Ok(Outcome::Proved(output))),
    ensures
        output is BlockExecution,
        output->BlockExecution_0.block_id == id,
{
}

/// Decompression: a reported proof commits to an ordered block-height range.
pub proof fn lemma_proved_heights_ordered(mode: Mode, stage: Stage, event: EventView, output: PublicOutput)
    requires
        stage == Stage::Running(ComparisonValue::OrderedHeights),
        spec_step(mode, stage, event).1 == ActionView::Report(Ok(Outcome::Proved(output))),
    ensures
        output is Decompression,
        output->Decompression_0.first_block_height <= output->Decompression_0.last_block_height,
{
}

/// Backends are interchangeable: two runs that differ only in their backend
/// issue the same actions, and so the same reports, for the same events.
pub proof fn lemma_backend_interchangeable(a: Harness, b: Harness, events: Seq<EventView>)
    requires
        a.mode == b.mode,
        a.stage == b.stage,
    ensures
        spec_run(a.mode, a.stage, events) == spec_run(b.mode, b.stage, events),
{
}

/// The comparison value that a stage holds, if any.
pub open spec fn held_value(stage: Stage) -> Option<ComparisonValue> {
    match stage {
        Stage::WritingInput(cv) => Some(cv),
        Stage::BuildingEnvironment(cv) => Some(cv),
        Stage::Running(cv) => Some(cv),
        _ => None,
    }
}

/// Whether an action asks the backend for work.
pub open spec fn is_backend_action(a: ActionView) -> bool {
    a is WriteInput || a is BuildEnvironment || a is Execute || a is Prove
}

/// The comparison value is captured before the backend is asked for
/// anything, from the decoded input, and is never derived again afterwards.
pub proof fn lemma_comparison_value_precedes_backend(mode: Mode, stage: Stage, event: EventView)
    ensures
        ({
            let (next, action) = spec_step(mode, stage, event);
            &&& is_backend_action(action) ==> held_value(next) is Some
            &&& stage is AwaitingInput && held_value(next) is Some ==> event is InputDecoded
                && event->InputDecoded_0 is Ok
                && held_value(next) == Some(spec_comparison_value(event->InputDecoded_0->Ok_0))
            &&& held_value(stage) is Some && held_value(next) is Some ==> held_value(next) == held_value(stage)
        }),
{
}

/// Once a run is finished, every further event gets `Halt`.
pub proof fn lemma_finished_halts(mode: Mode, events: Seq<EventView>)
    ensures
        spec_run(mode, Stage::Finished, events) == Seq::new(events.len(), |i: int| ActionView::Halt),
    decreases events.len(),
{
    if events.len() > 0 {
        lemma_finished_halts(mode, events.drop_first());
    }
    assert(spec_run(mode, Stage::Finished, events) =~= Seq::new(events.len(), |i: int| ActionView::Halt));
}

/// A report is issued once: only by a run that has not finished, which it
/// then finishes (after which every event gets `Halt`).
pub proof fn lemma_report_ends_run(mode: Mode, stage: Stage, event: EventView)
    ensures
        spec_step(mode, stage, event).1 is Report ==> stage != Stage::Finished
            && spec_step(mode, stage, event).0 == Stage::Finished,
{
}

/// Error isolation: an input that does not decode ends the run with a
/// deserialization error, never a fault, before any backend action; nothing
/// is asked of the backend afterwards.
pub proof fn lemma_bad_input_is_isolated(mode: Mode, reason: Seq<char>, events: Seq<EventView>)
    ensures
        ({
            let all = seq![EventView::InputDecoded(Err(reason))] + events;
            spec_run(mode, Stage::AwaitingInput, all) == seq![
                ActionView::Report(Err(ErrorView::FailedToDeserializeInput(reason))),
            ] + Seq::new(events.len(), |i: int| ActionView::Halt)
        }),
{
    let all = seq![EventView::InputDecoded(Err(reason))] + events;
    assert(all.drop_first() =~= events);
    lemma_finished_halts(mode, events);
}

/// A trace-only run never reports a fault and never asks for a proof.
pub proof fn lemma_execute_never_faults(stage: Stage, event: EventView)
    ensures
        spec_step(Mode::Execute, stage, event).1 != ActionView::Prove,
        forall|f: Fault| spec_step(Mode::Execute, stage, event).1
            != ActionView::Report(Err::<Outcome, ErrorView>(ErrorView::Fault(f))),
{
}

/// Decodes a proof's public output as the game of `expected` and holds it to
/// that game's invariant. A broken invariant is reported as a `Fault`,
/// distinct from every decoding error.
pub fn validate_public_output(expected: &ComparisonValue, journal: &[u8]) -> (r: Result<PublicOutput, Error>)
    ensures
        result_view(r) == spec_validate_public_output(*expected, journal@),
{
    let game = match expected {
        ComparisonValue::BlockId(_) => Game::BlockExecution,
        ComparisonValue::OrderedHeights => Game::Decompression,
    };
    match decode_public_output(game, journal) {
        Err(e) => Err(e),
        Ok(output) => match check_invariant(expected, &output) {
            Err(f) => Err(Error::Fault(f)),
            Ok(()) => Ok(output),
        },
    }
}

/// A harness run: its mode, the backend that performs its actions, and its stage.
#[derive(Clone, Copy, Debug, PartialEq, Eq)]
pub struct Harness {
    pub mode: Mode,
    pub backend: Backend,
    pub stage: Stage,
}

impl Harness {
    /// A run that has not started: its first action is to decode the raw input.
    pub fn new(mode: Mode, backend: Backend) -> (h: Harness)
        ensures
            h.mode == mode,
            h.backend == backend,
            h.stage == Stage::AwaitingInput,
    {
        Harness { mode, backend, stage: Stage::AwaitingInput }
    }

    /// The action that the current stage waits for.
    pub fn next_action(&self) -> (a: Action)
        ensures
            a@ == pending_action(self.mode, self.stage),
    {
        match self.stage {
            Stage::AwaitingInput => Action::DecodeInput,
            Stage::WritingInput(_) => Action::WriteInput,
            Stage::BuildingEnvironment(_) => Action::BuildEnvironment,
            Stage::Running(_) => match self.mode {
                Mode::Execute => Action::Execute,
                Mode::Prove => Action::Prove,
            },
            Stage::Finished => Action::Halt,
        }
    }

    /// Takes in the result of the pending action and decides what comes next.
    pub fn step(&mut self, event: Event) -> (a: Action)
        ensures
            final(self).mode == old(self).mode,
            final(self).backend == old(self).backend,
            (final(self).stage, a@) == spec_step(old(self).mode, old(self).stage, event@),
    {
        let mode = self.mode;
        match self.stage {
            Stage::AwaitingInput => match event {
                Event::InputDecoded(Ok(input)) => {
                    self.stage = Stage::WritingInput(comparison_value(&input));
                    Action::WriteInput
                },
                Event::InputDecoded(Err(m)) => {
                    self.stage = Stage::Finished;
                    Action::Report(Err(Error::FailedToDeserializeInput(m)))
                },
                _ => Action::DecodeInput,
            },
            Stage::WritingInput(cv) => match event {
                Event::InputWritten(Ok(())) => {
                    self.stage = Stage::BuildingEnvironment(cv);
                    Action::BuildEnvironment
                },
                Event::InputWritten(Err(m)) => {
                    self.stage = Stage::Finished;
                    Action::Report(Err(Error::FailedToWriteInputToProverEnv(m)))
                },
                _ => Action::WriteInput,
            },
            Stage::BuildingEnvironment(cv) => match event {
                Event::EnvironmentBuilt(Ok(())) => {
                    self.stage = Stage::Running(cv);
                    match mode {
                        Mode::Execute => Action::Execute,
                        Mode::Prove => Action::Prove,
                    }
                },
                Event::EnvironmentBuilt(Err(m)) => {
                    self.stage = Stage::Finished;
                    Action::Report(Err(Error::FailedToBuildProverEnv(m)))
                },
                _ => Action::BuildEnvironment,
            },
            Stage::Running(cv) => match (mode, event) {
                (Mode::Execute, Event::Executed(r)) => {
                    self.stage = Stage::Finished;
                    Action::Report(
                        match r {
                            Ok(summary) => Ok(Outcome::Executed(summary)),
                            Err(m) => Err(Error::FailedToExecuteProvingGame(m)),
                        },
                    )
                },
                (Mode::Prove, Event::Proved(r)) => {
                    self.stage = Stage::Finished;
                    Action::Report(
                        match r {
                            Err(m) => Err(Error::FailedToProveProvingGame(m)),
                            Ok(journal) => match validate_public_output(&cv, journal.as_slice()) {
                                Err(e) => Err(e),
                                Ok(output) => Ok(Outcome::Proved(output)),
                            },
                        },
                    )
                },
                (Mode::Execute, _) => Action::Execute,
                (Mode::Prove, _) => Action::Prove,
            },
            Stage::Finished => Action::Halt,
        }
    }
}

} // verus!
