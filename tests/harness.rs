use proving_games::error::Error;
use proving_games::game::{DomainInput, Fault};
use proving_games::harness::{
    Action, Backend, Event, ExecutionSummary, Harness, Mode, Outcome, ProofSystem, Stage,
};
use proving_games::output::{
    encode_public_output, BlockExecutionOutput, DecompressionOutput, PublicOutput,
};

fn stage_input(h: &mut Harness, input: DomainInput) {
    assert_eq!(h.next_action(), Action::DecodeInput);
    assert_eq!(h.step(Event::InputDecoded(Ok(input))), Action::WriteInput);
    assert_eq!(h.step(Event::InputWritten(Ok(()))), Action::BuildEnvironment);
}

#[test]
fn block_execution_prove_reports_matching_block_id() {
    let id = [0x42; 32];
    let mut h = Harness::new(Mode::Prove, Backend::Risc0);
    stage_input(&mut h, DomainInput::BlockExecution { block_id: id });
    assert_eq!(h.step(Event::EnvironmentBuilt(Ok(()))), Action::Prove);
    let output = PublicOutput::BlockExecution(BlockExecutionOutput { input_hash: [7; 32], block_id: id });
    let journal = encode_public_output(&output);
    assert_eq!(h.step(Event::Proved(Ok(journal))), Action::Report(Ok(Outcome::Proved(output))));
    assert_eq!(h.stage, Stage::Finished);
}

#[test]
fn decompression_execute_reports_summary_without_checking_output() {
    let mut h = Harness::new(Mode::Execute, Backend::Sp1(ProofSystem::Core));
    stage_input(&mut h, DomainInput::Decompression);
    assert_eq!(h.step(Event::EnvironmentBuilt(Ok(()))), Action::Execute);
    // A proof result does not answer a trace-only run.
    assert_eq!(h.step(Event::Proved(Ok(vec![0u8; 3]))), Action::Execute);
    let summary = ExecutionSummary { instruction_count: 1_250_000, memory_address_count: 4096, syscall_count: 12 };
    let a = h.step(Event::Executed(Ok(summary)));
    assert_eq!(a, Action::Report(Ok(Outcome::Executed(summary))));
    match a {
        Action::Report(Ok(Outcome::Executed(s))) => assert!(s.instruction_count > 0),
        other => panic!("unexpected {other:?}"),
    }
}

#[test]
fn reversed_heights_in_proof_fault() {
    let mut h = Harness::new(Mode::Prove, Backend::Sp1(ProofSystem::Groth16));
    stage_input(&mut h, DomainInput::Decompression);
    assert_eq!(h.step(Event::EnvironmentBuilt(Ok(()))), Action::Prove);
    let output = PublicOutput::Decompression(DecompressionOutput {
        input_hash: [1; 32],
        first_block_height: 100,
        last_block_height: 50,
    });
    let a = h.step(Event::Proved(Ok(encode_public_output(&output))));
    assert_eq!(a, Action::Report(Err(Error::Fault(Fault::HeightsOutOfOrder { first: 100, last: 50 }))));
}

#[test]
fn garbage_input_fails_before_any_backend_call() {
    let garbage = "io error: unexpected end of file (8 bytes)".to_string();
    let mut h = Harness::new(Mode::Prove, Backend::Risc0);
    let a = h.step(Event::InputDecoded(Err(garbage.clone())));
    assert_eq!(a, Action::Report(Err(Error::FailedToDeserializeInput(garbage))));
    assert_eq!(h.stage, Stage::Finished);
    assert_eq!(h.step(Event::InputWritten(Ok(()))), Action::Halt);
    assert_eq!(h.step(Event::Proved(Ok(vec![]))), Action::Halt);
    assert_eq!(h.next_action(), Action::Halt);
}

#[test]
fn backend_failures_keep_their_kind() {
    let mut h = Harness::new(Mode::Prove, Backend::Risc0);
    h.step(Event::InputDecoded(Ok(DomainInput::Decompression)));
    assert_eq!(
        h.step(Event::InputWritten(Err("framing".to_string()))),
        Action::Report(Err(Error::FailedToWriteInputToProverEnv("framing".to_string())))
    );

    let mut h = Harness::new(Mode::Prove, Backend::Risc0);
    stage_input(&mut h, DomainInput::Decompression);
    assert_eq!(
        h.step(Event::EnvironmentBuilt(Err("no segment limit".to_string()))),
        Action::Report(Err(Error::FailedToBuildProverEnv("no segment limit".to_string())))
    );

    let mut h = Harness::new(Mode::Execute, Backend::Risc0);
    stage_input(&mut h, DomainInput::Decompression);
    h.step(Event::EnvironmentBuilt(Ok(())));
    assert_eq!(
        h.step(Event::Executed(Err("trap".to_string()))),
        Action::Report(Err(Error::FailedToExecuteProvingGame("trap".to_string())))
    );

    let mut h = Harness::new(Mode::Prove, Backend::Sp1(ProofSystem::Plonk));
    stage_input(&mut h, DomainInput::Decompression);
    h.step(Event::EnvironmentBuilt(Ok(())));
    assert_eq!(
        h.step(Event::Proved(Err("out of memory".to_string()))),
        Action::Report(Err(Error::FailedToProveProvingGame("out of memory".to_string())))
    );
}

#[test]
fn unexpected_event_repeats_pending_action() {
    let mut h = Harness::new(Mode::Prove, Backend::Risc0);
    assert_eq!(h.step(Event::EnvironmentBuilt(Ok(()))), Action::DecodeInput);
    assert_eq!(h.stage, Stage::AwaitingInput);
    h.step(Event::InputDecoded(Ok(DomainInput::Decompression)));
    assert_eq!(h.step(Event::Executed(Err("x".to_string()))), Action::WriteInput);
}

fn run(mut h: Harness, id: [u8; 32], committed: [u8; 32]) -> Vec<Action> {
    let journal = encode_public_output(&PublicOutput::BlockExecution(BlockExecutionOutput {
        input_hash: [0; 32],
        block_id: committed,
    }));
    vec![
        h.step(Event::InputDecoded(Ok(DomainInput::BlockExecution { block_id: id }))),
        h.step(Event::InputWritten(Ok(()))),
        h.step(Event::EnvironmentBuilt(Ok(()))),
        h.step(Event::Proved(Ok(journal))),
    ]
}

#[test]
fn both_backends_agree_on_the_same_journal() {
    let id = [9; 32];
    let a = run(Harness::new(Mode::Prove, Backend::Risc0), id, id);
    let b = run(Harness::new(Mode::Prove, Backend::Sp1(ProofSystem::Core)), id, id);
    assert_eq!(a, b);
    let mut other = id;
    other[0] = 0;
    let a = run(Harness::new(Mode::Prove, Backend::Risc0), id, other);
    let b = run(Harness::new(Mode::Prove, Backend::Sp1(ProofSystem::Plonk)), id, other);
    assert_eq!(a, b);
    assert_eq!(
        a[3],
        Action::Report(Err(Error::Fault(Fault::BlockIdMismatch { expected: id, actual: other })))
    );
}

#[test]
fn comparison_value_is_held_from_decode_to_report() {
    let id = [0x10; 32];
    let mut h = Harness::new(Mode::Prove, Backend::Risc0);
    h.step(Event::InputDecoded(Ok(DomainInput::BlockExecution { block_id: id })));
    let held = proving_games::game::ComparisonValue::BlockId(id);
    assert_eq!(h.stage, Stage::WritingInput(held));
    h.step(Event::InputWritten(Ok(())));
    assert_eq!(h.stage, Stage::BuildingEnvironment(held));
    h.step(Event::EnvironmentBuilt(Ok(())));
    assert_eq!(h.stage, Stage::Running(held));
}
