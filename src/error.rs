//! Errors of the harness, by kind.

use vstd::prelude::*;
use crate::game::Fault;

verus! {

/// Every way a harness run can fail. All but `Fault` carry the diagnostic
/// text of the stage that failed.
#[derive(Clone, Debug, PartialEq, Eq)]
pub enum Error {
    /// The raw input does not decode as the game's domain input.
    FailedToDeserializeInput(String),
    /// The backend rejected the staged input.
    FailedToWriteInputToProverEnv(String),
    /// The backend could not finalize its execution environment.
    FailedToBuildProverEnv(String),
    /// The public output does not match the game's fixed-width layout.
    FailedToDeserializePublicOutput(String),
    /// The backend failed during a trace-only run.
    FailedToExecuteProvingGame(String),
    /// The backend failed while generating the proof.
    FailedToProveProvingGame(String),
    /// Independent verification of a proof rejected it.
    FailedToVerifyProof(String),
    /// The decoded output breaks the game's invariant.
    Fault(Fault),
}

/// An `Error` with its text seen as a sequence of characters.
pub enum ErrorView {
    FailedToDeserializeInput(Seq<char>),
    FailedToWriteInputToProverEnv(Seq<char>),
    FailedToBuildProverEnv(Seq<char>),
    FailedToDeserializePublicOutput(Seq<char>),
    FailedToExecuteProvingGame(Seq<char>),
    FailedToProveProvingGame(Seq<char>),
    FailedToVerifyProof(Seq<char>),
    Fault(Fault),
}

impl View for Error {
    type V = ErrorView;

    open spec fn view(&self) -> ErrorView {
        match self {
            Error::FailedToDeserializeInput(s) => ErrorView::FailedToDeserializeInput(s@),
            Error::FailedToWriteInputToProverEnv(s) => ErrorView::FailedToWriteInputToProverEnv(s@),
            Error::FailedToBuildProverEnv(s) => ErrorView::FailedToBuildProverEnv(s@),
            Error::FailedToDeserializePublicOutput(s) => ErrorView::FailedToDeserializePublicOutput(s@),
            Error::FailedToExecuteProvingGame(s) => ErrorView::FailedToExecuteProvingGame(s@),
            Error::FailedToProveProvingGame(s) => ErrorView::FailedToProveProvingGame(s@),
            Error::FailedToVerifyProof(s) => ErrorView::FailedToVerifyProof(s@),
            Error::Fault(f) => ErrorView::Fault(*f),
        }
    }
}

/// A result with its error seen through `ErrorView`.
pub open spec fn result_view<T>(r: Result<T, Error>) -> Result<T, ErrorView> {
    match r {
        Ok(v) => Ok(v),
        Err(e) => Err(e@),
    }
}

} // verus!
