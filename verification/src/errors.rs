//! The error taxonomy of an evaluation run.

use vstd::prelude::*;
use crate::types::{TransactionOutput, TransactionOutputView, VMStatus};

verus! {

/// Everything that can go wrong while a command is evaluated.
///
/// The first five kinds are expected test outcomes: they are recorded in
/// the log and the run goes on. `InternalInvariantViolation` means the
/// harness itself is broken and aborts the run.
#[derive(Debug, PartialEq, Eq)]
pub enum Error {
    /// The source text did not compile.
    CompileError(String),
    /// Bytecode or dependency verification refused the unit.
    VerificationError(VMStatus),
    /// The transaction was dropped by the virtual machine.
    DiscardedTransaction(TransactionOutput),
    /// The transaction was kept but did not run to completion.
    ExecutionFailure(VMStatus, TransactionOutput),
    /// A unit came back from serialization different from what went in.
    SerializationMismatch,
    /// A condition the harness relies on did not hold.
    InternalInvariantViolation(String),
    /// Any other failure, by its message.
    Other(String),
}

/// Mathematical value of an [`Error`].
pub enum ErrorView {
    CompileError(Seq<char>),
    VerificationError(VMStatus),
    DiscardedTransaction(TransactionOutputView),
    ExecutionFailure(VMStatus, TransactionOutputView),
    SerializationMismatch,
    InternalInvariantViolation(Seq<char>),
    Other(Seq<char>),
}

impl View for Error {
    type V = ErrorView;

    open spec fn view(&self) -> ErrorView {
        match self {
            Error::CompileError(m) => ErrorView::CompileError(m@),
            Error::VerificationError(s) => ErrorView::VerificationError(*s),
            Error::DiscardedTransaction(o) => ErrorView::DiscardedTransaction(o@),
            Error::ExecutionFailure(s, o) => ErrorView::ExecutionFailure(*s, o@),
            Error::SerializationMismatch => ErrorView::SerializationMismatch,
            Error::InternalInvariantViolation(m) => ErrorView::InternalInvariantViolation(m@),
            Error::Other(m) => ErrorView::Other(m@),
        }
    }
}

impl DeepView for Error {
    type V = ErrorView;

    open spec fn deep_view(&self) -> ErrorView {
        self@
    }
}

} // verus!
