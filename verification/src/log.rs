//! The evaluation log: an append-only, ordered record of stage markers,
//! outputs, errors and statuses.

use vstd::prelude::*;
use crate::bytecode::{CompiledModule, CompiledScript, CompiledUnitView};
use crate::errors::{Error, ErrorView};
use crate::stage::{Stage, Status};
use crate::types::{TransactionId, TransactionOutput, TransactionOutputView};

verus! {

/// An artifact or result that a stage produced.
#[derive(Debug, PartialEq)]
pub enum OutputType {
    CompiledModule(Box<CompiledModule>),
    CompiledScript(Box<CompiledScript>),
    CompilerLog(String),
    TransactionOutput(Box<TransactionOutput>),
}

/// Mathematical value of an [`OutputType`].
pub enum OutputTypeView {
    CompiledModule(CompiledUnitView),
    CompiledScript(CompiledUnitView),
    CompilerLog(Seq<char>),
    TransactionOutput(TransactionOutputView),
}

impl View for OutputType {
    type V = OutputTypeView;

    open spec fn view(&self) -> OutputTypeView {
        match self {
            OutputType::CompiledModule(m) => OutputTypeView::CompiledModule(m@),
            OutputType::CompiledScript(s) => OutputTypeView::CompiledScript(s@),
            OutputType::CompilerLog(s) => OutputTypeView::CompilerLog(s@),
            OutputType::TransactionOutput(o) => OutputTypeView::TransactionOutput(o@),
        }
    }
}

/// An entry in the [`EvaluationLog`].
#[derive(Debug, PartialEq)]
pub enum EvaluationOutput {
    /// Start of the command with the given index.
    Transaction(TransactionId),
    /// Start of a stage.
    Stage(Stage),
    /// Something a stage produced.
    Output(OutputType),
    /// The error that ended a command.
    Error(Box<Error>),
    /// The final status of a command.
    Status(Status),
}

/// Mathematical value of an [`EvaluationOutput`].
pub enum EvaluationOutputView {
    Transaction(TransactionId),
    Stage(Stage),
    Output(OutputTypeView),
    Error(ErrorView),
    Status(Status),
}

impl View for EvaluationOutput {
    type V = EvaluationOutputView;

    open spec fn view(&self) -> EvaluationOutputView {
        match self {
            EvaluationOutput::Transaction(idx) => EvaluationOutputView::Transaction(*idx),
            EvaluationOutput::Stage(stage) => EvaluationOutputView::Stage(*stage),
            EvaluationOutput::Output(output) => EvaluationOutputView::Output(output@),
            EvaluationOutput::Error(error) => EvaluationOutputView::Error(error@),
            EvaluationOutput::Status(status) => EvaluationOutputView::Status(*status),
        }
    }
}

impl DeepView for EvaluationOutput {
    type V = EvaluationOutputView;

    open spec fn deep_view(&self) -> EvaluationOutputView {
        self@
    }
}

impl EvaluationOutput {
    /// Whether the entry records an error.
    pub fn is_error(&self) -> (r: bool)
        ensures
            r == (self@ is Error),
    {
        match self {
            EvaluationOutput::Error(_) => true,
            _ => false,
        }
    }
}

/// The index carried by the latest `Transaction` marker among the first
/// `end` entries, if there is one.
pub open spec fn last_transaction(entries: Seq<EvaluationOutputView>, end: int) -> Option<
    TransactionId,
>
    decreases end,
{
    if end <= 0 {
        None
    } else {
        match entries[end - 1] {
            EvaluationOutputView::Transaction(idx) => Some(idx),
            _ => last_transaction(entries, end - 1),
        }
    }
}

/// The stage carried by the latest `Stage` marker among the first `end`
/// entries, if there is one.
pub open spec fn last_stage(entries: Seq<EvaluationOutputView>, end: int) -> Option<Stage>
    decreases end,
{
    if end <= 0 {
        None
    } else {
        match entries[end - 1] {
            EvaluationOutputView::Stage(stage) => Some(stage),
            _ => last_stage(entries, end - 1),
        }
    }
}

/// Whether entry `at` is a `Failure` status.
pub open spec fn is_failure_at(entries: Seq<EvaluationOutputView>, at: int) -> bool {
    0 <= at < entries.len() && entries[at] == EvaluationOutputView::Status(Status::Failure)
}

/// Every `Failure` status is preceded by at least one `Transaction` marker
/// and one `Stage` marker.
pub open spec fn failures_marked(entries: Seq<EvaluationOutputView>) -> bool {
    forall|at: int| #[trigger]
        is_failure_at(entries, at) ==> last_transaction(entries, at) is Some && last_stage(
            entries,
            at,
        ) is Some
}

/// The pair that the `Failure` status at position `at` is reported as: the
/// latest transaction index and the latest stage before it.
pub open spec fn failure_pair(entries: Seq<EvaluationOutputView>, at: int) -> (TransactionId, Stage) {
    (last_transaction(entries, at)->0, last_stage(entries, at)->0)
}

/// The failures among the first `end` entries, in log order.
pub open spec fn failed_before(entries: Seq<EvaluationOutputView>, end: int) -> Seq<
    (TransactionId, Stage),
>
    decreases end,
{
    if end <= 0 {
        Seq::empty()
    } else if is_failure_at(entries, end - 1) {
        failed_before(entries, end - 1).push(failure_pair(entries, end - 1))
    } else {
        failed_before(entries, end - 1)
    }
}

/// The failures of a whole log, in log order.
pub open spec fn failed_transactions(entries: Seq<EvaluationOutputView>) -> Seq<
    (TransactionId, Stage),
> {
    failed_before(entries, entries.len() as int)
}

/// The statuses among the first `end` entries, in log order.
pub open spec fn statuses_before(entries: Seq<EvaluationOutputView>, end: int) -> Seq<Status>
    decreases end,
{
    if end <= 0 {
        Seq::empty()
    } else {
        match entries[end - 1] {
            EvaluationOutputView::Status(status) => statuses_before(entries, end - 1).push(status),
            _ => statuses_before(entries, end - 1),
        }
    }
}

/// The statuses of a whole log, in log order.
pub open spec fn statuses(entries: Seq<EvaluationOutputView>) -> Seq<Status> {
    statuses_before(entries, entries.len() as int)
}

/// A log consisting of outputs from all stages and the final statuses.
#[derive(Debug, PartialEq)]
pub struct EvaluationLog {
    pub outputs: Vec<EvaluationOutput>,
}

impl View for EvaluationLog {
    type V = Seq<EvaluationOutputView>;

    open spec fn view(&self) -> Seq<EvaluationOutputView> {
        self.outputs.deep_view()
    }
}

impl Default for EvaluationLog {
    fn default() -> (r: Self)
        ensures
            r@ == Seq::<EvaluationOutputView>::empty(),
    {
        EvaluationLog::new()
    }
}

impl EvaluationLog {
    /// An empty log.
    pub fn new() -> (r: Self)
        ensures
            r@ == Seq::<EvaluationOutputView>::empty(),
    {
        let r = EvaluationLog { outputs: Vec::new() };
        assert(r@ =~= Seq::<EvaluationOutputView>::empty());
        r
    }

    /// Adds one entry at the end of the log. No earlier entry changes.
    pub fn append(&mut self, output: EvaluationOutput)
        ensures
            final(self)@ == old(self)@.push(output@),
    {
        self.outputs.push(output);
        assert(self@ =~= old(self)@.push(output@));
    }

    /// Whether every `Failure` status of the log has a `Transaction` marker
    /// and a `Stage` marker somewhere before it.
    pub fn failures_are_marked(&self) -> (r: bool)
        ensures
            r == failures_marked(self@),
    {
        let mut seen_transaction = false;
        let mut seen_stage = false;
        let mut i: usize = 0;
        while i < self.outputs.len()
            invariant
                i <= self.outputs.len(),
                self@.len() == self.outputs.len(),
                seen_transaction == (last_transaction(self@, i as int) is Some),
                seen_stage == (last_stage(self@, i as int) is Some),
                forall|at: int|
                    at < i && #[trigger] is_failure_at(self@, at) ==> last_transaction(
                        self@,
                        at,
                    ) is Some && last_stage(self@, at) is Some,
            decreases self.outputs.len() - i,
        {
            assert(self@[i as int] == self.outputs@[i as int]@);
            match &self.outputs[i] {
                EvaluationOutput::Transaction(_) => {
                    seen_transaction = true;
                },
                EvaluationOutput::Stage(_) => {
                    seen_stage = true;
                },
                EvaluationOutput::Status(Status::Failure) => {
                    if !seen_transaction || !seen_stage {
                        assert(is_failure_at(self@, i as int));
                        return false;
                    }
                },
                _ => {},
            }
            i += 1;
        }
        true
    }

    /// The failed commands of the log, in log order: for every `Failure`
    /// status, the index of the latest `Transaction` marker and the stage of
    /// the latest `Stage` marker before it.
    pub fn get_failed_transactions(&self) -> (res: Vec<(TransactionId, Stage)>)
        requires
            failures_marked(self@),
        ensures
            res@ == failed_transactions(self@),
    {
        let mut res: Vec<(TransactionId, Stage)> = Vec::new();
        let mut last_txn: Option<TransactionId> = None;
        let mut last_stg: Option<Stage> = None;
        let mut i: usize = 0;
        while i < self.outputs.len()
            invariant
                i <= self.outputs.len(),
                self@.len() == self.outputs.len(),
                failures_marked(self@),
                last_txn == last_transaction(self@, i as int),
                last_stg == last_stage(self@, i as int),
                res@ == failed_before(self@, i as int),
            decreases self.outputs.len() - i,
        {
            assert(self@[i as int] == self.outputs@[i as int]@);
            match &self.outputs[i] {
                EvaluationOutput::Transaction(idx) => {
                    last_txn = Some(*idx);
                },
                EvaluationOutput::Stage(stage) => {
                    last_stg = Some(*stage);
                },
                EvaluationOutput::Status(Status::Failure) => {
                    assert(is_failure_at(self@, i as int));
                    match (last_txn, last_stg) {
                        (Some(idx), Some(stage)) => {
                            res.push((idx, stage));
                        },
                        _ => {},
                    }
                },
                _ => {},
            }
            i += 1;
        }
        res
    }
}

} // verus!
