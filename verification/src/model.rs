//! The mathematical model of an evaluation run.
//!
//! What the log of a run holds is a function of the commands and of what
//! the collaborators answered along the way. An [`Observation`] records
//! those answers for one transaction; the functions below say which log
//! entries and which status follow from them.

use vstd::prelude::*;
use crate::bytecode::ScriptOrModuleView;
use crate::config::{stage_runs, Command, GlobalConfig, Transaction};
use crate::errors::ErrorView;
use crate::log::{EvaluationOutputView, OutputTypeView};
use crate::precompiled::precompiled_script;
use crate::stage::{Stage, Status};
use crate::types::{KeptVMStatus, TransactionId, TransactionOutputView, TransactionStatus, VMStatus};

verus! {

/// What the collaborators answered while one transaction went through the
/// pipeline. An answer of a stage that was never reached is not looked at.
pub struct Observation {
    /// The lines the compiler logged.
    pub compiler_log: Seq<Seq<char>>,
    /// The unit that the registry or the compiler gave, or the compile error.
    pub compiled: Result<ScriptOrModuleView, ErrorView>,
    /// The verdict of the verifier.
    pub verified: Result<(), VMStatus>,
    /// The verdict of the serializer round trip.
    pub round_trip: Result<(), ErrorView>,
    /// The classified outcome of the execution.
    pub executed: Result<TransactionOutputView, ErrorView>,
}

/// The log entries for the lines a compiler logged, in order.
pub open spec fn compiler_lines(lines: Seq<Seq<char>>) -> Seq<EvaluationOutputView> {
    Seq::new(
        lines.len(),
        |i: int| EvaluationOutputView::Output(OutputTypeView::CompilerLog(lines[i])),
    )
}

/// The log entry that shows a compiled unit.
pub open spec fn artifact(unit: ScriptOrModuleView) -> EvaluationOutputView {
    match unit {
        ScriptOrModuleView::Script(s) => EvaluationOutputView::Output(
            OutputTypeView::CompiledScript(s),
        ),
        ScriptOrModuleView::Module(m) => EvaluationOutputView::Output(
            OutputTypeView::CompiledModule(m),
        ),
    }
}

/// What the compiler stage writes after its marker: the lines the compiler
/// logged, then the compiled unit or the error.
pub open spec fn compiler_outputs(
    lines: Seq<Seq<char>>,
    compiled: Result<ScriptOrModuleView, ErrorView>,
) -> Seq<EvaluationOutputView> {
    compiler_lines(lines) + match compiled {
        Ok(unit) => seq![artifact(unit)],
        Err(e) => seq![EvaluationOutputView::Error(e)],
    }
}

/// What the verifier stage writes after its marker: nothing when the unit
/// passes, a verification error with the status otherwise.
pub open spec fn verifier_outputs(verdict: Result<(), VMStatus>) -> Seq<EvaluationOutputView> {
    match verdict {
        Ok(_) => Seq::empty(),
        Err(status) => seq![EvaluationOutputView::Error(ErrorView::VerificationError(status))],
    }
}

/// What the serializer stage writes after its marker: nothing when the
/// round trip passes, the error otherwise.
pub open spec fn serializer_outputs(verdict: Result<(), ErrorView>) -> Seq<EvaluationOutputView> {
    match verdict {
        Ok(_) => Seq::empty(),
        Err(e) => seq![EvaluationOutputView::Error(e)],
    }
}

/// What the runtime stage writes after its marker: the output of the
/// transaction, or the error.
pub open spec fn runtime_outputs(executed: Result<TransactionOutputView, ErrorView>) -> Seq<
    EvaluationOutputView,
> {
    match executed {
        Ok(output) => seq![
            EvaluationOutputView::Output(OutputTypeView::TransactionOutput(output)),
        ],
        Err(e) => seq![EvaluationOutputView::Error(e)],
    }
}

impl Observation {
    /// Whether `stage` failed, had it been reached.
    pub open spec fn stage_failed(self, stage: Stage) -> bool {
        match stage {
            Stage::Compiler => self.compiled is Err,
            Stage::Verifier => self.verified is Err,
            Stage::Serializer => self.round_trip is Err,
            Stage::Runtime => self.executed is Err,
        }
    }

    /// Whether the pipeline reaches `stage` under the skip set `disabled`:
    /// the stage is planned, and no stage that ran before it failed.
    pub open spec fn reaches(self, disabled: Set<Stage>, stage: Stage) -> bool {
        &&& stage_runs(disabled, stage)
        &&& match stage {
            Stage::Compiler => true,
            Stage::Verifier => self.compiled is Ok,
            Stage::Serializer => self.compiled is Ok && self.verified is Ok,
            Stage::Runtime => self.compiled is Ok && self.verified is Ok && (stage_runs(
                disabled,
                Stage::Serializer,
            ) ==> self.round_trip is Ok),
        }
    }

    /// Whether the pipeline ends in a failure of `stage`.
    pub open spec fn fails_at(self, disabled: Set<Stage>, stage: Stage) -> bool {
        self.reaches(disabled, stage) && self.stage_failed(stage)
    }

    /// The stage that the pipeline fails at, if it fails.
    pub open spec fn failing_stage(self, disabled: Set<Stage>) -> Option<Stage> {
        if self.fails_at(disabled, Stage::Compiler) {
            Some(Stage::Compiler)
        } else if self.fails_at(disabled, Stage::Verifier) {
            Some(Stage::Verifier)
        } else if self.fails_at(disabled, Stage::Serializer) {
            Some(Stage::Serializer)
        } else if self.fails_at(disabled, Stage::Runtime) {
            Some(Stage::Runtime)
        } else {
            None
        }
    }

    /// What `stage` writes after its marker: its outputs, or its error.
    pub open spec fn stage_outputs(self, stage: Stage) -> Seq<EvaluationOutputView> {
        match stage {
            Stage::Compiler => compiler_outputs(self.compiler_log, self.compiled),
            Stage::Verifier => verifier_outputs(self.verified),
            Stage::Serializer => serializer_outputs(self.round_trip),
            Stage::Runtime => runtime_outputs(self.executed),
        }
    }

    /// The log entries of `stage`: nothing when the stage is not reached,
    /// else its marker followed by what it writes.
    pub open spec fn stage_entries(self, disabled: Set<Stage>, stage: Stage) -> Seq<
        EvaluationOutputView,
    > {
        if self.reaches(disabled, stage) {
            seq![EvaluationOutputView::Stage(stage)] + self.stage_outputs(stage)
        } else {
            Seq::empty()
        }
    }

    /// Whether the recorded execution outcome is one that classification
    /// can give: a success is kept and fully executed, a failure is either
    /// kept and not fully executed or discarded with an empty write set.
    pub open spec fn execution_classified(self) -> bool {
        match self.executed {
            Ok(output) => output.status == TransactionStatus::Keep(KeptVMStatus::Executed),
            Err(ErrorView::ExecutionFailure(_, output)) => output.status is Keep && output.status
                != TransactionStatus::Keep(KeptVMStatus::Executed),
            Err(ErrorView::DiscardedTransaction(output)) => output.status is Discard
                && output.write_set.len() == 0,
            Err(_) => false,
        }
    }
}

/// The log entries of one transaction command, without its final status:
/// the `Transaction` marker, then the entries of each stage in pipeline
/// order.
pub open spec fn transaction_entries(
    idx: TransactionId,
    disabled: Set<Stage>,
    obs: Observation,
) -> Seq<EvaluationOutputView> {
    seq![EvaluationOutputView::Transaction(idx)] + obs.stage_entries(disabled, Stage::Compiler)
        + obs.stage_entries(disabled, Stage::Verifier) + obs.stage_entries(
        disabled,
        Stage::Serializer,
    ) + obs.stage_entries(disabled, Stage::Runtime)
}

/// The status of one transaction command: a failure exactly when some
/// stage that was reached failed.
pub open spec fn transaction_status(disabled: Set<Stage>, obs: Observation) -> Status {
    if obs.fails_at(disabled, Stage::Compiler) || obs.fails_at(disabled, Stage::Verifier)
        || obs.fails_at(disabled, Stage::Serializer) || obs.fails_at(disabled, Stage::Runtime) {
        Status::Failure
    } else {
        Status::Success
    }
}

/// Whether `obs` can be what the collaborators answered for `transaction`.
///
/// An input that names a precompiled script is not compiled: when the
/// compiler stage runs, the unit is the registered script and the compiler
/// logs nothing. An execution outcome that was recorded is always a
/// classified one.
pub open spec fn observation_fits(
    config: GlobalConfig,
    transaction: Transaction,
    obs: Observation,
) -> bool {
    &&& obs.reaches(transaction.config.disabled(), Stage::Runtime) ==> obs.execution_classified()
    &&& obs.reaches(transaction.config.disabled(), Stage::Compiler) ==> (precompiled_script(
        config.precompiled_scripts@,
        transaction.input@,
    ) matches Some(script) ==> obs.compiled == Ok::<ScriptOrModuleView, ErrorView>(
        ScriptOrModuleView::Script(script),
    ) && obs.compiler_log.len() == 0)
}

/// The log entry of a block-metadata command, without its final status:
/// the output when the block was kept, the error otherwise.
pub open spec fn block_entries(outcome: Result<TransactionOutputView, ErrorView>) -> Seq<
    EvaluationOutputView,
> {
    match outcome {
        Ok(output) => seq![
            EvaluationOutputView::Output(OutputTypeView::TransactionOutput(output)),
        ],
        Err(e) => seq![EvaluationOutputView::Error(e)],
    }
}

/// The status of a block-metadata command.
pub open spec fn block_status(outcome: Result<TransactionOutputView, ErrorView>) -> Status {
    match outcome {
        Ok(_) => Status::Success,
        Err(_) => Status::Failure,
    }
}

/// Whether `outcome` is one that classifying a block-metadata execution
/// can give: a kept output, a verification error for a discarded block, or
/// the message of an error of the environment.
pub open spec fn block_classified(outcome: Result<TransactionOutputView, ErrorView>) -> bool {
    match outcome {
        Ok(output) => output.status is Keep,
        Err(ErrorView::VerificationError(status)) => status is Error,
        Err(ErrorView::Other(_)) => true,
        Err(_) => false,
    }
}

/// What the collaborators answered for one command. Only the part for the
/// kind of the command is looked at.
pub struct CommandObservation {
    /// The answers for a transaction command.
    pub transaction: Observation,
    /// The classified outcome of a block-metadata command.
    pub block: Result<TransactionOutputView, ErrorView>,
}

/// The log entries of the command at position `idx`, without its final
/// status.
pub open spec fn command_entries(idx: TransactionId, command: Command, obs: CommandObservation) -> Seq<
    EvaluationOutputView,
> {
    match command {
        Command::Transaction(transaction) => transaction_entries(
            idx,
            transaction.config.disabled(),
            obs.transaction,
        ),
        Command::BlockMetadata(_) => block_entries(obs.block),
    }
}

/// The final status of a command.
pub open spec fn command_status(command: Command, obs: CommandObservation) -> Status {
    match command {
        Command::Transaction(transaction) => transaction_status(
            transaction.config.disabled(),
            obs.transaction,
        ),
        Command::BlockMetadata(_) => block_status(obs.block),
    }
}

/// Whether `obs` can be what the collaborators answered for `command`.
pub open spec fn command_observation_fits(
    config: GlobalConfig,
    command: Command,
    obs: CommandObservation,
) -> bool {
    match command {
        Command::Transaction(transaction) => observation_fits(config, transaction, obs.transaction),
        Command::BlockMetadata(_) => block_classified(obs.block),
    }
}

/// The log after the first `n` commands: for each command in order, its
/// entries followed by its status.
pub open spec fn run_entries(commands: Seq<Command>, trace: Seq<CommandObservation>, n: int) -> Seq<
    EvaluationOutputView,
>
    decreases n,
{
    if n <= 0 {
        Seq::empty()
    } else {
        run_entries(commands, trace, n - 1) + command_entries(
            (n - 1) as usize,
            commands[n - 1],
            trace[n - 1],
        ).push(EvaluationOutputView::Status(command_status(commands[n - 1], trace[n - 1])))
    }
}

/// Whether `trace` can be what the collaborators answered over a run of
/// `commands`: one fitting observation per command.
pub open spec fn trace_fits(
    config: GlobalConfig,
    commands: Seq<Command>,
    trace: Seq<CommandObservation>,
) -> bool {
    &&& trace.len() == commands.len()
    &&& forall|i: int|
        0 <= i < commands.len() ==> #[trigger] command_observation_fits(
            config,
            commands[i],
            trace[i],
        )
}

} // verus!
