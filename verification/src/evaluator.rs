//! The evaluation of one transaction command: the four stages in order,
//! each recorded in the log.

use vstd::prelude::*;
use crate::bytecode::{CompiledModule, CompiledUnitView, ScriptOrModule, ScriptOrModuleView};
use crate::capability::{
    BytecodeSerializer,
    BytecodeVerifier,
    Compiler,
    Executor,
    TransactionSigner,
};
use crate::config::{stage_runs, GlobalConfig, Transaction, TransactionConfig};
use crate::errors::{Error, ErrorView};
use crate::log::{EvaluationLog, EvaluationOutput, EvaluationOutputView, OutputType};
use crate::model::{
    artifact,
    compiler_lines,
    compiler_outputs,
    observation_fits,
    runtime_outputs,
    serializer_outputs,
    transaction_entries,
    transaction_status,
    verifier_outputs,
    Observation,
};
use crate::params::{
    make_module_transaction,
    make_script_transaction,
    module_transaction_made,
    script_transaction_made,
};
use crate::pipeline::{
    applied_through,
    is_classified,
    module_round_trip,
    module_verification,
    outcome_view,
    run_and_show,
    run_outcome,
    script_round_trip,
    script_verification,
    serialize_and_deserialize_module,
    serialize_and_deserialize_script,
    verify_module,
    verify_script,
    write_set_to_apply,
};
use crate::precompiled::{is_precompiled_script, precompiled_script};
use crate::resolver::{dependencies_fetched, fetch_module_dependencies, fetch_script_dependencies};
use crate::stage::{Stage, Status};
use crate::transaction::SignedUserTransaction;
use crate::types::{
    AccountAddress,
    TransactionId,
    TransactionOutput,
    TransactionOutputView,
    VMStatus,
    WriteSet,
};

verus! {

/// Whether the log grew from `before` to `after` by exactly what one
/// transaction command writes, given what the collaborators answered
/// (`obs`), and whether `status` is the status that follows from it.
pub open spec fn transaction_recorded(
    before: Seq<EvaluationOutputView>,
    after: Seq<EvaluationOutputView>,
    idx: TransactionId,
    transaction: Transaction,
    config: GlobalConfig,
    obs: Observation,
    status: Status,
) -> bool {
    let disabled = transaction.config.disabled();
    &&& after == before + transaction_entries(idx, disabled, obs)
    &&& status == transaction_status(disabled, obs)
    &&& observation_fits(config, transaction, obs)
}

/// The mathematical value of what a compiler answers.
pub open spec fn compiled_view(compiled: Result<ScriptOrModule, Error>) -> Result<
    ScriptOrModuleView,
    ErrorView,
> {
    match compiled {
        Ok(unit) => Ok(unit@),
        Err(e) => Err(e@),
    }
}

/// The mathematical value of a verdict of the serializer round trip.
pub open spec fn verdict_view(verdict: Result<(), Error>) -> Result<(), ErrorView> {
    match verdict {
        Ok(_) => Ok(()),
        Err(e) => Err(e@),
    }
}

/// The mathematical value of the classified outcome of an execution that
/// was not fatal.
pub open spec fn executed_view(ran: Result<Result<TransactionOutput, Error>, Error>) -> Result<
    TransactionOutputView,
    ErrorView,
> {
    match ran {
        Ok(Ok(output)) => Ok(output@),
        Ok(Err(e)) => Err(e@),
        Err(e) => Err(e@),
    }
}

/// What the collaborators answered while one transaction went through the
/// pipeline, by value. An answer of a stage that was never reached is not
/// looked at.
pub struct Answers {
    /// The lines the compiler logged.
    pub lines: Vec<String>,
    /// The unit that the registry or the compiler gave, or the compile error.
    pub compiled: Result<ScriptOrModule, Error>,
    /// The dependencies that were resolved for the unit.
    pub deps: Vec<CompiledModule>,
    /// The verdict of the verifier.
    pub verified: Result<(), VMStatus>,
    /// The verdict of the serializer round trip.
    pub round_trip: Result<(), Error>,
    /// The signed transaction that was made for the unit, or why none was.
    pub made: Result<SignedUserTransaction, Error>,
    /// What the environment answered to the block of that transaction.
    pub block: Result<Vec<(VMStatus, TransactionOutput)>, String>,
    /// What running the transaction gave.
    pub ran: Result<Result<TransactionOutput, Error>, Error>,
}

impl Answers {
    /// The answers as the log model reads them.
    pub open spec fn observation(self) -> Observation {
        Observation {
            compiler_log: self.lines.deep_view(),
            compiled: compiled_view(self.compiled),
            verified: self.verified,
            round_trip: verdict_view(self.round_trip),
            executed: executed_view(self.ran),
        }
    }

    /// Whether the environment is asked to execute the transaction: the
    /// runtime stage is reached and the transaction could be made.
    pub open spec fn executes(self, disabled: Set<Stage>) -> bool {
        self.observation().reaches(disabled, Stage::Runtime) && self.made is Ok
    }

    /// The error that stops the whole run, if there is one: the runtime
    /// stage is reached, and the transaction cannot be made or running it
    /// is fatal.
    pub open spec fn fatal(self, disabled: Set<Stage>) -> Option<Error> {
        if self.observation().reaches(disabled, Stage::Runtime) {
            match self.made {
                Err(e) => Some(e),
                Ok(_) => match self.ran {
                    Err(e) => Some(e),
                    Ok(_) => None,
                },
            }
        } else {
            None
        }
    }

    /// The write set that is applied to the environment, if one is.
    pub open spec fn applied(self, disabled: Set<Stage>) -> Option<WriteSet> {
        if self.executes(disabled) {
            write_set_to_apply(self.block)
        } else {
            None
        }
    }
}

/// Whether the compiler is asked at all: the compiler stage runs and the
/// input names no precompiled script.
pub open spec fn compiles(config: GlobalConfig, transaction: Transaction) -> bool {
    stage_runs(transaction.config.disabled(), Stage::Compiler) && precompiled_script(
        config.precompiled_scripts@,
        transaction.input@,
    ) is None
}

/// Whether `lines` and `compiled` are what the compiler stage can get for
/// `input`: the registered script and no lines when `input` names a
/// precompiled script, and otherwise what the compiler in the state
/// `state`, called through `compile` with the empty sink `sink`, the
/// address of the sender and the input, answers.
pub open spec fn compile_answered<C: Compiler>(
    registry: Map<Seq<char>, CompiledUnitView>,
    compile: &mut C,
    sink: &mut Vec<String>,
    state: C,
    sender: AccountAddress,
    input: Seq<char>,
    lines: Vec<String>,
    compiled: Result<ScriptOrModule, Error>,
) -> bool {
    match precompiled_script(registry, input) {
        Some(script) => compiled matches Ok(ScriptOrModule::Script(taken)) && taken@ == script
            && lines@.len() == 0,
        None => mut_ref_current(compile) == state && mut_ref_current(sink)@.len() == 0 && exists|
            text: &str,
        |
            text@ == input && #[trigger] call_ensures(
                C::compile,
                (compile, sink, sender, text),
                compiled,
            ),
    }
}

/// Whether `verdict` is a verdict that verifying `unit` can give: `deps`
/// are what resolving the handle table of the unit gives, and `verdict` is
/// what the verifier says of the unit with them.
pub open spec fn unit_verified<E: Executor, S: BytecodeSerializer, V: BytecodeVerifier>(
    exec: &E,
    serializer: &S,
    verifier: &V,
    unit: ScriptOrModule,
    deps: Vec<CompiledModule>,
    verdict: Result<(), VMStatus>,
) -> bool {
    match unit {
        ScriptOrModule::Script(script) => dependencies_fetched(
            exec,
            serializer,
            verifier,
            script@.module_ids(),
            deps@,
        ) && script_verification(verifier, &script, &deps, verdict),
        ScriptOrModule::Module(module) => dependencies_fetched(
            exec,
            serializer,
            verifier,
            module@.module_ids(),
            deps@,
        ) && module_verification(verifier, &module, &deps, verdict),
    }
}

/// Whether `verdict` is a verdict that the round trip of `unit` through
/// the serializer can end with.
pub open spec fn unit_round_trip<S: BytecodeSerializer>(
    serializer: &S,
    unit: ScriptOrModule,
    verdict: Result<(), Error>,
) -> bool {
    match unit {
        ScriptOrModule::Script(script) => script_round_trip(serializer, &script, verdict),
        ScriptOrModule::Module(module) => module_round_trip(serializer, &module, verdict),
    }
}

/// Whether `made` is what making the transaction for `unit` can give.
pub open spec fn unit_transaction_made<E: Executor, S: BytecodeSerializer, K: TransactionSigner>(
    exec: &E,
    serializer: &S,
    signer: &K,
    ceiling: u64,
    config: &TransactionConfig,
    unit: ScriptOrModule,
    made: Result<SignedUserTransaction, Error>,
) -> bool {
    match unit {
        ScriptOrModule::Script(script) => script_transaction_made(
            exec,
            serializer,
            signer,
            ceiling,
            config,
            &script,
            made,
        ),
        ScriptOrModule::Module(module) => module_transaction_made(
            exec,
            serializer,
            signer,
            ceiling,
            config,
            &module,
            made,
        ),
    }
}

/// Whether `block` and `ran` are what running the transaction that was
/// made can give: the environment in the state `state` is asked through
/// `run` to execute the transaction as a block of its own, `block` is its
/// answer and `ran` follows from it.
pub open spec fn unit_executed<E: Executor>(
    run: &mut E,
    state: E,
    made: Result<SignedUserTransaction, Error>,
    block: Result<Vec<(VMStatus, TransactionOutput)>, String>,
    ran: Result<Result<TransactionOutput, Error>, Error>,
) -> bool {
    made matches Ok(txn) ==> mut_ref_current(run) == state && run_outcome(block, ran) && exists|
        sent: Vec<SignedUserTransaction>,
    |
        sent@ == seq![txn] && #[trigger] call_ensures(E::execute_block, (run, sent), block)
}

/// Whether the answers `a` are answers that the collaborators can give to
/// the calls that the pipeline makes for `transaction`, stage by stage, as
/// far as the stages are reached. The compiler is called through `compile`
/// and `sink` in the state `compiler`; the environment is in the state
/// `exec` until the transaction is executed through `run`.
pub open spec fn transaction_answered<
    C: Compiler,
    V: BytecodeVerifier,
    S: BytecodeSerializer,
    K: TransactionSigner,
    E: Executor,
>(
    config: GlobalConfig,
    compile: &mut C,
    sink: &mut Vec<String>,
    compiler: C,
    verifier: &V,
    serializer: &S,
    signer: &K,
    exec: E,
    run: &mut E,
    transaction: Transaction,
    a: Answers,
) -> bool {
    let disabled = transaction.config.disabled();
    let obs = a.observation();
    &&& obs.reaches(disabled, Stage::Compiler) ==> compile_answered(
        config.precompiled_scripts@,
        compile,
        sink,
        compiler,
        transaction.config.sender.addr,
        transaction.input@,
        a.lines,
        a.compiled,
    )
    &&& obs.reaches(disabled, Stage::Verifier) ==> unit_verified(
        &exec,
        serializer,
        verifier,
        a.compiled->Ok_0,
        a.deps,
        a.verified,
    )
    &&& obs.reaches(disabled, Stage::Serializer) ==> unit_round_trip(
        serializer,
        a.compiled->Ok_0,
        a.round_trip,
    )
    &&& obs.reaches(disabled, Stage::Runtime) ==> unit_transaction_made(
        &exec,
        serializer,
        signer,
        config.maximum_number_of_gas_units,
        &transaction.config,
        a.compiled->Ok_0,
        a.made,
    ) && unit_executed(run, exec, a.made, a.block, a.ran)
}

/// The entries of a transaction command whose runtime stage stopped the
/// run: everything up to the marker of the runtime stage.
pub open spec fn stopped_entries(idx: TransactionId, disabled: Set<Stage>, obs: Observation) -> Seq<
    EvaluationOutputView,
> {
    seq![EvaluationOutputView::Transaction(idx)] + obs.stage_entries(disabled, Stage::Compiler)
        + obs.stage_entries(disabled, Stage::Verifier) + obs.stage_entries(
        disabled,
        Stage::Serializer,
    ) + seq![EvaluationOutputView::Stage(Stage::Runtime)]
}

/// Whether the log grew from `before` to `after`, and `r` came out, as
/// follows from the answers `a`: when an answer is fatal, the error comes
/// out and the log holds the entries up to the marker of the runtime stage;
/// otherwise the log holds the entries of the command and its status comes
/// out.
pub open spec fn transaction_logged(
    before: Seq<EvaluationOutputView>,
    after: Seq<EvaluationOutputView>,
    idx: TransactionId,
    transaction: Transaction,
    config: GlobalConfig,
    a: Answers,
    r: Result<Status, Error>,
) -> bool {
    let disabled = transaction.config.disabled();
    match a.fatal(disabled) {
        Some(e) => r == Err::<Status, Error>(e) && after == before + stopped_entries(
            idx,
            disabled,
            a.observation(),
        ),
        None => r matches Ok(status) && transaction_recorded(
            before,
            after,
            idx,
            transaction,
            config,
            a.observation(),
            status,
        ),
    }
}

/// The log entry that shows the compiled unit `unit`.
fn artifact_entry(unit: &ScriptOrModule) -> (r: EvaluationOutput)
    ensures
        r@ == artifact(unit@),
{
    match unit {
        ScriptOrModule::Script(script) => EvaluationOutput::Output(
            OutputType::CompiledScript(Box::new(script.clone())),
        ),
        ScriptOrModule::Module(module) => EvaluationOutput::Output(
            OutputType::CompiledModule(Box::new(module.clone())),
        ),
    }
}

/// Appends the lines a compiler logged to the evaluation log, in order.
pub fn append_compiler_log(log: &mut EvaluationLog, lines: &Vec<String>)
    ensures
        final(log)@ == old(log)@ + compiler_lines(lines.deep_view()),
{
    let mut i: usize = 0;
    while i < lines.len()
        invariant
            i <= lines.len(),
            log@ == old(log)@ + compiler_lines(lines.deep_view()).subrange(0, i as int),
        decreases lines.len() - i,
    {
        log.append(EvaluationOutput::Output(OutputType::CompilerLog(lines[i].clone())));
        assert(log@ =~= old(log)@ + compiler_lines(lines.deep_view()).subrange(0, i + 1));
        i += 1;
    }
    assert(compiler_lines(lines.deep_view()).subrange(0, i as int) =~= compiler_lines(
        lines.deep_view(),
    ));
}

/// What the compiler stage got: the lines and the unit or the error.
pub struct Compilation {
    pub lines: Vec<String>,
    pub compiled: Result<ScriptOrModule, Error>,
}

/// Stage 1: compiles the input of `transaction`, or takes the precompiled
/// script it names, and records the stage in `log`. Gives the unit when
/// there is one.
fn compiler_stage<C: Compiler>(
    config: &GlobalConfig,
    compiler: &mut C,
    transaction: &Transaction,
    log: &mut EvaluationLog,
) -> (r: (Option<ScriptOrModule>, Ghost<Compilation>))
    ensures
        final(log)@ == old(log)@ + seq![EvaluationOutputView::Stage(Stage::Compiler)]
            + compiler_outputs(r.1@.lines.deep_view(), compiled_view(r.1@.compiled)),
        match r.0 {
            Some(unit) => r.1@.compiled == Ok::<ScriptOrModule, Error>(unit),
            None => r.1@.compiled is Err,
        },
        exists|compile: &mut C, sink: &mut Vec<String>|
            {
                &&& #[trigger] compile_answered(
                    config.precompiled_scripts@,
                    compile,
                    sink,
                    *old(compiler),
                    transaction.config.sender.addr,
                    transaction.input@,
                    r.1@.lines,
                    r.1@.compiled,
                )
                &&& precompiled_script(config.precompiled_scripts@, transaction.input@) is None
                    ==> mut_ref_future(compile) == *final(compiler) && mut_ref_future(sink)
                    == r.1@.lines
                &&& precompiled_script(config.precompiled_scripts@, transaction.input@) is Some
                    ==> *final(compiler) == *old(compiler)
            },
{
    let sender_addr = *transaction.config.sender.address();
    log.append(EvaluationOutput::Stage(Stage::Compiler));
    match is_precompiled_script(config.precompiled_scripts, transaction.input.as_str()) {
        Some(compiled_script) => {
            let unit = ScriptOrModule::Script(compiled_script);
            log.append(artifact_entry(&unit));
            let silent: Vec<String> = Vec::new();
            let ghost got = Compilation { lines: silent, compiled: Ok(unit) };
            proof {
                assert(compiler_lines(got.lines.deep_view()) =~= Seq::empty());
                assert(log@ =~= old(log)@ + seq![EvaluationOutputView::Stage(Stage::Compiler)]
                    + compiler_outputs(got.lines.deep_view(), compiled_view(got.compiled)));
                let compile: &mut C = arbitrary();
                let sink: &mut Vec<String> = arbitrary();
                assert(compile_answered(
                    config.precompiled_scripts@,
                    compile,
                    sink,
                    *old(compiler),
                    transaction.config.sender.addr,
                    transaction.input@,
                    got.lines,
                    got.compiled,
                ));
            }
            let r = (Some(unit), Ghost(got));
            assert(r.1@ == got);
            r
        },
        None => {
            let mut lines: Vec<String> = Vec::new();
            let text = transaction.input.as_str();
            let compiled = compiler.compile(&mut lines, sender_addr, text);
            let ghost got = Compilation { lines, compiled };
            proof {
                assert(exists|c: &mut C, s: &mut Vec<String>|
                    mut_ref_current(c) == *old(compiler) && mut_ref_future(c) == *compiler
                        && mut_ref_current(s)@.len() == 0 && mut_ref_future(s) == lines
                        && #[trigger] call_ensures(C::compile, (c, s, sender_addr, text), compiled));
                let (compile, sink) = choose|c: &mut C, s: &mut Vec<String>|
                    mut_ref_current(c) == *old(compiler) && mut_ref_future(c) == *compiler
                        && mut_ref_current(s)@.len() == 0 && mut_ref_future(s) == lines
                        && #[trigger] call_ensures(C::compile, (c, s, sender_addr, text), compiled);
                assert(compile_answered(
                    config.precompiled_scripts@,
                    compile,
                    sink,
                    *old(compiler),
                    transaction.config.sender.addr,
                    transaction.input@,
                    got.lines,
                    got.compiled,
                ));
            }
            append_compiler_log(log, &lines);
            match compiled {
                Ok(unit) => {
                    log.append(artifact_entry(&unit));
                    assert(log@ =~= old(log)@ + seq![
                        EvaluationOutputView::Stage(Stage::Compiler),
                    ] + compiler_outputs(got.lines.deep_view(), compiled_view(got.compiled)));
                    let r = (Some(unit), Ghost(got));
                    assert(r.1@ == got);
                    r
                },
                Err(e) => {
                    log.append(EvaluationOutput::Error(Box::new(e)));
                    assert(log@ =~= old(log)@ + seq![
                        EvaluationOutputView::Stage(Stage::Compiler),
                    ] + compiler_outputs(got.lines.deep_view(), compiled_view(got.compiled)));
                    let r = (None, Ghost(got));
                    assert(r.1@ == got);
                    r
                },
            }
        },
    }
}

/// What the verifier stage got: the resolved dependencies and the verdict.
pub struct Verification {
    pub deps: Vec<CompiledModule>,
    pub verdict: Result<(), VMStatus>,
}

/// Stage 2: resolves the dependencies of `unit`, verifies it on its own
/// and against them, and records the stage in `log`. Gives the unit back
/// when it passed.
fn verifier_stage<E: Executor, S: BytecodeSerializer, V: BytecodeVerifier>(
    exec: &E,
    serializer: &S,
    verifier: &V,
    unit: ScriptOrModule,
    log: &mut EvaluationLog,
) -> (r: (Option<ScriptOrModule>, Ghost<Verification>))
    ensures
        final(log)@ == old(log)@ + seq![EvaluationOutputView::Stage(Stage::Verifier)]
            + verifier_outputs(r.1@.verdict),
        match r.0 {
            Some(verified) => r.1@.verdict is Ok && verified == unit,
            None => r.1@.verdict is Err,
        },
        unit_verified(exec, serializer, verifier, unit, r.1@.deps, r.1@.verdict),
{
    log.append(EvaluationOutput::Stage(Stage::Verifier));
    match unit {
        ScriptOrModule::Script(compiled_script) => {
            let deps = fetch_script_dependencies(exec, serializer, verifier, &compiled_script);
            match verify_script(verifier, compiled_script, &deps) {
                Ok(script) => {
                    let ghost got = Verification { deps, verdict: Ok(()) };
                    assert(log@ =~= old(log)@ + seq![
                        EvaluationOutputView::Stage(Stage::Verifier),
                    ] + verifier_outputs(got.verdict));
                    let r = (Some(ScriptOrModule::Script(script)), Ghost(got));
                    assert(r.1@ == got);
                    r
                },
                Err(status) => {
                    let ghost got = Verification { deps, verdict: Err(status) };
                    log.append(
                        EvaluationOutput::Error(Box::new(Error::VerificationError(status))),
                    );
                    assert(log@ =~= old(log)@ + seq![
                        EvaluationOutputView::Stage(Stage::Verifier),
                    ] + verifier_outputs(got.verdict));
                    let r = (None, Ghost(got));
                    assert(r.1@ == got);
                    r
                },
            }
        },
        ScriptOrModule::Module(compiled_module) => {
            let deps = fetch_module_dependencies(exec, serializer, verifier, &compiled_module);
            match verify_module(verifier, compiled_module, &deps) {
                Ok(module) => {
                    let ghost got = Verification { deps, verdict: Ok(()) };
                    assert(log@ =~= old(log)@ + seq![
                        EvaluationOutputView::Stage(Stage::Verifier),
                    ] + verifier_outputs(got.verdict));
                    let r = (Some(ScriptOrModule::Module(module)), Ghost(got));
                    assert(r.1@ == got);
                    r
                },
                Err(status) => {
                    let ghost got = Verification { deps, verdict: Err(status) };
                    log.append(
                        EvaluationOutput::Error(Box::new(Error::VerificationError(status))),
                    );
                    assert(log@ =~= old(log)@ + seq![
                        EvaluationOutputView::Stage(Stage::Verifier),
                    ] + verifier_outputs(got.verdict));
                    let r = (None, Ghost(got));
                    assert(r.1@ == got);
                    r
                },
            }
        },
    }
}

/// Stage 3: sends `unit` through the serializer and back, and records the
/// stage in `log`. Tells whether the round trip passed.
fn serializer_stage<S: BytecodeSerializer>(
    serializer: &S,
    unit: &ScriptOrModule,
    log: &mut EvaluationLog,
) -> (r: (bool, Ghost<Result<(), Error>>))
    ensures
        final(log)@ == old(log)@ + seq![EvaluationOutputView::Stage(Stage::Serializer)]
            + serializer_outputs(verdict_view(r.1@)),
        r.0 == (r.1@ is Ok),
        unit_round_trip(serializer, *unit, r.1@),
{
    log.append(EvaluationOutput::Stage(Stage::Serializer));
    let round_trip = match unit {
        ScriptOrModule::Script(script) => serialize_and_deserialize_script(serializer, script),
        ScriptOrModule::Module(module) => serialize_and_deserialize_module(serializer, module),
    };
    let ghost verdict = round_trip;
    match round_trip {
        Ok(_) => {
            assert(log@ =~= old(log)@ + seq![EvaluationOutputView::Stage(Stage::Serializer)]
                + serializer_outputs(verdict_view(verdict)));
            let r = (true, Ghost(verdict));
            assert(r.1@ == verdict);
            r
        },
        Err(e) => {
            log.append(EvaluationOutput::Error(Box::new(e)));
            assert(log@ =~= old(log)@ + seq![EvaluationOutputView::Stage(Stage::Serializer)]
                + serializer_outputs(verdict_view(verdict)));
            let r = (false, Ghost(verdict));
            assert(r.1@ == verdict);
            r
        },
    }
}

/// What the runtime stage got: the transaction that was made, what the
/// environment answered to its block, and what running it gave.
pub struct Execution {
    pub made: Result<SignedUserTransaction, Error>,
    pub block: Result<Vec<(VMStatus, TransactionOutput)>, String>,
    pub ran: Result<Result<TransactionOutput, Error>, Error>,
}

impl Execution {
    /// The error that stops the whole run, if there is one.
    pub open spec fn fatal(self) -> Option<Error> {
        match self.made {
            Err(e) => Some(e),
            Ok(_) => match self.ran {
                Err(e) => Some(e),
                Ok(_) => None,
            },
        }
    }

    /// The write set that is applied to the environment, if one is.
    pub open spec fn applied(self) -> Option<WriteSet> {
        if self.made is Ok {
            write_set_to_apply(self.block)
        } else {
            None
        }
    }
}

/// Stage 4: builds and signs the transaction for `unit`, executes it, and
/// records the stage in `log`. Tells whether the execution succeeded, or
/// gives the error that stops the run.
fn runtime_stage<S: BytecodeSerializer, K: TransactionSigner, E: Executor>(
    config: &GlobalConfig,
    serializer: &S,
    signer: &K,
    exec: &mut E,
    transaction: &Transaction,
    unit: ScriptOrModule,
    log: &mut EvaluationLog,
) -> (r: (Result<bool, Error>, Ghost<Execution>))
    ensures
        unit_transaction_made(
            &*old(exec),
            serializer,
            signer,
            config.maximum_number_of_gas_units,
            &transaction.config,
            unit,
            r.1@.made,
        ),
        match r.1@.fatal() {
            Some(e) => r.0 == Err::<bool, Error>(e) && final(log)@ == old(log)@.push(
                EvaluationOutputView::Stage(Stage::Runtime),
            ),
            None => r.0 == Ok::<bool, Error>(r.1@.ran matches Ok(Ok(_))) && final(log)@ == old(
                log,
            )@ + seq![EvaluationOutputView::Stage(Stage::Runtime)] + runtime_outputs(
                executed_view(r.1@.ran),
            ) && is_classified(outcome_view(r.1@.ran)),
        },
        exists|run: &mut E, apply: &mut E|
            {
                &&& #[trigger] unit_executed(run, *old(exec), r.1@.made, r.1@.block, r.1@.ran)
                &&& #[trigger] applied_through(apply, mut_ref_future(run), r.1@.applied())
                &&& *final(exec) == if r.1@.made is Ok {
                    if r.1@.applied() is Some {
                        mut_ref_future(apply)
                    } else {
                        mut_ref_future(run)
                    }
                } else {
                    *old(exec)
                }
            },
{
    log.append(EvaluationOutput::Stage(Stage::Runtime));
    let ceiling = config.maximum_number_of_gas_units;
    let made = match unit {
        ScriptOrModule::Script(script) => make_script_transaction(
            &*exec,
            serializer,
            signer,
            ceiling,
            &transaction.config,
            script,
        ),
        ScriptOrModule::Module(module) => make_module_transaction(
            &*exec,
            serializer,
            signer,
            ceiling,
            &transaction.config,
            module,
        ),
    };
    let ghost shown = made;
    let signed_transaction = match made {
        Ok(txn) => txn,
        Err(e) => {
            let ghost got = Execution { made: shown, block: arbitrary(), ran: arbitrary() };
            proof {
                let run: &mut E = arbitrary();
                assert(unit_executed(run, *old(exec), got.made, got.block, got.ran));
                assert(applied_through(run, mut_ref_future(run), got.applied()));
            }
            let r = (Err(e), Ghost(got));
            assert(r.1@ == got);
            return r;
        },
    };
    let ghost sent_txn = signed_transaction;
    let (ran, Ghost(answer)) = run_and_show(exec, signed_transaction);
    let ghost got = Execution { made: shown, block: answer, ran };
    proof {
        let (run, block, apply) = choose|
            run: &mut E,
            block: Vec<SignedUserTransaction>,
            apply: &mut E,
        |
            {
                &&& mut_ref_current(run) == *old(exec)
                &&& block@ == seq![sent_txn]
                &&& #[trigger] call_ensures(E::execute_block, (run, block), answer)
                &&& #[trigger] applied_through(
                    apply,
                    mut_ref_future(run),
                    write_set_to_apply(answer),
                )
                &&& *exec == if write_set_to_apply(answer) is Some {
                    mut_ref_future(apply)
                } else {
                    mut_ref_future(run)
                }
            };
        assert(unit_executed(run, *old(exec), got.made, got.block, got.ran));
        assert(applied_through(apply, mut_ref_future(run), got.applied()));
    }
    match ran {
        Err(e) => {
            let r = (Err(e), Ghost(got));
            assert(r.1@ == got);
            r
        },
        Ok(Ok(txn_output)) => {
            log.append(
                EvaluationOutput::Output(OutputType::TransactionOutput(Box::new(txn_output))),
            );
            assert(log@ =~= old(log)@ + seq![EvaluationOutputView::Stage(Stage::Runtime)]
                + runtime_outputs(executed_view(got.ran)));
            let r = (Ok(true), Ghost(got));
            assert(r.1@ == got);
            r
        },
        Ok(Err(e)) => {
            log.append(EvaluationOutput::Error(Box::new(e)));
            assert(log@ =~= old(log)@ + seq![EvaluationOutputView::Stage(Stage::Runtime)]
                + runtime_outputs(executed_view(got.ran)));
            let r = (Ok(false), Ghost(got));
            assert(r.1@ == got);
            r
        },
    }
}

/// Runs one transaction command through the pipeline, records every stage
/// in `log`, and also shows what the collaborators answered.
pub(crate) fn eval_transaction_traced<
    C: Compiler,
    V: BytecodeVerifier,
    S: BytecodeSerializer,
    K: TransactionSigner,
    E: Executor,
>(
    config: &GlobalConfig,
    compiler: &mut C,
    verifier: &V,
    serializer: &S,
    signer: &K,
    exec: &mut E,
    idx: TransactionId,
    transaction: &Transaction,
    log: &mut EvaluationLog,
) -> (r: (Result<Status, Error>, Ghost<Answers>))
    ensures
        transaction_logged(old(log)@, final(log)@, idx, *transaction, *config, r.1@, r.0),
        exists|compile: &mut C, sink: &mut Vec<String>, run: &mut E, apply: &mut E|
            {
                &&& #[trigger] transaction_answered(
                    *config,
                    compile,
                    sink,
                    *old(compiler),
                    verifier,
                    serializer,
                    signer,
                    *old(exec),
                    run,
                    *transaction,
                    r.1@,
                )
                &&& #[trigger] applied_through(
                    apply,
                    mut_ref_future(run),
                    r.1@.applied(transaction.config.disabled()),
                )
                &&& *final(compiler) == if compiles(*config, *transaction) {
                    mut_ref_future(compile)
                } else {
                    *old(compiler)
                }
                &&& compiles(*config, *transaction) ==> mut_ref_future(sink) == r.1@.lines
                &&& *final(exec) == if r.1@.executes(transaction.config.disabled()) {
                    if r.1@.applied(transaction.config.disabled()) is Some {
                        mut_ref_future(apply)
                    } else {
                        mut_ref_future(run)
                    }
                } else {
                    *old(exec)
                }
            },
{
    let ghost disabled = transaction.config.disabled();
    let ghost before = log@;
    let ghost blank: Answers = arbitrary();
    let ghost idle_compile: &mut C = arbitrary();
    let ghost idle_sink: &mut Vec<String> = arbitrary();
    let ghost idle_run: &mut E = arbitrary();

    // Start processing a new transaction.
    log.append(EvaluationOutput::Transaction(idx));

    // stage 1: compile the script or module
    if !transaction.config.runs_stage(Stage::Compiler) {
        let r = Ok(Status::Success);
        proof {
            let obs = blank.observation();
            assert(log@ =~= before + transaction_entries(idx, disabled, obs));
            assert(transaction_recorded(before, log@, idx, *transaction, *config, obs, r->Ok_0));
            assert(transaction_logged(before, log@, idx, *transaction, *config, blank, r));
            assert(transaction_answered(
                *config,
                idle_compile,
                idle_sink,
                *old(compiler),
                verifier,
                serializer,
                signer,
                *old(exec),
                idle_run,
                *transaction,
                blank,
            ));
            assert(applied_through(idle_run, mut_ref_future(idle_run), blank.applied(disabled)));
        }
        let traced = (r, Ghost(blank));
        assert(traced.0 == r && traced.1@ == blank);
        return traced;
    }
    let (compiled, Ghost(compilation)) = compiler_stage(config, compiler, transaction, log);
    let ghost (compile, sink) = choose|compile: &mut C, sink: &mut Vec<String>|
        {
            &&& #[trigger] compile_answered(
                config.precompiled_scripts@,
                compile,
                sink,
                *old(compiler),
                transaction.config.sender.addr,
                transaction.input@,
                compilation.lines,
                compilation.compiled,
            )
            &&& precompiled_script(config.precompiled_scripts@, transaction.input@) is None
                ==> mut_ref_future(compile) == *compiler && mut_ref_future(sink)
                == compilation.lines
            &&& precompiled_script(config.precompiled_scripts@, transaction.input@) is Some
                ==> *compiler == *old(compiler)
        };
    let ghost a1 = Answers { lines: compilation.lines, compiled: compilation.compiled, ..blank };
    let unit = match compiled {
        Some(unit) => unit,
        None => {
            let r = Ok(Status::Failure);
            proof {
                let obs = a1.observation();
                assert(log@ =~= before + transaction_entries(idx, disabled, obs));
                assert(transaction_recorded(
                    before,
                    log@,
                    idx,
                    *transaction,
                    *config,
                    obs,
                    r->Ok_0,
                ));
                assert(transaction_logged(before, log@, idx, *transaction, *config, a1, r));
                assert(transaction_answered(
                    *config,
                    compile,
                    sink,
                    *old(compiler),
                    verifier,
                    serializer,
                    signer,
                    *old(exec),
                    idle_run,
                    *transaction,
                    a1,
                ));
                assert(applied_through(idle_run, mut_ref_future(idle_run), a1.applied(disabled)));
            }
            let traced = (r, Ghost(a1));
            assert(traced.0 == r && traced.1@ == a1);
            return traced;
        },
    };

    // stage 2: verify the script or module
    if !transaction.config.runs_stage(Stage::Verifier) {
        let r = Ok(Status::Success);
        proof {
            let obs = a1.observation();
            assert(log@ =~= before + transaction_entries(idx, disabled, obs));
            assert(transaction_recorded(before, log@, idx, *transaction, *config, obs, r->Ok_0));
            assert(transaction_logged(before, log@, idx, *transaction, *config, a1, r));
            assert(transaction_answered(
                *config,
                compile,
                sink,
                *old(compiler),
                verifier,
                serializer,
                signer,
                *old(exec),
                idle_run,
                *transaction,
                a1,
            ));
            assert(applied_through(idle_run, mut_ref_future(idle_run), a1.applied(disabled)));
        }
        let traced = (r, Ghost(a1));
        assert(traced.0 == r && traced.1@ == a1);
        return traced;
    }
    let (verified, Ghost(verification)) = verifier_stage(&*exec, serializer, verifier, unit, log);
    let ghost a2 = Answers { deps: verification.deps, verified: verification.verdict, ..a1 };
    let unit = match verified {
        Some(unit) => unit,
        None => {
            let r = Ok(Status::Failure);
            proof {
                let obs = a2.observation();
                assert(log@ =~= before + transaction_entries(idx, disabled, obs));
                assert(transaction_recorded(
                    before,
                    log@,
                    idx,
                    *transaction,
                    *config,
                    obs,
                    r->Ok_0,
                ));
                assert(transaction_logged(before, log@, idx, *transaction, *config, a2, r));
                assert(transaction_answered(
                    *config,
                    compile,
                    sink,
                    *old(compiler),
                    verifier,
                    serializer,
                    signer,
                    *old(exec),
                    idle_run,
                    *transaction,
                    a2,
                ));
                assert(applied_through(idle_run, mut_ref_future(idle_run), a2.applied(disabled)));
            }
            let traced = (r, Ghost(a2));
            assert(traced.0 == r && traced.1@ == a2);
            return traced;
        },
    };

    // stage 3: serializer round trip
    let ghost mut a3 = a2;
    if transaction.config.runs_stage(Stage::Serializer) {
        let (passed, Ghost(verdict)) = serializer_stage(serializer, &unit, log);
        proof {
            a3 = Answers { round_trip: verdict, ..a2 };
        }
        if !passed {
            let r = Ok(Status::Failure);
            proof {
                let obs = a3.observation();
                assert(log@ =~= before + transaction_entries(idx, disabled, obs));
                assert(transaction_recorded(
                    before,
                    log@,
                    idx,
                    *transaction,
                    *config,
                    obs,
                    r->Ok_0,
                ));
                assert(transaction_logged(before, log@, idx, *transaction, *config, a3, r));
                assert(transaction_answered(
                    *config,
                    compile,
                    sink,
                    *old(compiler),
                    verifier,
                    serializer,
                    signer,
                    *old(exec),
                    idle_run,
                    *transaction,
                    a3,
                ));
                assert(applied_through(idle_run, mut_ref_future(idle_run), a3.applied(disabled)));
            }
            let traced = (r, Ghost(a3));
            assert(traced.0 == r && traced.1@ == a3);
            return traced;
        }
    }

    // stage 4: execute the script or publish the module
    if !transaction.config.runs_stage(Stage::Runtime) {
        let r = Ok(Status::Success);
        proof {
            let obs = a3.observation();
            assert(log@ =~= before + transaction_entries(idx, disabled, obs));
            assert(transaction_recorded(before, log@, idx, *transaction, *config, obs, r->Ok_0));
            assert(transaction_logged(before, log@, idx, *transaction, *config, a3, r));
            assert(transaction_answered(
                *config,
                compile,
                sink,
                *old(compiler),
                verifier,
                serializer,
                signer,
                *old(exec),
                idle_run,
                *transaction,
                a3,
            ));
            assert(applied_through(idle_run, mut_ref_future(idle_run), a3.applied(disabled)));
        }
        let traced = (r, Ghost(a3));
        assert(traced.0 == r && traced.1@ == a3);
        return traced;
    }
    let ghost reached = log@;
    let (executed, Ghost(execution)) = runtime_stage(
        config,
        serializer,
        signer,
        exec,
        transaction,
        unit,
        log,
    );
    let ghost (run, apply) = choose|run: &mut E, apply: &mut E|
        {
            &&& #[trigger] unit_executed(
                run,
                *old(exec),
                execution.made,
                execution.block,
                execution.ran,
            )
            &&& #[trigger] applied_through(apply, mut_ref_future(run), execution.applied())
            &&& *exec == if execution.made is Ok {
                if execution.applied() is Some {
                    mut_ref_future(apply)
                } else {
                    mut_ref_future(run)
                }
            } else {
                *old(exec)
            }
        };
    let ghost a4 = Answers {
        made: execution.made,
        block: execution.block,
        ran: execution.ran,
        ..a3
    };
    let r = match executed {
        Ok(true) => Ok(Status::Success),
        Ok(false) => Ok(Status::Failure),
        Err(e) => Err(e),
    };
    proof {
        let obs = a4.observation();
        assert(reached =~= before + seq![EvaluationOutputView::Transaction(idx)]
            + obs.stage_entries(disabled, Stage::Compiler) + obs.stage_entries(
            disabled,
            Stage::Verifier,
        ) + obs.stage_entries(disabled, Stage::Serializer));
        if a4.fatal(disabled) is None {
            assert(log@ =~= before + transaction_entries(idx, disabled, obs));
            assert(transaction_recorded(before, log@, idx, *transaction, *config, obs, r->Ok_0));
        } else {
            assert(log@ =~= before + stopped_entries(idx, disabled, obs));
        }
        assert(transaction_logged(before, log@, idx, *transaction, *config, a4, r));
        assert(transaction_answered(
            *config,
            compile,
            sink,
            *old(compiler),
            verifier,
            serializer,
            signer,
            *old(exec),
            run,
            *transaction,
            a4,
        ));
        assert(applied_through(apply, mut_ref_future(run), a4.applied(disabled)));
    }
    let traced = (r, Ghost(a4));
    assert(traced.0 == r && traced.1@ == a4);
    traced
}

/// Runs one transaction command through the pipeline and records every
/// stage in `log`.
///
/// The stages run in order: compiler, verifier, serializer, runtime. A
/// disabled compiler or verifier ends the command with a success at that
/// point; a disabled serializer is skipped without ending it; a disabled
/// runtime ends it with a success. The first stage that fails writes its
/// error and ends the command with a failure.
///
/// On `Ok`, the log has grown by exactly the entries that follow from what
/// the collaborators answered, and the status is the one that follows from
/// it: see [`transaction_recorded`]. `Err` is fatal for the whole run. It
/// comes only from the runtime stage: the transaction could not be built,
/// the environment failed, or an invariant of the harness was broken.
///
/// The last clause ties everything to the calls that are made. There are
/// answers `a` that the collaborators can give to the calls of the stages
/// that are reached (see [`transaction_answered`]); the log and the result
/// follow from them (see [`transaction_logged`]); the compiler is left as
/// the call to it leaves it, and untouched when it is not called; the
/// environment is left as the execution and the applied write set leave it,
/// and untouched when nothing is executed.
pub fn eval_transaction<
    C: Compiler,
    V: BytecodeVerifier,
    S: BytecodeSerializer,
    K: TransactionSigner,
    E: Executor,
>(
    config: &GlobalConfig,
    compiler: &mut C,
    verifier: &V,
    serializer: &S,
    signer: &K,
    exec: &mut E,
    idx: TransactionId,
    transaction: &Transaction,
    log: &mut EvaluationLog,
) -> (r: Result<Status, Error>)
    ensures
        r matches Ok(status) ==> exists|obs: Observation| #[trigger]
            transaction_recorded(
                old(log)@,
                final(log)@,
                idx,
                *transaction,
                *config,
                obs,
                status,
            ),
        r is Err ==> stage_runs(transaction.config.disabled(), Stage::Runtime) && old(
            log,
        )@.is_prefix_of(final(log)@),
        exists|a: Answers, compile: &mut C, sink: &mut Vec<String>, run: &mut E, apply: &mut E|
            {
                &&& #[trigger] transaction_answered(
                    *config,
                    compile,
                    sink,
                    *old(compiler),
                    verifier,
                    serializer,
                    signer,
                    *old(exec),
                    run,
                    *transaction,
                    a,
                )
                &&& #[trigger] applied_through(
                    apply,
                    mut_ref_future(run),
                    a.applied(transaction.config.disabled()),
                )
                &&& transaction_logged(old(log)@, final(log)@, idx, *transaction, *config, a, r)
                &&& *final(compiler) == if compiles(*config, *transaction) {
                    mut_ref_future(compile)
                } else {
                    *old(compiler)
                }
                &&& compiles(*config, *transaction) ==> mut_ref_future(sink) == a.lines
                &&& *final(exec) == if a.executes(transaction.config.disabled()) {
                    if a.applied(transaction.config.disabled()) is Some {
                        mut_ref_future(apply)
                    } else {
                        mut_ref_future(run)
                    }
                } else {
                    *old(exec)
                }
            },
{
    let (r, _) = eval_transaction_traced(
        config,
        compiler,
        verifier,
        serializer,
        signer,
        exec,
        idx,
        transaction,
        log,
    );
    r
}

} // verus!
