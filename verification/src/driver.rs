//! The evaluation driver: sets the environment up, feeds every command
//! through its evaluator and closes each one with a status entry.

use vstd::prelude::*;
use crate::account::AccountResource;
use crate::block::{block_outcome, block_result_view, eval_block_metadata_traced};
use crate::capability::{
    BytecodeSerializer,
    BytecodeVerifier,
    Compiler,
    Executor,
    TransactionSigner,
};
use crate::config::{Command, GlobalConfig};
use crate::errors::{Error, ErrorView};
use crate::evaluator::{compiles, eval_transaction_traced, transaction_answered, Answers};
use crate::laws::{
    lemma_one_status_per_command,
    lemma_run_entries_prefix,
    lemma_run_log_is_marked,
    opens_with_compiled_transaction,
    run_statuses,
};
use crate::log::{failures_marked, statuses, EvaluationLog, EvaluationOutput, EvaluationOutputView};
use crate::model::{command_observation_fits, run_entries, trace_fits, CommandObservation};
use crate::pipeline::{applied_through, write_set_to_apply};
use crate::setup::{accounts_added, genesis_accounts_refreshed, setup_accounts};
use crate::stage::Status;
use crate::transaction::LedgerTransaction;
use crate::types::{TransactionOutput, VMStatus};

verus! {

/// Whether `log` is the log of a run of `commands` for some answers of the
/// collaborators: there is a fitting observation for every command, and
/// the log holds, for each command in order, its entries followed by its
/// status.
pub open spec fn is_run_log(
    config: GlobalConfig,
    commands: Seq<Command>,
    log: Seq<EvaluationOutputView>,
) -> bool {
    exists|trace: Seq<CommandObservation>| #[trigger]
        trace_fits(config, commands, trace) && log == run_entries(
            commands,
            trace,
            commands.len() as int,
        ) && statuses(log) == run_statuses(commands, trace, commands.len() as int)
}

/// What the collaborators answered for one command, by value. Only the
/// part for the kind of the command is looked at.
pub struct CommandAnswers {
    /// The answers for a transaction command.
    pub transaction: Answers,
    /// What the environment answered to the block of a block-metadata
    /// command.
    pub block: Result<Vec<(VMStatus, TransactionOutput)>, String>,
}

impl CommandAnswers {
    /// The answers as the log model reads them.
    pub open spec fn observation(self) -> CommandObservation {
        CommandObservation {
            transaction: self.transaction.observation(),
            block: match block_outcome(block_result_view(self.block)) {
                Ok(outcome) => outcome,
                Err(violation) => Err(violation),
            },
        }
    }
}

/// The answers of a run as the log model reads them.
pub open spec fn observed(answers: Seq<CommandAnswers>) -> Seq<CommandObservation> {
    Seq::new(answers.len(), |i: int| answers[i].observation())
}

/// The references through which the calls that change the compiler or the
/// environment are made for one command: the call to the compiler with its
/// sink, the execution of the block, and the application of the write set.
pub struct CommandCalls<'a, C, E> {
    pub compile: &'a mut C,
    pub sink: &'a mut Vec<String>,
    pub run: &'a mut E,
    pub apply: &'a mut E,
}

/// Whether the answers `a` are answers that the collaborators give to the
/// calls that are made for `command` through `calls`, with the compiler in
/// the state `compiler` and the environment in the state `exec`.
pub open spec fn command_called<
    C: Compiler,
    V: BytecodeVerifier,
    S: BytecodeSerializer,
    K: TransactionSigner,
    E: Executor,
>(
    config: GlobalConfig,
    calls: CommandCalls<C, E>,
    compiler: C,
    verifier: &V,
    serializer: &S,
    signer: &K,
    exec: E,
    command: Command,
    a: CommandAnswers,
) -> bool {
    match command {
        Command::Transaction(transaction) => transaction_answered(
            config,
            calls.compile,
            calls.sink,
            compiler,
            verifier,
            serializer,
            signer,
            exec,
            calls.run,
            transaction,
            a.transaction,
        ),
        Command::BlockMetadata(metadata) => mut_ref_current(calls.run) == exec && exists|
            block: Vec<LedgerTransaction>,
        |
            block@ == seq![LedgerTransaction::BlockMetadata(metadata)] && #[trigger] call_ensures(
                E::execute_transaction_block,
                (calls.run, block),
                a.block,
            ),
    }
}

/// The error that stops the whole run at `command`, if the answers `a`
/// hold one.
pub open spec fn command_error(command: Command, a: CommandAnswers) -> Option<ErrorView> {
    match command {
        Command::Transaction(transaction) => match a.transaction.fatal(
            transaction.config.disabled(),
        ) {
            Some(e) => Some(e@),
            None => None,
        },
        Command::BlockMetadata(_) => match block_outcome(block_result_view(a.block)) {
            Err(violation) => Some(violation),
            Ok(_) => None,
        },
    }
}

/// Whether the answers `a` are answers that the collaborators give to the
/// calls that are made for `command`, with the compiler in the state
/// `compiler` and the environment in the state `exec`, and none of them is
/// fatal.
pub open spec fn command_answered<
    C: Compiler,
    V: BytecodeVerifier,
    S: BytecodeSerializer,
    K: TransactionSigner,
    E: Executor,
>(
    config: GlobalConfig,
    calls: CommandCalls<C, E>,
    compiler: C,
    verifier: &V,
    serializer: &S,
    signer: &K,
    exec: E,
    command: Command,
    a: CommandAnswers,
) -> bool {
    command_error(command, a) is None && command_called(
        config,
        calls,
        compiler,
        verifier,
        serializer,
        signer,
        exec,
        command,
        a,
    )
}

/// Whether `command` leaves the compiler in the state `compiler_after` and
/// the environment in the state `exec_after`, given the states `compiler`
/// and `exec` that it found them in and what the calls made for it left:
/// `compiled` by the call to the compiler, `written` in its sink, `ran` by
/// the execution of the block and `applied` by the application of the
/// write set through `apply`. A collaborator that is not called is left as
/// it was.
pub open spec fn command_left<C: Compiler, E: Executor>(
    config: GlobalConfig,
    command: Command,
    a: CommandAnswers,
    compiler: C,
    compiler_after: C,
    compiled: C,
    written: Vec<String>,
    exec: E,
    exec_after: E,
    apply: &mut E,
    ran: E,
    applied: E,
) -> bool {
    match command {
        Command::Transaction(transaction) => {
            let disabled = transaction.config.disabled();
            &&& compiler_after == if compiles(config, transaction) {
                compiled
            } else {
                compiler
            }
            &&& compiles(config, transaction) ==> written == a.transaction.lines
            &&& applied_through(apply, ran, a.transaction.applied(disabled))
            &&& exec_after == if a.transaction.executes(disabled) {
                if a.transaction.applied(disabled) is Some {
                    applied
                } else {
                    ran
                }
            } else {
                exec
            }
        },
        Command::BlockMetadata(_) => {
            &&& compiler_after == compiler
            &&& applied_through(apply, ran, write_set_to_apply(a.block))
            &&& exec_after == if write_set_to_apply(a.block) is Some {
                applied
            } else {
                ran
            }
        },
    }
}

/// Whether the first `n` commands are answered one after the other:
/// command `i` finds the compiler in the state `compilers[i]` and the
/// environment in the state `execs[i]`, and the collaborators answer the
/// calls made for it through `calls[i]` with `answers[i]`.
pub open spec fn run_answered<
    C: Compiler,
    V: BytecodeVerifier,
    S: BytecodeSerializer,
    K: TransactionSigner,
    E: Executor,
>(
    config: GlobalConfig,
    calls: Seq<CommandCalls<C, E>>,
    compilers: Seq<C>,
    verifier: &V,
    serializer: &S,
    signer: &K,
    execs: Seq<E>,
    commands: Seq<Command>,
    answers: Seq<CommandAnswers>,
    n: int,
) -> bool {
    &&& calls.len() == n
    &&& answers.len() == n
    &&& compilers.len() == n + 1
    &&& execs.len() == n + 1
    &&& forall|i: int|
        0 <= i < n ==> #[trigger] command_answered(
            config,
            calls[i],
            compilers[i],
            verifier,
            serializer,
            signer,
            execs[i],
            commands[i],
            answers[i],
        )
}

/// Feeds all given commands through the pipeline, in order, on the given
/// environment, and produces the evaluation log.
///
/// The accounts of `config` are set up first. Then every command is
/// evaluated to completion before the next begins, and closed with one
/// status entry. A command that fails does not stop the run: its error is
/// in the log and the next command is evaluated.
///
/// On `Ok`, the log is the log of a run of `commands` (see [`is_run_log`])
/// and holds exactly one status per command. When the run opens with a
/// transaction whose compiler stage is enabled, or has no command, every
/// failure in the log has its markers and the failed transactions can be
/// extracted. `Err` means the run was aborted by a fatal error; no log is
/// produced then.
///
/// The last clause ties the log and the environment to the calls that are
/// made. The environment goes through the states of the setup (see
/// [`setup_accounts`]) and then, command by command, through the states
/// `execs`; the compiler goes through the states `compilers`. Every
/// command finds the compiler and the environment as the command before it
/// left them, the collaborators answer the calls made for it (see
/// [`command_answered`]), and the log holds what follows from the answers.
/// When the run is aborted, the commands before the fatal one were answered
/// in this way, and the fatal one was answered with the error that comes
/// out.
#[verifier::loop_isolation(false)]
pub fn eval_with_executor<
    C: Compiler,
    V: BytecodeVerifier,
    S: BytecodeSerializer,
    K: TransactionSigner,
    E: Executor,
>(
    config: &GlobalConfig,
    mut compiler: C,
    verifier: &V,
    serializer: &S,
    signer: &K,
    exec: &mut E,
    commands: &[Command],
) -> (r: Result<EvaluationLog, Error>)
    ensures
        r matches Ok(log) ==> is_run_log(*config, commands@, log@) && statuses(log@).len()
            == commands@.len(),
        r matches Ok(log) ==> (commands@.len() == 0 || opens_with_compiled_transaction(commands@)
            ==> failures_marked(log@)),
        exists|
            adds: Seq<&mut E>,
            states: Seq<E>,
            refreshes: Seq<&mut E>,
            found: Seq<Option<AccountResource>>,
            later: Seq<E>,
            calls: Seq<CommandCalls<C, E>>,
            compilers: Seq<C>,
            execs: Seq<E>,
            answers: Seq<CommandAnswers>,
            done: int,
        |
            {
                &&& #[trigger] accounts_added(
                    adds,
                    states,
                    config.accounts@,
                    config.accounts@.len() as int,
                )
                &&& #[trigger] genesis_accounts_refreshed(
                    refreshes,
                    found,
                    later,
                    config.genesis_accounts@,
                    config.genesis_accounts@.len() as int,
                )
                &&& #[trigger] run_answered(
                    *config,
                    calls,
                    compilers,
                    verifier,
                    serializer,
                    signer,
                    execs,
                    commands@,
                    answers,
                    done,
                )
                &&& states[0] == *old(exec)
                &&& forall|j: int|
                    0 <= j < config.accounts@.len() ==> mut_ref_future(#[trigger] adds[j])
                        == states[j + 1]
                &&& later[0] == states[config.accounts@.len() as int]
                &&& forall|k: int|
                    0 <= k < config.genesis_accounts@.len() ==> #[trigger] later[k + 1] == if found[k]
                        is Some {
                        mut_ref_future(refreshes[k])
                    } else {
                        later[k]
                    }
                &&& execs[0] == later[config.genesis_accounts@.len() as int]
                &&& compilers[0] == compiler
                &&& 0 <= done <= commands@.len()
                &&& forall|i: int|
                    0 <= i < done ==> #[trigger] command_left(
                        *config,
                        commands@[i],
                        answers[i],
                        compilers[i],
                        compilers[i + 1],
                        mut_ref_future(calls[i].compile),
                        mut_ref_future(calls[i].sink),
                        execs[i],
                        execs[i + 1],
                        calls[i].apply,
                        mut_ref_future(calls[i].run),
                        mut_ref_future(calls[i].apply),
                    )
                &&& match r {
                    Ok(log) => done == commands@.len() && execs[done] == *final(exec) && log@ == run_entries(
                        commands@,
                        observed(answers),
                        done,
                    ),
                    Err(e) => done < commands@.len() && exists|
                        last: CommandCalls<C, E>,
                        fatal: CommandAnswers,
                        compiler_after: C,
                    |
                        {
                            &&& #[trigger] command_called(
                                *config,
                                last,
                                compilers[done],
                                verifier,
                                serializer,
                                signer,
                                execs[done],
                                commands@[done],
                                fatal,
                            )
                            &&& command_error(commands@[done], fatal) == Some(e@)
                            &&& #[trigger] command_left(
                                *config,
                                commands@[done],
                                fatal,
                                compilers[done],
                                compiler_after,
                                mut_ref_future(last.compile),
                                mut_ref_future(last.sink),
                                execs[done],
                                *final(exec),
                                last.apply,
                                mut_ref_future(last.run),
                                mut_ref_future(last.apply),
                            )
                        },
                }
            },
{
    let ghost first_compiler = compiler;
    setup_accounts(config, exec);
    let ghost (adds, states, refreshes, found, later) = choose|
        adds: Seq<&mut E>,
        states: Seq<E>,
        refreshes: Seq<&mut E>,
        found: Seq<Option<AccountResource>>,
        later: Seq<E>,
    |
        {
            &&& #[trigger] accounts_added(
                adds,
                states,
                config.accounts@,
                config.accounts@.len() as int,
            )
            &&& #[trigger] genesis_accounts_refreshed(
                refreshes,
                found,
                later,
                config.genesis_accounts@,
                config.genesis_accounts@.len() as int,
            )
            &&& states[0] == *old(exec)
            &&& forall|j: int|
                0 <= j < config.accounts@.len() ==> mut_ref_future(#[trigger] adds[j])
                    == states[j + 1]
            &&& later[0] == states[config.accounts@.len() as int]
            &&& forall|k: int|
                0 <= k < config.genesis_accounts@.len() ==> #[trigger] later[k + 1] == if found[k]
                    is Some {
                    mut_ref_future(refreshes[k])
                } else {
                    later[k]
                }
            &&& later[config.genesis_accounts@.len() as int] == *exec
        };

    let mut log = EvaluationLog::new();
    let ghost mut answers: Seq<CommandAnswers> = Seq::empty();
    let ghost mut compilers: Seq<C> = seq![compiler];
    let ghost mut execs: Seq<E> = seq![*exec];
    let ghost blank: CommandAnswers = arbitrary();
    let ghost idle_compile: &mut C = arbitrary();
    let ghost idle_sink: &mut Vec<String> = arbitrary();
    let mut idx: usize = 0;
    assert(run_answered(
        *config,
        Seq::<CommandCalls<C, E>>::empty(),
        compilers,
        verifier,
        serializer,
        signer,
        execs,
        commands@,
        answers,
        0,
    ));
    while idx < commands.len()
        invariant
            idx <= commands.len(),
            answers.len() == idx,
            compilers.len() == idx + 1,
            execs.len() == idx + 1,
            compilers[0] == first_compiler,
            compilers[idx as int] == compiler,
            execs[0] == later[config.genesis_accounts@.len() as int],
            execs[idx as int] == *exec,
            log@ == run_entries(commands@, observed(answers), idx as int),
            forall|i: int|
                0 <= i < idx ==> #[trigger] command_observation_fits(
                    *config,
                    commands@[i],
                    observed(answers)[i],
                ),
            exists|calls: Seq<CommandCalls<C, E>>|
                {
                    &&& #[trigger] run_answered(
                        *config,
                        calls,
                        compilers,
                        verifier,
                        serializer,
                        signer,
                        execs,
                        commands@,
                        answers,
                        idx as int,
                    )
                    &&& forall|i: int|
                        0 <= i < idx ==> #[trigger] command_left(
                            *config,
                            commands@[i],
                            answers[i],
                            compilers[i],
                            compilers[i + 1],
                            mut_ref_future(calls[i].compile),
                            mut_ref_future(calls[i].sink),
                            execs[i],
                            execs[i + 1],
                            calls[i].apply,
                            mut_ref_future(calls[i].run),
                            mut_ref_future(calls[i].apply),
                        )
                },
        decreases commands.len() - idx,
    {
        let ghost before = log@;
        let ghost earlier = answers;
        let ghost compilers_before = compilers;
        let ghost execs_before = execs;
        let ghost compiler_before = compiler;
        let ghost exec_before = *exec;
        let ghost done = choose|calls: Seq<CommandCalls<C, E>>|
            {
                &&& #[trigger] run_answered(
                    *config,
                    calls,
                    compilers_before,
                    verifier,
                    serializer,
                    signer,
                    execs_before,
                    commands@,
                    earlier,
                    idx as int,
                )
                &&& forall|i: int|
                    0 <= i < idx ==> #[trigger] command_left(
                        *config,
                        commands@[i],
                        earlier[i],
                        compilers_before[i],
                        compilers_before[i + 1],
                        mut_ref_future(calls[i].compile),
                        mut_ref_future(calls[i].sink),
                        execs_before[i],
                        execs_before[i + 1],
                        calls[i].apply,
                        mut_ref_future(calls[i].run),
                        mut_ref_future(calls[i].apply),
                    )
            };
        let status: Status;
        let ghost answer: CommandAnswers;
        match &commands[idx] {
            Command::Transaction(transaction) => {
                let (evaluated, Ghost(a)) = eval_transaction_traced(
                    config,
                    &mut compiler,
                    verifier,
                    serializer,
                    signer,
                    exec,
                    idx,
                    transaction,
                    &mut log,
                );
                proof {
                    answer = CommandAnswers { transaction: a, ..blank };
                }
                let ghost (compile, sink, run, apply) = choose|
                    compile: &mut C,
                    sink: &mut Vec<String>,
                    run: &mut E,
                    apply: &mut E,
                |
                    {
                        &&& #[trigger] transaction_answered(
                            *config,
                            compile,
                            sink,
                            compiler_before,
                            verifier,
                            serializer,
                            signer,
                            exec_before,
                            run,
                            *transaction,
                            a,
                        )
                        &&& #[trigger] applied_through(
                            apply,
                            mut_ref_future(run),
                            a.applied(transaction.config.disabled()),
                        )
                        &&& compiler == if compiles(*config, *transaction) {
                            mut_ref_future(compile)
                        } else {
                            compiler_before
                        }
                        &&& compiles(*config, *transaction) ==> mut_ref_future(sink) == a.lines
                        &&& *exec == if a.executes(transaction.config.disabled()) {
                            if a.applied(transaction.config.disabled()) is Some {
                                mut_ref_future(apply)
                            } else {
                                mut_ref_future(run)
                            }
                        } else {
                            exec_before
                        }
                    };
                let ghost made = CommandCalls { compile, sink, run, apply };
                proof {
                    assert(command_called(
                        *config,
                        made,
                        compiler_before,
                        verifier,
                        serializer,
                        signer,
                        exec_before,
                        commands@[idx as int],
                        answer,
                    ));
                    assert(command_left(
                        *config,
                        commands@[idx as int],
                        answer,
                        compiler_before,
                        compiler,
                        mut_ref_future(made.compile),
                        mut_ref_future(made.sink),
                        exec_before,
                        *exec,
                        made.apply,
                        mut_ref_future(made.run),
                        mut_ref_future(made.apply),
                    ));
                }
                status = match evaluated {
                    Ok(status) => status,
                    Err(e) => {
                        let r = Err(e);
                        assert(command_error(commands@[idx as int], answer) == Some(e@));
                        return r;
                    },
                };
                assert(command_answered(
                    *config,
                    made,
                    compiler_before,
                    verifier,
                    serializer,
                    signer,
                    exec_before,
                    commands@[idx as int],
                    answer,
                ));
            },
            Command::BlockMetadata(block_metadata) => {
                let (evaluated, Ghost(shown)) = eval_block_metadata_traced(
                    exec,
                    *block_metadata,
                    &mut log,
                );
                proof {
                    answer = CommandAnswers { block: shown, ..blank };
                }
                let ghost (run, block, apply) = choose|
                    run: &mut E,
                    block: Vec<LedgerTransaction>,
                    apply: &mut E,
                |
                    {
                        &&& mut_ref_current(run) == exec_before
                        &&& block@ == seq![LedgerTransaction::BlockMetadata(*block_metadata)]
                        &&& #[trigger] call_ensures(
                            E::execute_transaction_block,
                            (run, block),
                            shown,
                        )
                        &&& #[trigger] applied_through(
                            apply,
                            mut_ref_future(run),
                            write_set_to_apply(shown),
                        )
                        &&& *exec == if write_set_to_apply(shown) is Some {
                            mut_ref_future(apply)
                        } else {
                            mut_ref_future(run)
                        }
                    };
                let ghost made = CommandCalls {
                    compile: idle_compile,
                    sink: idle_sink,
                    run,
                    apply,
                };
                proof {
                    assert(call_ensures(
                        E::execute_transaction_block,
                        (made.run, block),
                        answer.block,
                    ));
                    assert(command_called(
                        *config,
                        made,
                        compiler_before,
                        verifier,
                        serializer,
                        signer,
                        exec_before,
                        commands@[idx as int],
                        answer,
                    ));
                    assert(command_left(
                        *config,
                        commands@[idx as int],
                        answer,
                        compiler_before,
                        compiler,
                        mut_ref_future(made.compile),
                        mut_ref_future(made.sink),
                        exec_before,
                        *exec,
                        made.apply,
                        mut_ref_future(made.run),
                        mut_ref_future(made.apply),
                    ));
                }
                status = match evaluated {
                    Ok(status) => status,
                    Err(e) => {
                        let r = Err(e);
                        assert(command_error(commands@[idx as int], answer) == Some(e@));
                        return r;
                    },
                };
                assert(command_answered(
                    *config,
                    made,
                    compiler_before,
                    verifier,
                    serializer,
                    signer,
                    exec_before,
                    commands@[idx as int],
                    answer,
                ));
            },
        }
        let ghost call = choose|call: CommandCalls<C, E>|
            {
                &&& #[trigger] command_answered(
                    *config,
                    call,
                    compiler_before,
                    verifier,
                    serializer,
                    signer,
                    exec_before,
                    commands@[idx as int],
                    answer,
                )
                &&& command_left(
                    *config,
                    commands@[idx as int],
                    answer,
                    compiler_before,
                    compiler,
                    mut_ref_future(call.compile),
                    mut_ref_future(call.sink),
                    exec_before,
                    *exec,
                    call.apply,
                    mut_ref_future(call.run),
                    mut_ref_future(call.apply),
                )
            };
        log.append(EvaluationOutput::Status(status));
        proof {
            answers = answers.push(answer);
            compilers = compilers.push(compiler);
            execs = execs.push(*exec);
            let calls = done.push(call);
            assert(answers[idx as int] == answers.last());
            assert(observed(answers)[idx as int] == answers.last().observation());
            lemma_run_entries_prefix(commands@, observed(earlier), observed(answers), idx as int);
            assert(log@ =~= run_entries(commands@, observed(answers), idx + 1));
            assert forall|i: int| 0 <= i < idx + 1 implies #[trigger] command_observation_fits(
                *config,
                commands@[i],
                observed(answers)[i],
            ) by {
                if i < idx {
                    assert(observed(answers)[i] == observed(earlier)[i]);
                }
            }
            assert forall|i: int| 0 <= i < idx + 1 implies #[trigger] command_answered(
                *config,
                calls[i],
                compilers[i],
                verifier,
                serializer,
                signer,
                execs[i],
                commands@[i],
                answers[i],
            ) by {
                if i < idx {
                    assert(calls[i] == done[i]);
                    assert(compilers[i] == compilers_before[i]);
                    assert(execs[i] == execs_before[i]);
                    assert(answers[i] == earlier[i]);
                    assert(command_answered(
                        *config,
                        done[i],
                        compilers_before[i],
                        verifier,
                        serializer,
                        signer,
                        execs_before[i],
                        commands@[i],
                        earlier[i],
                    ));
                }
            }
            assert(run_answered(
                *config,
                calls,
                compilers,
                verifier,
                serializer,
                signer,
                execs,
                commands@,
                answers,
                idx + 1,
            ));
            assert forall|i: int| 0 <= i < idx + 1 implies #[trigger] command_left(
                *config,
                commands@[i],
                answers[i],
                compilers[i],
                compilers[i + 1],
                mut_ref_future(calls[i].compile),
                mut_ref_future(calls[i].sink),
                execs[i],
                execs[i + 1],
                calls[i].apply,
                mut_ref_future(calls[i].run),
                mut_ref_future(calls[i].apply),
            ) by {
                if i < idx {
                    assert(calls[i] == done[i]);
                    assert(compilers[i] == compilers_before[i]);
                    assert(compilers[i + 1] == compilers_before[i + 1]);
                    assert(execs[i] == execs_before[i]);
                    assert(execs[i + 1] == execs_before[i + 1]);
                    assert(answers[i] == earlier[i]);
                    assert(command_left(
                        *config,
                        commands@[i],
                        earlier[i],
                        compilers_before[i],
                        compilers_before[i + 1],
                        mut_ref_future(done[i].compile),
                        mut_ref_future(done[i].sink),
                        execs_before[i],
                        execs_before[i + 1],
                        done[i].apply,
                        mut_ref_future(done[i].run),
                        mut_ref_future(done[i].apply),
                    ));
                }
            }
        }
        idx += 1;
    }
    proof {
        let trace = observed(answers);
        lemma_one_status_per_command(commands@, trace, commands@.len() as int);
        assert(trace_fits(*config, commands@, trace));
        if commands@.len() == 0 || opens_with_compiled_transaction(commands@) {
            lemma_run_log_is_marked(commands@, trace);
        }
    }
    let r = Ok(log);
    assert(is_run_log(*config, commands@, r->Ok_0@));
    r
}

/// Feeds all given commands through the pipeline on a fresh environment
/// and produces the evaluation log.
///
/// Fails with the error of the environment when it cannot be made.
/// Otherwise the run is that of [`eval_with_executor`] on the environment
/// that was made: on `Ok`, the log is the log of a run of `commands` with
/// exactly one status per command, and the last clause ties the log, or
/// the error that aborts the run, to the calls that are made, starting
/// from the environment as it was made.
pub fn eval<
    C: Compiler,
    V: BytecodeVerifier,
    S: BytecodeSerializer,
    K: TransactionSigner,
    E: Executor,
>(
    config: &GlobalConfig,
    compiler: C,
    verifier: &V,
    serializer: &S,
    signer: &K,
    commands: &[Command],
) -> (r: Result<EvaluationLog, Error>)
    ensures
        r matches Ok(log) ==> is_run_log(*config, commands@, log@) && statuses(log@).len()
            == commands@.len(),
        r matches Ok(log) ==> (commands@.len() == 0 || opens_with_compiled_transaction(commands@)
            ==> failures_marked(log@)),
        exists|made: Result<E, Error>| #[trigger]
            call_ensures(E::create, (), made) && match made {
                Err(e) => r == Err::<EvaluationLog, Error>(e),
                Ok(start) => exists|
                    adds: Seq<&mut E>,
                    states: Seq<E>,
                    refreshes: Seq<&mut E>,
                    found: Seq<Option<AccountResource>>,
                    later: Seq<E>,
                    calls: Seq<CommandCalls<C, E>>,
                    compilers: Seq<C>,
                    execs: Seq<E>,
                    answers: Seq<CommandAnswers>,
                    done: int,
                |
                    {
                        &&& #[trigger] accounts_added(
                            adds,
                            states,
                            config.accounts@,
                            config.accounts@.len() as int,
                        )
                        &&& #[trigger] genesis_accounts_refreshed(
                            refreshes,
                            found,
                            later,
                            config.genesis_accounts@,
                            config.genesis_accounts@.len() as int,
                        )
                        &&& #[trigger] run_answered(
                            *config,
                            calls,
                            compilers,
                            verifier,
                            serializer,
                            signer,
                            execs,
                            commands@,
                            answers,
                            done,
                        )
                        &&& states[0] == start
                        &&& forall|j: int|
                            0 <= j < config.accounts@.len() ==> mut_ref_future(#[trigger] adds[j])
                                == states[j + 1]
                        &&& later[0] == states[config.accounts@.len() as int]
                        &&& forall|k: int|
                            0 <= k < config.genesis_accounts@.len() ==> #[trigger] later[k + 1] == if found[k]
                                is Some {
                                mut_ref_future(refreshes[k])
                            } else {
                                later[k]
                            }
                        &&& execs[0] == later[config.genesis_accounts@.len() as int]
                        &&& compilers[0] == compiler
                        &&& 0 <= done <= commands@.len()
                        &&& forall|i: int|
                            0 <= i < done ==> #[trigger] command_left(
                                *config,
                                commands@[i],
                                answers[i],
                                compilers[i],
                                compilers[i + 1],
                                mut_ref_future(calls[i].compile),
                                mut_ref_future(calls[i].sink),
                                execs[i],
                                execs[i + 1],
                                calls[i].apply,
                                mut_ref_future(calls[i].run),
                                mut_ref_future(calls[i].apply),
                            )
                        &&& match r {
                            Ok(log) => done == commands@.len() && log@ == run_entries(
                                commands@,
                                observed(answers),
                                done,
                            ),
                            Err(e) => done < commands@.len() && exists|
                                last: CommandCalls<C, E>,
                                fatal: CommandAnswers,
                                compiler_after: C,
                                left: E,
                            |
                                {
                                    &&& #[trigger] command_called(
                                        *config,
                                        last,
                                        compilers[done],
                                        verifier,
                                        serializer,
                                        signer,
                                        execs[done],
                                        commands@[done],
                                        fatal,
                                    )
                                    &&& command_error(commands@[done], fatal) == Some(e@)
                                    &&& #[trigger] command_left(
                                        *config,
                                        commands@[done],
                                        fatal,
                                        compilers[done],
                                        compiler_after,
                                        mut_ref_future(last.compile),
                                        mut_ref_future(last.sink),
                                        execs[done],
                                        left,
                                        last.apply,
                                        mut_ref_future(last.run),
                                        mut_ref_future(last.apply),
                                    )
                                },
                        }
                    },
            },
{
    // Set up a fresh environment holding the genesis state.
    let made = E::create();
    let ghost shown = made;
    let mut exec = match made {
        Ok(exec) => exec,
        Err(e) => {
            let r = Err(e);
            assert(r == Err::<EvaluationLog, Error>(shown->Err_0));
            return r;
        },
    };
    assert(shown == Ok::<E, Error>(exec));
    eval_with_executor(config, compiler, verifier, serializer, signer, &mut exec, commands)
}

} // verus!
