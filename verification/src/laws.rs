//! Laws of the evaluation run, proved over the model.

use vstd::prelude::*;
use crate::bytecode::{CompiledModule, CompiledScript};
use crate::capability::BytecodeSerializer;
use crate::config::{stage_runs, Command, GlobalConfig, Transaction};
use crate::errors::{Error, ErrorView};
use crate::log::{
    failed_before,
    failed_transactions,
    failure_pair,
    failures_marked,
    is_failure_at,
    last_stage,
    last_transaction,
    statuses,
    statuses_before,
    EvaluationOutputView,
};
use crate::model::{
    command_entries,
    command_status,
    compiler_lines,
    observation_fits,
    run_entries,
    transaction_entries,
    CommandObservation,
    Observation,
};
use crate::pipeline::{execution_outcome, module_round_trip, script_round_trip};
use crate::stage::{Stage, Status};
use crate::types::{TransactionId, TransactionOutputView, VMStatus};

verus! {

/// No entry of `entries` is a status.
pub open spec fn status_free(entries: Seq<EvaluationOutputView>) -> bool {
    forall|i: int| 0 <= i < entries.len() ==> !(#[trigger] entries[i] is Status)
}

/// The statuses of two logs written one after the other are the statuses
/// of the first followed by those of the second.
pub proof fn lemma_statuses_concat(a: Seq<EvaluationOutputView>, b: Seq<EvaluationOutputView>)
    ensures
        statuses(a + b) == statuses(a) + statuses(b),
{
    lemma_statuses_concat_upto(a, b, b.len() as int);
    assert((a + b).len() == a.len() + b.len());
}

proof fn lemma_statuses_concat_upto(
    a: Seq<EvaluationOutputView>,
    b: Seq<EvaluationOutputView>,
    k: int,
)
    requires
        0 <= k <= b.len(),
    ensures
        statuses_before(a + b, a.len() + k) == statuses(a) + statuses_before(b, k),
    decreases k,
{
    if k == 0 {
        lemma_statuses_prefix(a + b, a, a.len() as int);
        assert(statuses(a) + statuses_before(b, 0) =~= statuses(a));
    } else {
        lemma_statuses_concat_upto(a, b, k - 1);
        assert((a + b)[a.len() + k - 1] == b[k - 1]);
        assert(statuses_before(a + b, a.len() + k) =~= statuses(a) + statuses_before(b, k));
    }
}

proof fn lemma_statuses_prefix(a: Seq<EvaluationOutputView>, b: Seq<EvaluationOutputView>, n: int)
    requires
        0 <= n <= a.len(),
        n <= b.len(),
        forall|i: int| 0 <= i < n ==> a[i] == b[i],
    ensures
        statuses_before(a, n) == statuses_before(b, n),
    decreases n,
{
    if n > 0 {
        lemma_statuses_prefix(a, b, n - 1);
    }
}

/// A log without status entries has no statuses.
pub proof fn lemma_status_free(entries: Seq<EvaluationOutputView>)
    requires
        status_free(entries),
    ensures
        statuses(entries) == Seq::<Status>::empty(),
{
    lemma_status_free_upto(entries, entries.len() as int);
}

proof fn lemma_status_free_upto(entries: Seq<EvaluationOutputView>, n: int)
    requires
        status_free(entries),
        0 <= n <= entries.len(),
    ensures
        statuses_before(entries, n) == Seq::<Status>::empty(),
    decreases n,
{
    if n > 0 {
        lemma_status_free_upto(entries, n - 1);
        assert(!(entries[n - 1] is Status));
    }
}

/// The entries of one stage hold no status.
pub proof fn lemma_stage_entries_status_free(obs: Observation, disabled: Set<Stage>, stage: Stage)
    ensures
        status_free(obs.stage_entries(disabled, stage)),
{
    let outputs = obs.stage_outputs(stage);
    assert forall|i: int| 0 <= i < outputs.len() implies !(#[trigger] outputs[i] is Status) by {
        if stage == Stage::Compiler {
            let lines = compiler_lines(obs.compiler_log);
            if i < lines.len() {
                assert(outputs[i] == lines[i]);
            }
        }
    }
    let entries = obs.stage_entries(disabled, stage);
    assert forall|i: int| 0 <= i < entries.len() implies !(#[trigger] entries[i] is Status) by {
        if i > 0 {
            assert(entries[i] == outputs[i - 1]);
        }
    }
}

/// While a transaction command runs, no status is written: the entries of
/// the command hold none.
pub proof fn lemma_transaction_entries_status_free(
    idx: TransactionId,
    disabled: Set<Stage>,
    obs: Observation,
)
    ensures
        status_free(transaction_entries(idx, disabled, obs)),
{
    lemma_stage_entries_status_free(obs, disabled, Stage::Compiler);
    lemma_stage_entries_status_free(obs, disabled, Stage::Verifier);
    lemma_stage_entries_status_free(obs, disabled, Stage::Serializer);
    lemma_stage_entries_status_free(obs, disabled, Stage::Runtime);
}

/// While a command of either kind runs, no status is written.
pub proof fn lemma_command_entries_status_free(
    idx: TransactionId,
    command: Command,
    obs: CommandObservation,
)
    ensures
        status_free(command_entries(idx, command, obs)),
{
    match command {
        Command::Transaction(transaction) => {
            lemma_transaction_entries_status_free(
                idx,
                transaction.config.disabled(),
                obs.transaction,
            );
        },
        Command::BlockMetadata(_) => {},
    }
}

/// The statuses that the first `n` commands of a run end with, in command
/// order.
pub open spec fn run_statuses(commands: Seq<Command>, trace: Seq<CommandObservation>, n: int) -> Seq<
    Status,
> {
    Seq::new(n as nat, |i: int| command_status(commands[i], trace[i]))
}

/// Log cardinality: whatever the collaborators answer, the log of the
/// first `n` commands holds exactly `n` status entries, and the status at
/// position `i` among them is the one of command `i`.
pub proof fn lemma_one_status_per_command(
    commands: Seq<Command>,
    trace: Seq<CommandObservation>,
    n: int,
)
    requires
        0 <= n <= commands.len(),
    ensures
        statuses(run_entries(commands, trace, n)) == run_statuses(commands, trace, n),
        statuses(run_entries(commands, trace, n)).len() == n,
    decreases n,
{
    if n == 0 {
        assert(statuses(run_entries(commands, trace, n)) =~= run_statuses(commands, trace, n));
    } else {
        lemma_one_status_per_command(commands, trace, n - 1);
        let earlier = run_entries(commands, trace, n - 1);
        let entries = command_entries((n - 1) as usize, commands[n - 1], trace[n - 1]);
        let status = command_status(commands[n - 1], trace[n - 1]);
        let last = entries.push(EvaluationOutputView::Status(status));
        lemma_statuses_concat(earlier, last);
        lemma_command_entries_status_free((n - 1) as usize, commands[n - 1], trace[n - 1]);
        lemma_status_free(entries);
        lemma_statuses_concat(entries, seq![EvaluationOutputView::Status(status)]);
        assert(last =~= entries + seq![EvaluationOutputView::Status(status)]);
        assert(statuses(seq![EvaluationOutputView::Status(status)]) =~= seq![status]) by {
            let one = seq![EvaluationOutputView::Status(status)];
            assert(statuses_before(one, 0) =~= Seq::<Status>::empty());
            assert(statuses_before(one, 1) =~= seq![status]);
        }
        assert(statuses(run_entries(commands, trace, n)) =~= run_statuses(commands, trace, n));
    }
}

/// The log of the first `n` commands depends on the observations of those
/// commands only.
pub proof fn lemma_run_entries_prefix(
    commands: Seq<Command>,
    first: Seq<CommandObservation>,
    second: Seq<CommandObservation>,
    n: int,
)
    requires
        0 <= n <= first.len(),
        n <= second.len(),
        forall|i: int| 0 <= i < n ==> first[i] == second[i],
    ensures
        run_entries(commands, first, n) == run_entries(commands, second, n),
    decreases n,
{
    if n > 0 {
        lemma_run_entries_prefix(commands, first, second, n - 1);
    }
}

/// An entry is in two logs written one after the other exactly when it is
/// in one of them.
pub proof fn lemma_contains_concat(
    a: Seq<EvaluationOutputView>,
    b: Seq<EvaluationOutputView>,
    entry: EvaluationOutputView,
)
    ensures
        (a + b).contains(entry) == (a.contains(entry) || b.contains(entry)),
{
    if a.contains(entry) {
        let i = choose|i: int| 0 <= i < a.len() && a[i] == entry;
        assert((a + b)[i] == entry);
    }
    if b.contains(entry) {
        let i = choose|i: int| 0 <= i < b.len() && b[i] == entry;
        assert((a + b)[a.len() + i] == entry);
    }
    if (a + b).contains(entry) {
        let i = choose|i: int| 0 <= i < (a + b).len() && (a + b)[i] == entry;
        if i < a.len() {
            assert(a[i] == entry);
        } else {
            assert(b[i - a.len()] == entry);
        }
    }
}

/// The entries of stage `stage` hold the marker of `marked` exactly when
/// the two are the same stage and the pipeline reached it.
pub proof fn lemma_stage_entries_marker(
    obs: Observation,
    disabled: Set<Stage>,
    stage: Stage,
    marked: Stage,
)
    ensures
        obs.stage_entries(disabled, stage).contains(EvaluationOutputView::Stage(marked)) == (stage
            == marked && obs.reaches(disabled, stage)),
{
    let entries = obs.stage_entries(disabled, stage);
    let marker = EvaluationOutputView::Stage(marked);
    let outputs = obs.stage_outputs(stage);
    assert forall|i: int| 0 <= i < outputs.len() implies !(#[trigger] outputs[i] is Stage) by {
        if stage == Stage::Compiler {
            let lines = compiler_lines(obs.compiler_log);
            if i < lines.len() {
                assert(outputs[i] == lines[i]);
            }
        }
    }
    if entries.contains(marker) {
        let i = choose|i: int| 0 <= i < entries.len() && entries[i] == marker;
        if i > 0 {
            assert(entries[i] == outputs[i - 1]);
        }
    }
    if stage == marked && obs.reaches(disabled, stage) {
        assert(entries[0] == marker);
    }
}

/// The log of a transaction command holds the marker of a stage exactly
/// when the pipeline reached that stage.
pub proof fn lemma_marker_iff_reached(
    idx: TransactionId,
    disabled: Set<Stage>,
    obs: Observation,
    stage: Stage,
)
    ensures
        transaction_entries(idx, disabled, obs).contains(EvaluationOutputView::Stage(stage))
            == obs.reaches(disabled, stage),
{
    let marker = EvaluationOutputView::Stage(stage);
    let head = seq![EvaluationOutputView::Transaction(idx)];
    let c = obs.stage_entries(disabled, Stage::Compiler);
    let v = obs.stage_entries(disabled, Stage::Verifier);
    let s = obs.stage_entries(disabled, Stage::Serializer);
    let r = obs.stage_entries(disabled, Stage::Runtime);
    lemma_stage_entries_marker(obs, disabled, Stage::Compiler, stage);
    lemma_stage_entries_marker(obs, disabled, Stage::Verifier, stage);
    lemma_stage_entries_marker(obs, disabled, Stage::Serializer, stage);
    lemma_stage_entries_marker(obs, disabled, Stage::Runtime, stage);
    lemma_contains_concat(head, c, marker);
    lemma_contains_concat(head + c, v, marker);
    lemma_contains_concat(head + c + v, s, marker);
    lemma_contains_concat(head + c + v + s, r, marker);
    if head.contains(marker) {
        let i = choose|i: int| 0 <= i < head.len() && head[i] == marker;
        assert(head[i] is Transaction);
    }
}

/// Stage-skip monotonicity: when `skipped` is disabled for a transaction,
/// the log holds no entry of `skipped` itself, and none of any stage after
/// it, unless the disabled stage is the serializer, which does not gate
/// what follows it. This holds whatever the collaborators answer.
pub proof fn lemma_stage_skip_monotonicity(
    idx: TransactionId,
    disabled: Set<Stage>,
    obs: Observation,
    skipped: Stage,
    stage: Stage,
)
    requires
        disabled.contains(skipped),
        stage == skipped || (skipped.precedes(stage) && skipped != Stage::Serializer),
    ensures
        !stage_runs(disabled, stage),
        obs.stage_entries(disabled, stage) == Seq::<EvaluationOutputView>::empty(),
        !transaction_entries(idx, disabled, obs).contains(EvaluationOutputView::Stage(stage)),
{
    lemma_marker_iff_reached(idx, disabled, obs, stage);
}

/// The serializer does not gate the runtime: with the serializer disabled
/// and the compiler, the verifier and the runtime enabled, a unit that
/// compiles and verifies is executed, and the log shows the runtime stage
/// without a serializer stage.
pub proof fn lemma_serializer_does_not_gate_runtime(
    idx: TransactionId,
    disabled: Set<Stage>,
    obs: Observation,
)
    requires
        disabled.contains(Stage::Serializer),
        !disabled.contains(Stage::Compiler),
        !disabled.contains(Stage::Verifier),
        !disabled.contains(Stage::Runtime),
        obs.compiled is Ok,
        obs.verified is Ok,
    ensures
        stage_runs(disabled, Stage::Runtime),
        transaction_entries(idx, disabled, obs).contains(
            EvaluationOutputView::Stage(Stage::Runtime),
        ),
        !transaction_entries(idx, disabled, obs).contains(
            EvaluationOutputView::Stage(Stage::Serializer),
        ),
{
    lemma_marker_iff_reached(idx, disabled, obs, Stage::Runtime);
    lemma_marker_iff_reached(idx, disabled, obs, Stage::Serializer);
}

/// Discard invariant, at classification: an outcome classified as a
/// discarded transaction carries an empty write set, and a discarded
/// output that carries mutations is never recorded as a failure: it is
/// fatal.
pub proof fn lemma_discard_carries_no_writes(vm_status: VMStatus, output: TransactionOutputView)
    ensures
        execution_outcome(vm_status, output) matches Ok(Err(ErrorView::DiscardedTransaction(o)))
            ==> o == output && o.status is Discard && o.write_set.len() == 0,
        output.status is Discard && output.write_set.len() > 0 ==> execution_outcome(
            vm_status,
            output,
        ) is Err,
        output.status is Discard && output.write_set.len() == 0 ==> execution_outcome(
            vm_status,
            output,
        ) == Ok::<Result<TransactionOutputView, ErrorView>, ErrorView>(
            Err(ErrorView::DiscardedTransaction(output)),
        ),
{
}

/// Discard invariant, in the log: whenever the runtime stage of a
/// transaction records a discarded transaction, the discarded output
/// carries an empty write set.
pub proof fn lemma_recorded_discard_carries_no_writes(
    config: GlobalConfig,
    transaction: Transaction,
    obs: Observation,
    discarded: TransactionOutputView,
)
    requires
        observation_fits(config, transaction, obs),
        obs.reaches(transaction.config.disabled(), Stage::Runtime),
        obs.executed == Err::<TransactionOutputView, ErrorView>(
            ErrorView::DiscardedTransaction(discarded),
        ),
    ensures
        discarded.write_set.len() == 0,
        discarded.status is Discard,
{
}

/// The number of `Failure` statuses among the first `end` entries.
pub open spec fn failure_count(entries: Seq<EvaluationOutputView>, end: int) -> nat
    decreases end,
{
    if end <= 0 {
        0
    } else if is_failure_at(entries, end - 1) {
        failure_count(entries, end - 1) + 1
    } else {
        failure_count(entries, end - 1)
    }
}

/// The failures among the first `end` entries are as many as the `Failure`
/// statuses among them, and a longer prefix only adds failures at the end.
pub proof fn lemma_failed_before_grows(entries: Seq<EvaluationOutputView>, start: int, end: int)
    requires
        0 <= start <= end <= entries.len(),
    ensures
        failed_before(entries, start).len() == failure_count(entries, start),
        failed_before(entries, end).len() == failure_count(entries, end),
        failure_count(entries, start) <= failure_count(entries, end),
        failed_before(entries, start) == failed_before(entries, end).subrange(
            0,
            failure_count(entries, start) as int,
        ),
    decreases end - start,
{
    lemma_failed_before_len(entries, start);
    lemma_failed_before_len(entries, end);
    if start < end {
        lemma_failed_before_grows(entries, start, end - 1);
        lemma_failed_before_len(entries, end - 1);
        assert(failed_before(entries, start) =~= failed_before(entries, end).subrange(
            0,
            failure_count(entries, start) as int,
        ));
    } else {
        assert(failed_before(entries, start) =~= failed_before(entries, end).subrange(
            0,
            failure_count(entries, start) as int,
        ));
    }
}

proof fn lemma_failed_before_len(entries: Seq<EvaluationOutputView>, end: int)
    ensures
        failed_before(entries, end).len() == failure_count(entries, end),
    decreases end,
{
    if end > 0 {
        lemma_failed_before_len(entries, end - 1);
    }
}

/// Failure extraction: the failed transactions of a log are exactly the
/// pairs that stand before its `Failure` statuses, no more and no fewer.
/// There is one pair per `Failure` status, and the pair for the status at
/// position `at` is found at the rank of that status among the failures:
/// it is the latest transaction index and the latest stage before `at`.
pub proof fn lemma_failed_transactions_exact(entries: Seq<EvaluationOutputView>, at: int)
    ensures
        failed_transactions(entries).len() == failure_count(entries, entries.len() as int),
        is_failure_at(entries, at) ==> failure_count(entries, at) < failed_transactions(
            entries,
        ).len() && failed_transactions(entries)[failure_count(entries, at) as int] == failure_pair(
            entries,
            at,
        ),
{
    lemma_failed_before_len(entries, entries.len() as int);
    if is_failure_at(entries, at) {
        lemma_failed_before_grows(entries, at + 1, entries.len() as int);
        lemma_failed_before_len(entries, at);
        let upto = failed_before(entries, at + 1);
        assert(upto == failed_before(entries, at).push(failure_pair(entries, at)));
        assert(upto[failure_count(entries, at) as int] == failure_pair(entries, at));
        assert(failed_before(entries, entries.len() as int).subrange(
            0,
            failure_count(entries, at + 1) as int,
        )[failure_count(entries, at) as int] == failed_before(
            entries,
            entries.len() as int,
        )[failure_count(entries, at) as int]);
    }
}

proof fn lemma_markers_stay(entries: Seq<EvaluationOutputView>, from: int, to: int)
    requires
        0 <= from <= to,
    ensures
        last_transaction(entries, from) is Some ==> last_transaction(entries, to) is Some,
        last_stage(entries, from) is Some ==> last_stage(entries, to) is Some,
    decreases to - from,
{
    if from < to {
        lemma_markers_stay(entries, from, to - 1);
    }
}

/// A log that opens with a `Transaction` marker followed by a `Stage`
/// marker has both markers before every `Failure` status.
pub proof fn lemma_marked_from_the_start(entries: Seq<EvaluationOutputView>)
    requires
        entries.len() >= 2,
        entries[0] is Transaction,
        entries[1] is Stage,
    ensures
        failures_marked(entries),
{
    assert forall|at: int| #[trigger] is_failure_at(entries, at) implies last_transaction(
        entries,
        at,
    ) is Some && last_stage(entries, at) is Some by {
        assert(at >= 2);
        assert(last_transaction(entries, 1) is Some);
        assert(last_stage(entries, 2) is Some);
        lemma_markers_stay(entries, 1, at);
        lemma_markers_stay(entries, 2, at);
    }
}

/// Whether a run of `commands` opens with a transaction whose compiler
/// stage is enabled.
pub open spec fn opens_with_compiled_transaction(commands: Seq<Command>) -> bool {
    &&& commands.len() > 0
    &&& commands[0] matches Command::Transaction(transaction)
    &&& !transaction.config.disabled().contains(Stage::Compiler)
}

proof fn lemma_run_opens_with_markers(
    commands: Seq<Command>,
    trace: Seq<CommandObservation>,
    n: int,
)
    requires
        opens_with_compiled_transaction(commands),
        1 <= n <= commands.len(),
    ensures
        run_entries(commands, trace, n).len() >= 2,
        run_entries(commands, trace, n)[0] is Transaction,
        run_entries(commands, trace, n)[1] is Stage,
    decreases n,
{
    if n == 1 {
        let transaction = commands[0]->Transaction_0;
        let disabled = transaction.config.disabled();
        let obs = trace[0].transaction;
        let head = seq![EvaluationOutputView::Transaction(0usize)];
        let compiler = obs.stage_entries(disabled, Stage::Compiler);
        assert(compiler[0] == EvaluationOutputView::Stage(Stage::Compiler));
        let entries = transaction_entries(0usize, disabled, obs);
        assert(entries[0] == head[0]);
        assert(entries[1] == compiler[0]);
        assert(run_entries(commands, trace, 0) =~= Seq::empty());
        let first = run_entries(commands, trace, 1);
        assert(first[0] == entries[0]);
        assert(first[1] == entries[1]);
    } else {
        lemma_run_opens_with_markers(commands, trace, n - 1);
    }
}

/// The log of a run that opens with a transaction whose compiler stage is
/// enabled has a `Transaction` marker and a `Stage` marker before every
/// `Failure` status, whatever the collaborators answer: its failed
/// transactions can always be extracted. So has the log of a run of no
/// commands.
pub proof fn lemma_run_log_is_marked(commands: Seq<Command>, trace: Seq<CommandObservation>)
    requires
        commands.len() == 0 || opens_with_compiled_transaction(commands),
    ensures
        failures_marked(run_entries(commands, trace, commands.len() as int)),
{
    if commands.len() > 0 {
        lemma_run_opens_with_markers(commands, trace, commands.len() as int);
        lemma_marked_from_the_start(run_entries(commands, trace, commands.len() as int));
    }
}

/// Whether the serializer is faithful on `script`: it never fails to
/// write it, and whatever it reads from the bytes it wrote is a script
/// that equals it.
pub open spec fn faithful_on_script<S: BytecodeSerializer>(
    serializer: &S,
    script: &CompiledScript,
) -> bool {
    &&& forall|e: Error|
        !#[trigger] call_ensures(
            S::serialize_script,
            (serializer, script),
            Err::<Vec<u8>, Error>(e),
        )
    &&& forall|blob: Vec<u8>, back: Result<CompiledScript, Error>|
        call_ensures(S::serialize_script, (serializer, script), Ok::<Vec<u8>, Error>(blob))
            && #[trigger] call_ensures(S::deserialize_script, (serializer, &blob), back)
            ==> back is Ok && back->Ok_0@ == script@
}

/// Whether the serializer is faithful on `module`: it never fails to
/// write it, and whatever it reads from the bytes it wrote is a module
/// that equals it.
pub open spec fn faithful_on_module<S: BytecodeSerializer>(
    serializer: &S,
    module: &CompiledModule,
) -> bool {
    &&& forall|e: Error|
        !#[trigger] call_ensures(
            S::serialize_module,
            (serializer, module),
            Err::<Vec<u8>, Error>(e),
        )
    &&& forall|blob: Vec<u8>, back: Result<CompiledModule, Error>|
        call_ensures(S::serialize_module, (serializer, module), Ok::<Vec<u8>, Error>(blob))
            && #[trigger] call_ensures(S::deserialize_module, (serializer, &blob), back)
            ==> back is Ok && back->Ok_0@ == module@
}

/// Round-trip law for scripts. When the round trip passes, the serializer
/// wrote the script to bytes and read from them a script that equals it.
/// And on a script that the serializer is faithful on, the round trip
/// always passes.
pub proof fn lemma_script_round_trip<S: BytecodeSerializer>(
    serializer: &S,
    script: &CompiledScript,
    verdict: Result<(), Error>,
)
    requires
        script_round_trip(serializer, script, verdict),
    ensures
        verdict is Ok ==> exists|blob: Vec<u8>, read: CompiledScript|
            call_ensures(S::serialize_script, (serializer, script), Ok::<Vec<u8>, Error>(blob))
                && #[trigger] call_ensures(
                S::deserialize_script,
                (serializer, &blob),
                Ok::<CompiledScript, Error>(read),
            ) && read@ == script@,
        faithful_on_script(serializer, script) ==> verdict is Ok,
{
    if verdict is Ok {
        let (blob, back) = choose|blob: Vec<u8>, back: Result<CompiledScript, Error>|
            call_ensures(S::serialize_script, (serializer, script), Ok::<Vec<u8>, Error>(blob))
                && #[trigger] call_ensures(S::deserialize_script, (serializer, &blob), back)
                && crate::pipeline::round_trip_verdict(
                script@,
                crate::pipeline::script_read(back),
                verdict,
            );
        assert(back is Ok);
        assert(call_ensures(
            S::deserialize_script,
            (serializer, &blob),
            Ok::<CompiledScript, Error>(back->Ok_0),
        ));
    }
}

/// Round-trip law for modules. When the round trip passes, the serializer
/// wrote the module to bytes and read from them a module that equals it.
/// And on a module that the serializer is faithful on, the round trip
/// always passes.
pub proof fn lemma_module_round_trip<S: BytecodeSerializer>(
    serializer: &S,
    module: &CompiledModule,
    verdict: Result<(), Error>,
)
    requires
        module_round_trip(serializer, module, verdict),
    ensures
        verdict is Ok ==> exists|blob: Vec<u8>, read: CompiledModule|
            call_ensures(S::serialize_module, (serializer, module), Ok::<Vec<u8>, Error>(blob))
                && #[trigger] call_ensures(
                S::deserialize_module,
                (serializer, &blob),
                Ok::<CompiledModule, Error>(read),
            ) && read@ == module@,
        faithful_on_module(serializer, module) ==> verdict is Ok,
{
    if verdict is Ok {
        let (blob, back) = choose|blob: Vec<u8>, back: Result<CompiledModule, Error>|
            call_ensures(S::serialize_module, (serializer, module), Ok::<Vec<u8>, Error>(blob))
                && #[trigger] call_ensures(S::deserialize_module, (serializer, &blob), back)
                && crate::pipeline::round_trip_verdict(
                module@,
                crate::pipeline::module_read(back),
                verdict,
            );
        assert(back is Ok);
        assert(call_ensures(
            S::deserialize_module,
            (serializer, &blob),
            Ok::<CompiledModule, Error>(back->Ok_0),
        ));
    }
}

} // verus!
