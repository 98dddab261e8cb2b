//! What failure extraction finds in the log of a run: the failed
//! transaction commands, each with the stage that failed.

use vstd::prelude::*;
use crate::config::Command;
use crate::laws::lemma_command_entries_status_free;
use crate::log::{
    failed_before,
    failed_transactions,
    failure_pair,
    failures_marked,
    is_failure_at,
    last_stage,
    last_transaction,
    EvaluationOutputView,
};
use crate::model::{
    command_entries,
    command_status,
    compiler_lines,
    run_entries,
    transaction_entries,
    CommandObservation,
    Observation,
};
use crate::stage::{Stage, Status};
use crate::types::TransactionId;

verus! {

/// The latest markers among the first `n` entries depend on those entries
/// only.
proof fn lemma_markers_prefix(a: Seq<EvaluationOutputView>, b: Seq<EvaluationOutputView>, n: int)
    requires
        0 <= n <= a.len(),
        n <= b.len(),
        forall|i: int| 0 <= i < n ==> a[i] == b[i],
    ensures
        last_transaction(a, n) == last_transaction(b, n),
        last_stage(a, n) == last_stage(b, n),
    decreases n,
{
    if n > 0 {
        lemma_markers_prefix(a, b, n - 1);
    }
}

/// The failures among the first `n` entries depend on those entries only.
proof fn lemma_failed_prefix(a: Seq<EvaluationOutputView>, b: Seq<EvaluationOutputView>, n: int)
    requires
        0 <= n <= a.len(),
        n <= b.len(),
        forall|i: int| 0 <= i < n ==> a[i] == b[i],
    ensures
        failed_before(a, n) == failed_before(b, n),
    decreases n,
{
    if n > 0 {
        lemma_failed_prefix(a, b, n - 1);
        lemma_markers_prefix(a, b, n - 1);
    }
}

/// Entries that hold no status add no failure.
proof fn lemma_failed_over_status_free(entries: Seq<EvaluationOutputView>, from: int, to: int)
    requires
        0 <= from <= to <= entries.len(),
        forall|i: int| from <= i < to ==> !(#[trigger] entries[i] is Status),
    ensures
        failed_before(entries, to) == failed_before(entries, from),
    decreases to - from,
{
    if from < to {
        lemma_failed_over_status_free(entries, from, to - 1);
        assert(!(entries[to - 1] is Status));
    }
}

/// A marker stays the latest one over entries that hold no marker of its
/// kind.
proof fn lemma_latest_transaction(
    entries: Seq<EvaluationOutputView>,
    at: int,
    end: int,
    idx: TransactionId,
)
    requires
        0 <= at < end <= entries.len(),
        entries[at] == EvaluationOutputView::Transaction(idx),
        forall|i: int| at < i < end ==> !(#[trigger] entries[i] is Transaction),
    ensures
        last_transaction(entries, end) == Some(idx),
    decreases end - at,
{
    if at + 1 < end {
        lemma_latest_transaction(entries, at, end - 1, idx);
        assert(!(entries[end - 1] is Transaction));
    }
}

proof fn lemma_latest_stage(entries: Seq<EvaluationOutputView>, at: int, end: int, stage: Stage)
    requires
        0 <= at < end <= entries.len(),
        entries[at] == EvaluationOutputView::Stage(stage),
        forall|i: int| at < i < end ==> !(#[trigger] entries[i] is Stage),
    ensures
        last_stage(entries, end) == Some(stage),
    decreases end - at,
{
    if at + 1 < end {
        lemma_latest_stage(entries, at, end - 1, stage);
        assert(!(entries[end - 1] is Stage));
    }
}

/// What a stage writes after its marker holds no marker.
proof fn lemma_stage_outputs_hold_no_marker(obs: Observation, stage: Stage)
    ensures
        forall|i: int|
            0 <= i < obs.stage_outputs(stage).len() ==> !(#[trigger] obs.stage_outputs(
                stage,
            )[i] is Stage) && !(obs.stage_outputs(stage)[i] is Transaction),
{
    let outputs = obs.stage_outputs(stage);
    assert forall|i: int| 0 <= i < outputs.len() implies !(#[trigger] outputs[i] is Stage) && !(
    outputs[i] is Transaction) by {
        if stage == Stage::Compiler {
            let lines = compiler_lines(obs.compiler_log);
            if i < lines.len() {
                assert(outputs[i] == lines[i]);
            }
        }
    }
}

/// The entries of a stage hold no `Transaction` marker.
proof fn lemma_stage_entries_hold_no_transaction(
    obs: Observation,
    disabled: Set<Stage>,
    stage: Stage,
)
    ensures
        forall|i: int|
            0 <= i < obs.stage_entries(disabled, stage).len() ==> !(#[trigger] obs.stage_entries(
                disabled,
                stage,
            )[i] is Transaction),
{
    lemma_stage_outputs_hold_no_marker(obs, stage);
    let entries = obs.stage_entries(disabled, stage);
    let outputs = obs.stage_outputs(stage);
    assert forall|i: int| 0 <= i < entries.len() implies !(#[trigger] entries[i] is Transaction) by {
        if i > 0 {
            assert(entries[i] == outputs[i - 1]);
        }
    }
}

/// The entries of a transaction command that fails end with the entries of
/// the stage that failed: nothing is written after them.
proof fn lemma_failed_command_ends_with_stage(
    idx: TransactionId,
    disabled: Set<Stage>,
    obs: Observation,
    stage: Stage,
) -> (before: Seq<EvaluationOutputView>)
    requires
        obs.failing_stage(disabled) == Some(stage),
    ensures
        transaction_entries(idx, disabled, obs) == before + obs.stage_entries(disabled, stage),
        obs.reaches(disabled, stage),
        before.len() >= 1,
        before[0] == EvaluationOutputView::Transaction(idx),
        forall|i: int| 1 <= i < before.len() ==> !(#[trigger] before[i] is Transaction),
{
    let head = seq![EvaluationOutputView::Transaction(idx)];
    let c = obs.stage_entries(disabled, Stage::Compiler);
    let v = obs.stage_entries(disabled, Stage::Verifier);
    let s = obs.stage_entries(disabled, Stage::Serializer);
    let r = obs.stage_entries(disabled, Stage::Runtime);
    lemma_stage_entries_hold_no_transaction(obs, disabled, Stage::Compiler);
    lemma_stage_entries_hold_no_transaction(obs, disabled, Stage::Verifier);
    lemma_stage_entries_hold_no_transaction(obs, disabled, Stage::Serializer);
    let before = match stage {
        Stage::Compiler => head,
        Stage::Verifier => head + c,
        Stage::Serializer => head + c + v,
        Stage::Runtime => head + c + v + s,
    };
    match stage {
        Stage::Compiler => {
            assert(v =~= Seq::empty());
            assert(s =~= Seq::empty());
            assert(r =~= Seq::empty());
            assert(transaction_entries(idx, disabled, obs) =~= before + c);
        },
        Stage::Verifier => {
            assert(s =~= Seq::empty());
            assert(r =~= Seq::empty());
            assert(transaction_entries(idx, disabled, obs) =~= before + v);
        },
        Stage::Serializer => {
            assert(r =~= Seq::empty());
            assert(transaction_entries(idx, disabled, obs) =~= before + s);
        },
        Stage::Runtime => {
            assert(transaction_entries(idx, disabled, obs) =~= before + r);
        },
    }
    assert forall|i: int| 1 <= i < before.len() implies !(#[trigger] before[i] is Transaction) by {
        if i < 1 + c.len() {
            assert(before[i] == c[i - 1]);
        } else if i < 1 + c.len() + v.len() {
            assert(before[i] == v[i - 1 - c.len()]);
        } else {
            assert(before[i] == s[i - 1 - c.len() - v.len()]);
        }
    }
    before
}

/// When a transaction command fails, the latest markers at its status are
/// its own index and the stage that failed.
proof fn lemma_markers_of_a_failed_command(
    earlier: Seq<EvaluationOutputView>,
    idx: TransactionId,
    disabled: Set<Stage>,
    obs: Observation,
    stage: Stage,
    rest: Seq<EvaluationOutputView>,
)
    requires
        obs.failing_stage(disabled) == Some(stage),
    ensures
        ({
            let entries = transaction_entries(idx, disabled, obs);
            let whole = earlier + entries + rest;
            let end = (earlier.len() + entries.len()) as int;
            last_transaction(whole, end) == Some(idx) && last_stage(whole, end) == Some(stage)
        }),
{
    let entries = transaction_entries(idx, disabled, obs);
    let whole = earlier + entries + rest;
    let end = (earlier.len() + entries.len()) as int;
    let before = lemma_failed_command_ends_with_stage(idx, disabled, obs, stage);
    let own = obs.stage_entries(disabled, stage);
    let outputs = obs.stage_outputs(stage);
    lemma_stage_entries_hold_no_transaction(obs, disabled, stage);
    lemma_stage_outputs_hold_no_marker(obs, stage);
    assert(entries.len() == before.len() + own.len());
    assert(own.len() == 1 + outputs.len());
    let first = earlier.len() as int;
    assert(whole[first] == entries[0]);
    assert(entries[0] == before[0]);
    assert forall|i: int| first < i < end implies !(#[trigger] whole[i] is Transaction) by {
        assert(whole[i] == entries[i - first]);
        if i - first < before.len() {
            assert(entries[i - first] == before[i - first]);
        } else {
            assert(entries[i - first] == own[i - first - before.len()]);
        }
    }
    lemma_latest_transaction(whole, first, end, idx);
    let marker = first + before.len();
    assert(whole[marker] == entries[before.len() as int]);
    assert(entries[before.len() as int] == own[0]);
    assert forall|i: int| marker < i < end implies !(#[trigger] whole[i] is Stage) by {
        assert(whole[i] == entries[i - first]);
        assert(entries[i - first] == own[i - marker]);
        assert(own[i - marker] == outputs[i - marker - 1]);
    }
    lemma_latest_stage(whole, marker, end, stage);
}

/// The failure that the command at position `idx` adds to the failures of
/// a run: its index and the stage that failed, when it is a transaction
/// that fails.
pub open spec fn command_failure(idx: TransactionId, command: Command, obs: CommandObservation) -> Seq<
    (TransactionId, Stage),
> {
    match command {
        Command::Transaction(transaction) => match obs.transaction.failing_stage(
            transaction.config.disabled(),
        ) {
            Some(stage) => seq![(idx, stage)],
            None => Seq::empty(),
        },
        Command::BlockMetadata(_) => Seq::empty(),
    }
}

/// The failed transaction commands among the first `n` commands of a run,
/// in command order, each with the stage that failed.
pub open spec fn run_failures(commands: Seq<Command>, trace: Seq<CommandObservation>, n: int) -> Seq<
    (TransactionId, Stage),
>
    decreases n,
{
    if n <= 0 {
        Seq::empty()
    } else {
        run_failures(commands, trace, n - 1) + command_failure(
            (n - 1) as usize,
            commands[n - 1],
            trace[n - 1],
        )
    }
}

/// Whether no block-metadata command among the first `n` commands fails.
pub open spec fn blocks_succeed(commands: Seq<Command>, trace: Seq<CommandObservation>, n: int) -> bool {
    forall|i: int|
        0 <= i < n && #[trigger] commands[i] is BlockMetadata ==> command_status(
            commands[i],
            trace[i],
        ) == Status::Success
}

/// Failure extraction on the log of a run: when no block-metadata command
/// fails, every `Failure` status in the log has its markers, and the
/// failed transactions of the log are exactly the transaction commands
/// that failed, in command order, each with its own index and the stage
/// that failed. This holds whatever the collaborators answer.
pub proof fn lemma_failed_transactions_of_a_run(
    commands: Seq<Command>,
    trace: Seq<CommandObservation>,
    n: int,
)
    requires
        0 <= n <= commands.len(),
        blocks_succeed(commands, trace, n),
    ensures
        failures_marked(run_entries(commands, trace, n)),
        failed_transactions(run_entries(commands, trace, n)) == run_failures(commands, trace, n),
    decreases n,
{
    if n > 0 {
        lemma_failed_transactions_of_a_run(commands, trace, n - 1);
        let idx = (n - 1) as usize;
        let command = commands[n - 1];
        let obs = trace[n - 1];
        let earlier = run_entries(commands, trace, n - 1);
        let entries = command_entries(idx, command, obs);
        let status = command_status(command, obs);
        let close = seq![EvaluationOutputView::Status(status)];
        let whole = run_entries(commands, trace, n);
        assert(whole =~= earlier + entries + close);
        let first = earlier.len() as int;
        let end = first + entries.len();
        assert(whole.len() == end + 1);
        assert(whole[end] == close[0]);
        lemma_command_entries_status_free(idx, command, obs);
        assert forall|i: int| first <= i < end implies !(#[trigger] whole[i] is Status) by {
            assert(whole[i] == entries[i - first]);
        }
        lemma_failed_prefix(whole, earlier, first);
        lemma_failed_over_status_free(whole, first, end);
        assert(failed_before(whole, end) == failed_transactions(earlier));
        if status == Status::Failure {
            assert(command is Transaction);
            let transaction = command->Transaction_0;
            let disabled = transaction.config.disabled();
            let stage = obs.transaction.failing_stage(disabled)->0;
            lemma_markers_of_a_failed_command(
                earlier,
                idx,
                disabled,
                obs.transaction,
                stage,
                close,
            );
            assert(failure_pair(whole, end) == (idx, stage));
            assert(failed_transactions(whole) =~= run_failures(commands, trace, n));
        } else {
            assert(!is_failure_at(whole, end));
            match command {
                Command::Transaction(transaction) => {
                    assert(obs.transaction.failing_stage(transaction.config.disabled()) is None);
                },
                Command::BlockMetadata(_) => {},
            }
            assert(failed_transactions(whole) =~= run_failures(commands, trace, n));
        }
        assert forall|at: int| #[trigger] is_failure_at(whole, at) implies last_transaction(
            whole,
            at,
        ) is Some && last_stage(whole, at) is Some by {
            if at < first {
                assert(whole[at] == earlier[at]);
                assert(is_failure_at(earlier, at));
                lemma_markers_prefix(whole, earlier, at);
            } else {
                assert(at == end);
            }
        }
    } else {
        assert(failed_transactions(run_entries(commands, trace, n)) =~= run_failures(
            commands,
            trace,
            n,
        ));
    }
}

} // verus!
