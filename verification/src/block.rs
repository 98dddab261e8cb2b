//! The block-metadata evaluator: executes the metadata that opens a block
//! as a transaction of its own kind.

use vstd::prelude::*;
use crate::capability::Executor;
use crate::errors::{Error, ErrorView};
use crate::log::{EvaluationLog, EvaluationOutput, EvaluationOutputView, OutputType};
use crate::model::{block_classified, block_entries, block_status};
use crate::pipeline::{
    applied_through,
    outcome_view,
    single_output,
    write_set_to_apply,
    OUTPUT_COUNT_MESSAGE,
};
use crate::stage::Status;
use crate::transaction::{BlockMetadata, LedgerTransaction};
use crate::types::{TransactionOutput, TransactionOutputView, TransactionStatus, VMStatus};

verus! {

/// How the result of executing a block-metadata transaction is classified.
///
/// * The environment failed: a generic error with its message, recorded.
/// * Not exactly one output: an invariant of the harness is broken and the
///   run must stop.
/// * The one output is kept: the output, a success.
/// * The one output is discarded: a verification error with the status
///   code of the discard, recorded.
///
/// The outer `Err` is the fatal case.
pub open spec fn block_outcome(
    result: Result<Seq<(VMStatus, TransactionOutput)>, Seq<char>>,
) -> Result<Result<TransactionOutputView, ErrorView>, ErrorView> {
    match result {
        Err(message) => Ok(Err(ErrorView::Other(message))),
        Ok(outputs) => if outputs.len() != 1 {
            Err(ErrorView::InternalInvariantViolation(OUTPUT_COUNT_MESSAGE@))
        } else {
            match outputs[0].1@.status {
                TransactionStatus::Keep(_) => Ok(Ok(outputs[0].1@)),
                TransactionStatus::Discard(code) => Ok(
                    Err(ErrorView::VerificationError(VMStatus::Error(code))),
                ),
            }
        },
    }
}

/// The mathematical value of what an environment answers to a block.
pub open spec fn block_result_view(
    result: Result<Vec<(VMStatus, TransactionOutput)>, String>,
) -> Result<Seq<(VMStatus, TransactionOutput)>, Seq<char>> {
    match result {
        Ok(outputs) => Ok(outputs@),
        Err(message) => Err(message@),
    }
}

/// Classifies the result of executing a block-metadata transaction.
pub fn classify_block_result(result: Result<Vec<(VMStatus, TransactionOutput)>, String>) -> (r:
    Result<Result<TransactionOutput, Error>, Error>)
    ensures
        outcome_view(r) == block_outcome(block_result_view(result)),
        r matches Ok(Ok(output)) ==> result matches Ok(outputs) && output == outputs@[0].1,
{
    match result {
        Ok(outputs) => {
            let (_vm_status, output) = single_output(outputs)?;
            match output.status {
                TransactionStatus::Keep(_status) => Ok(Ok(output)),
                TransactionStatus::Discard(status) => Ok(
                    Err(Error::VerificationError(VMStatus::Error(status))),
                ),
            }
        },
        Err(message) => Ok(Err(Error::Other(message))),
    }
}

/// Whether the log grew from `before` to `after` by exactly what a
/// block-metadata command with the classified `outcome` writes, and whether
/// `status` is the status that follows from it.
pub open spec fn block_recorded(
    before: Seq<EvaluationOutputView>,
    after: Seq<EvaluationOutputView>,
    outcome: Result<TransactionOutputView, ErrorView>,
    status: Status,
) -> bool {
    &&& after == before + block_entries(outcome)
    &&& status == block_status(outcome)
    &&& block_classified(outcome)
}

/// Whether the log grew from `before` to `after`, and `r` came out, as
/// follows from what the environment answered to a block-metadata
/// transaction: nothing is logged when the answer is fatal, and otherwise
/// the entry and the status of the classified outcome.
pub open spec fn block_answer_recorded(
    answer: Result<Vec<(VMStatus, TransactionOutput)>, String>,
    before: Seq<EvaluationOutputView>,
    after: Seq<EvaluationOutputView>,
    r: Result<Status, Error>,
) -> bool {
    match block_outcome(block_result_view(answer)) {
        Err(violation) => r matches Err(e) && e@ == violation && after == before,
        Ok(outcome) => r matches Ok(status) && block_recorded(before, after, outcome, status),
    }
}

/// Executes a block-metadata transaction through the environment,
/// records the result in `log`, and also shows what the environment
/// answered.
pub(crate) fn eval_block_metadata_traced<E: Executor>(
    executor: &mut E,
    block_metadata: BlockMetadata,
    log: &mut EvaluationLog,
) -> (r: (Result<Status, Error>, Ghost<Result<Vec<(VMStatus, TransactionOutput)>, String>>))
    ensures
        block_answer_recorded(r.1@, old(log)@, final(log)@, r.0),
        exists|run: &mut E, block: Vec<LedgerTransaction>, apply: &mut E|
            {
                &&& mut_ref_current(run) == *old(executor)
                &&& block@ == seq![LedgerTransaction::BlockMetadata(block_metadata)]
                &&& #[trigger] call_ensures(E::execute_transaction_block, (run, block), r.1@)
                &&& #[trigger] applied_through(apply, mut_ref_future(run), write_set_to_apply(r.1@))
                &&& *final(executor) == if write_set_to_apply(r.1@) is Some {
                    mut_ref_future(apply)
                } else {
                    mut_ref_future(run)
                }
            },
{
    let mut block: Vec<LedgerTransaction> = Vec::new();
    block.push(LedgerTransaction::BlockMetadata(block_metadata));
    assert(block@ =~= seq![LedgerTransaction::BlockMetadata(block_metadata)]);
    let ghost sent = block;
    let answer = executor.execute_transaction_block(block);
    let ghost middle = *executor;
    let ghost run = choose|run: &mut E|
        mut_ref_current(run) == *old(executor) && mut_ref_future(run) == middle
            && #[trigger] call_ensures(E::execute_transaction_block, (run, sent), answer);
    let ghost shown = answer;
    let classified = classify_block_result(answer);
    assert(outcome_view(classified) == block_outcome(block_result_view(shown)));
    let outcome = match classified {
        Ok(outcome) => outcome,
        Err(e) => {
            assert(write_set_to_apply(shown) is None);
            assert(applied_through(run, middle, write_set_to_apply(shown)));
            let r = (Err(e), Ghost(shown));
            assert(r.1@ == shown);
            assert(block_answer_recorded(shown, old(log)@, log@, r.0));
            return r;
        },
    };
    match outcome {
        Ok(output) => {
            executor.apply_write_set(&output.write_set);
            let ghost apply = choose|apply: &mut E|
                mut_ref_current(apply) == middle && mut_ref_future(apply) == *executor
                    && #[trigger] call_ensures(E::apply_write_set, (apply, &output.write_set), ());
            assert(write_set_to_apply(shown) == Some(output.write_set));
            assert(applied_through(apply, middle, write_set_to_apply(shown)));
            let ghost outcome: Result<TransactionOutputView, ErrorView> = Ok(output@);
            log.append(EvaluationOutput::Output(OutputType::TransactionOutput(Box::new(output))));
            assert(log@ =~= old(log)@ + block_entries(outcome));
            let r = (Ok(Status::Success), Ghost(shown));
            assert(r.1@ == shown);
            assert(block_recorded(old(log)@, log@, outcome, r.0->Ok_0));
            assert(block_answer_recorded(shown, old(log)@, log@, r.0));
            r
        },
        Err(e) => {
            assert(write_set_to_apply(shown) is None);
            assert(applied_through(run, middle, write_set_to_apply(shown)));
            let ghost outcome: Result<TransactionOutputView, ErrorView> = Err(e@);
            log.append(EvaluationOutput::Error(Box::new(e)));
            assert(log@ =~= old(log)@ + block_entries(outcome));
            let r = (Ok(Status::Failure), Ghost(shown));
            assert(r.1@ == shown);
            assert(block_recorded(old(log)@, log@, outcome, r.0->Ok_0));
            assert(block_answer_recorded(shown, old(log)@, log@, r.0));
            r
        },
    }
}

/// Executes a block-metadata transaction through the environment and
/// records the result in `log`.
///
/// The metadata is executed as a block of its own. When the one output is
/// kept, its write set is applied and the output is logged: a success.
/// When it is discarded, a verification error is logged: a failure. When the
/// environment fails, its message is logged as a generic error: a failure.
/// `Err` is fatal for the whole run: the block did not come back with
/// exactly one output, and the log is as it was.
///
/// The last clause ties the log, the result and the environment to the
/// calls that are made: the environment as it was is asked to execute the
/// block, the log and the result follow from its answer, and the
/// environment as it is afterwards comes from applying the write set to
/// what the execution left, or is what the execution left when nothing is
/// applied.
pub fn eval_block_metadata<E: Executor>(
    executor: &mut E,
    block_metadata: BlockMetadata,
    log: &mut EvaluationLog,
) -> (r: Result<Status, Error>)
    ensures
        r matches Ok(status) ==> exists|outcome: Result<TransactionOutputView, ErrorView>|
            #[trigger] block_recorded(old(log)@, final(log)@, outcome, status),
        r matches Err(e) ==> final(log)@ == old(log)@ && e@
            == ErrorView::InternalInvariantViolation(OUTPUT_COUNT_MESSAGE@),
        exists|
            run: &mut E,
            block: Vec<LedgerTransaction>,
            answer: Result<Vec<(VMStatus, TransactionOutput)>, String>,
            apply: &mut E,
        |
            {
                &&& mut_ref_current(run) == *old(executor)
                &&& block@ == seq![LedgerTransaction::BlockMetadata(block_metadata)]
                &&& #[trigger] call_ensures(E::execute_transaction_block, (run, block), answer)
                &&& block_answer_recorded(answer, old(log)@, final(log)@, r)
                &&& #[trigger] applied_through(
                    apply,
                    mut_ref_future(run),
                    write_set_to_apply(answer),
                )
                &&& *final(executor) == if write_set_to_apply(answer) is Some {
                    mut_ref_future(apply)
                } else {
                    mut_ref_future(run)
                }
            },
{
    let (r, _) = eval_block_metadata_traced(executor, block_metadata, log);
    r
}

} // verus!
