//! The work of the single stages: verifying a unit, sending it through the
//! serializer and back, and running a transaction and classifying what
//! comes of it.

use vstd::prelude::*;
use crate::bytecode::{CompiledModule, CompiledScript, CompiledUnitView};
use crate::capability::{BytecodeSerializer, BytecodeVerifier, Executor};
use crate::errors::{Error, ErrorView};
use crate::transaction::SignedUserTransaction;
use crate::types::{
    KeptVMStatus,
    TransactionOutput,
    TransactionOutputView,
    TransactionStatus,
    VMStatus,
    WriteSet,
};

verus! {

/// Whether `verdict` is a verdict that the verifier can give on `script`
/// with the dependencies `deps`: the failure of the check of the script on
/// its own, or, when that check passes, the answer of the linkage check.
pub open spec fn script_verification<V: BytecodeVerifier>(
    verifier: &V,
    script: &CompiledScript,
    deps: &Vec<CompiledModule>,
    verdict: Result<(), VMStatus>,
) -> bool {
    ||| verdict is Err && call_ensures(V::verify_script, (verifier, script), verdict)
    ||| call_ensures(V::verify_script, (verifier, script), Ok::<(), VMStatus>(()))
        && call_ensures(V::verify_script_dependencies, (verifier, script, deps), verdict)
}

/// Whether `verdict` is a verdict that the verifier can give on `module`
/// with the dependencies `deps`: the failure of the check of the module on
/// its own, or, when that check passes, the answer of the linkage check.
pub open spec fn module_verification<V: BytecodeVerifier>(
    verifier: &V,
    module: &CompiledModule,
    deps: &Vec<CompiledModule>,
    verdict: Result<(), VMStatus>,
) -> bool {
    ||| verdict is Err && call_ensures(V::verify_module, (verifier, module), verdict)
    ||| call_ensures(V::verify_module, (verifier, module), Ok::<(), VMStatus>(()))
        && call_ensures(V::verify_module_dependencies, (verifier, module, deps), verdict)
}

/// Verify a script with its dependencies: first on its own, then its
/// linkage against `deps`. The script is handed back when both checks
/// pass, and the status of the first check that fails otherwise.
pub fn verify_script<V: BytecodeVerifier>(
    verifier: &V,
    script: CompiledScript,
    deps: &Vec<CompiledModule>,
) -> (r: Result<CompiledScript, VMStatus>)
    ensures
        match r {
            Ok(verified) => verified == script && script_verification(
                verifier,
                &script,
                deps,
                Ok(()),
            ),
            Err(status) => script_verification(verifier, &script, deps, Err(status)),
        },
{
    verifier.verify_script(&script)?;
    verifier.verify_script_dependencies(&script, deps)?;
    Ok(script)
}

/// Verify a module with its dependencies: first on its own, then its
/// linkage against `deps`. The module is handed back when both checks
/// pass, and the status of the first check that fails otherwise.
pub fn verify_module<V: BytecodeVerifier>(
    verifier: &V,
    module: CompiledModule,
    deps: &Vec<CompiledModule>,
) -> (r: Result<CompiledModule, VMStatus>)
    ensures
        match r {
            Ok(verified) => verified == module && module_verification(
                verifier,
                &module,
                deps,
                Ok(()),
            ),
            Err(status) => module_verification(verifier, &module, deps, Err(status)),
        },
{
    verifier.verify_module(&module)?;
    verifier.verify_module_dependencies(&module, deps)?;
    Ok(module)
}

/// Whether `verdict` is the verdict on a unit of value `unit` that came
/// back from the serializer as `back`: the round trip passes exactly when
/// a unit came back and it equals `unit`. A different unit is a mismatch;
/// a failure to read the bytes back is handed on.
pub open spec fn round_trip_verdict(
    unit: CompiledUnitView,
    back: Result<CompiledUnitView, Error>,
    verdict: Result<(), Error>,
) -> bool {
    match back {
        Ok(read) => if read == unit {
            verdict is Ok
        } else {
            verdict matches Err(e) && e@ == ErrorView::SerializationMismatch
        },
        Err(failure) => verdict == Err::<(), Error>(failure),
    }
}

/// What came back from reading a script, by value.
pub open spec fn script_read(deserialized: Result<CompiledScript, Error>) -> Result<
    CompiledUnitView,
    Error,
> {
    match deserialized {
        Ok(script) => Ok(script@),
        Err(e) => Err(e),
    }
}

/// What came back from reading a module, by value.
pub open spec fn module_read(deserialized: Result<CompiledModule, Error>) -> Result<
    CompiledUnitView,
    Error,
> {
    match deserialized {
        Ok(module) => Ok(module@),
        Err(e) => Err(e),
    }
}

/// The verdict on a script that went through the serializer and came back
/// as `deserialized`: see [`round_trip_verdict`].
pub fn script_round_trip_verdict(
    script: &CompiledScript,
    deserialized: Result<CompiledScript, Error>,
) -> (r: Result<(), Error>)
    ensures
        round_trip_verdict(script@, script_read(deserialized), r),
{
    let back = deserialized?;
    if *script != back {
        return Err(Error::SerializationMismatch);
    }
    Ok(())
}

/// The verdict on a module that went through the serializer and came back
/// as `deserialized`: see [`round_trip_verdict`].
pub fn module_round_trip_verdict(
    module: &CompiledModule,
    deserialized: Result<CompiledModule, Error>,
) -> (r: Result<(), Error>)
    ensures
        round_trip_verdict(module@, module_read(deserialized), r),
{
    let back = deserialized?;
    if *module != back {
        return Err(Error::SerializationMismatch);
    }
    Ok(())
}

/// Whether `verdict` is a verdict that the round trip of `script` through
/// the serializer can end with: the failure to serialize it, or the
/// verdict on what deserializing the bytes gave.
pub open spec fn script_round_trip<S: BytecodeSerializer>(
    serializer: &S,
    script: &CompiledScript,
    verdict: Result<(), Error>,
) -> bool {
    ||| verdict matches Err(e) && call_ensures(
        S::serialize_script,
        (serializer, script),
        Err::<Vec<u8>, Error>(e),
    )
    ||| exists|blob: Vec<u8>, back: Result<CompiledScript, Error>|
        call_ensures(S::serialize_script, (serializer, script), Ok::<Vec<u8>, Error>(blob))
            && #[trigger] call_ensures(S::deserialize_script, (serializer, &blob), back)
            && round_trip_verdict(script@, script_read(back), verdict)
}

/// Whether `verdict` is a verdict that the round trip of `module` through
/// the serializer can end with: the failure to serialize it, or the
/// verdict on what deserializing the bytes gave.
pub open spec fn module_round_trip<S: BytecodeSerializer>(
    serializer: &S,
    module: &CompiledModule,
    verdict: Result<(), Error>,
) -> bool {
    ||| verdict matches Err(e) && call_ensures(
        S::serialize_module,
        (serializer, module),
        Err::<Vec<u8>, Error>(e),
    )
    ||| exists|blob: Vec<u8>, back: Result<CompiledModule, Error>|
        call_ensures(S::serialize_module, (serializer, module), Ok::<Vec<u8>, Error>(blob))
            && #[trigger] call_ensures(S::deserialize_module, (serializer, &blob), back)
            && round_trip_verdict(module@, module_read(back), verdict)
}

/// Serializes the script then deserializes it, and checks that what comes
/// back equals `script`.
pub fn serialize_and_deserialize_script<S: BytecodeSerializer>(
    serializer: &S,
    script: &CompiledScript,
) -> (r: Result<(), Error>)
    ensures
        script_round_trip(serializer, script, r),
{
    let script_blob = serializer.serialize_script(script)?;
    let deserialized_script = serializer.deserialize_script(&script_blob);
    script_round_trip_verdict(script, deserialized_script)
}

/// Serializes the module then deserializes it, and checks that what comes
/// back equals `module`.
pub fn serialize_and_deserialize_module<S: BytecodeSerializer>(
    serializer: &S,
    module: &CompiledModule,
) -> (r: Result<(), Error>)
    ensures
        module_round_trip(serializer, module, r),
{
    let module_blob = serializer.serialize_module(module)?;
    let deserialized_module = serializer.deserialize_module(&module_blob);
    module_round_trip_verdict(module, deserialized_module)
}

/// What is reported when a block of one transaction does not come back
/// with exactly one output.
pub const OUTPUT_COUNT_MESSAGE: &'static str = "transaction outputs size mismatch";

/// What is reported when a discarded transaction carries mutations.
pub const DISCARD_WRITE_SET_MESSAGE: &'static str = "discarded transaction has a non-empty write set";

/// The one output of a block that held one transaction. Any other number
/// of outputs breaks an invariant of the harness.
pub fn single_output(mut outputs: Vec<(VMStatus, TransactionOutput)>) -> (r: Result<
    (VMStatus, TransactionOutput),
    Error,
>)
    ensures
        match r {
            Ok(pair) => outputs@.len() == 1 && pair == outputs@[0],
            Err(e) => outputs@.len() != 1 && e@ == ErrorView::InternalInvariantViolation(
                OUTPUT_COUNT_MESSAGE@,
            ),
        },
{
    if outputs.len() == 1 {
        match outputs.pop() {
            Some(pair) => Ok(pair),
            None => Err(Error::InternalInvariantViolation(OUTPUT_COUNT_MESSAGE.to_owned())),
        }
    } else {
        Err(Error::InternalInvariantViolation(OUTPUT_COUNT_MESSAGE.to_owned()))
    }
}

/// How the outcome of executing one user transaction is classified.
///
/// * Kept and fully executed: the output, a success.
/// * Kept but not fully executed: an execution failure, recorded.
/// * Discarded with an empty write set: a discarded transaction, recorded.
/// * Discarded with mutations: an invariant of the harness is broken and
///   the run must stop.
///
/// The outer `Err` is the fatal case.
pub open spec fn execution_outcome(vm_status: VMStatus, output: TransactionOutputView) -> Result<
    Result<TransactionOutputView, ErrorView>,
    ErrorView,
> {
    match output.status {
        TransactionStatus::Keep(kept) => if kept == KeptVMStatus::Executed {
            Ok(Ok(output))
        } else {
            Ok(Err(ErrorView::ExecutionFailure(vm_status, output)))
        },
        TransactionStatus::Discard(_) => if output.write_set.len() == 0 {
            Ok(Err(ErrorView::DiscardedTransaction(output)))
        } else {
            Err(ErrorView::InternalInvariantViolation(DISCARD_WRITE_SET_MESSAGE@))
        },
    }
}

/// The mathematical value of a classified outcome.
pub open spec fn outcome_view(r: Result<Result<TransactionOutput, Error>, Error>) -> Result<
    Result<TransactionOutputView, ErrorView>,
    ErrorView,
> {
    match r {
        Ok(Ok(output)) => Ok(Ok(output@)),
        Ok(Err(e)) => Ok(Err(e@)),
        Err(e) => Err(e@),
    }
}

/// Classifies the outcome of executing one user transaction.
pub fn classify_output(vm_status: VMStatus, output: TransactionOutput) -> (r: Result<
    Result<TransactionOutput, Error>,
    Error,
>)
    ensures
        outcome_view(r) == execution_outcome(vm_status, output@),
{
    match output.status {
        TransactionStatus::Keep(status) => {
            if status == KeptVMStatus::Executed {
                Ok(Ok(output))
            } else {
                Ok(Err(Error::ExecutionFailure(vm_status, output)))
            }
        },
        TransactionStatus::Discard(_status) => {
            if output.write_set.is_empty() {
                Ok(Err(Error::DiscardedTransaction(output)))
            } else {
                Err(Error::InternalInvariantViolation(DISCARD_WRITE_SET_MESSAGE.to_owned()))
            }
        },
    }
}

/// Whether the effects of `output` are to be applied to the environment:
/// they are exactly when the transaction is kept.
pub fn keeps_effects(output: &TransactionOutput) -> (r: bool)
    ensures
        r == (output@.status is Keep),
{
    match output.status {
        TransactionStatus::Keep(_) => true,
        TransactionStatus::Discard(_) => false,
    }
}

/// Whether `outcome` is a classification of some execution output.
pub open spec fn is_classified(
    outcome: Result<Result<TransactionOutputView, ErrorView>, ErrorView>,
) -> bool {
    exists|vm_status: VMStatus, output: TransactionOutputView|
        outcome == #[trigger] execution_outcome(vm_status, output)
}

/// The result of running one transaction that follows from what the
/// environment answered to its block: the message of the environment's
/// error and a wrong number of outputs are fatal; one output is
/// classified.
pub open spec fn run_outcome(
    answer: Result<Vec<(VMStatus, TransactionOutput)>, String>,
    r: Result<Result<TransactionOutput, Error>, Error>,
) -> bool {
    match answer {
        Err(message) => r matches Err(e) && e == Error::Other(message),
        Ok(outputs) => if outputs@.len() != 1 {
            r matches Err(e) && e@ == ErrorView::InternalInvariantViolation(OUTPUT_COUNT_MESSAGE@)
        } else {
            outcome_view(r) == execution_outcome(outputs@[0].0, outputs@[0].1@)
        },
    }
}

/// The write set that is applied after a block of one transaction was
/// answered with `answer`: that of the one output, when it is kept.
pub open spec fn write_set_to_apply(
    answer: Result<Vec<(VMStatus, TransactionOutput)>, String>,
) -> Option<WriteSet> {
    match answer {
        Ok(outputs) => if outputs@.len() == 1 && outputs@[0].1.status is Keep {
            Some(outputs@[0].1.write_set)
        } else {
            None
        },
        Err(_) => None,
    }
}

/// Whether the call that applies `write_set`, if there is one to apply, is
/// made through `apply` on the environment in the state `state`.
pub open spec fn applied_through<E: Executor>(
    apply: &mut E,
    state: E,
    write_set: Option<WriteSet>,
) -> bool {
    write_set matches Some(mutations) ==> mut_ref_current(apply) == state && call_ensures(
        E::apply_write_set,
        (apply, &mutations),
        (),
    )
}

/// Runs a single transaction and also shows what the environment answered
/// to its block.
pub(crate) fn run_and_show<E: Executor>(exec: &mut E, transaction: SignedUserTransaction) -> (r: (
    Result<Result<TransactionOutput, Error>, Error>,
    Ghost<Result<Vec<(VMStatus, TransactionOutput)>, String>>,
))
    ensures
        run_outcome(r.1@, r.0),
        exists|run: &mut E, block: Vec<SignedUserTransaction>, apply: &mut E|
            {
                &&& mut_ref_current(run) == *old(exec)
                &&& block@ == seq![transaction]
                &&& #[trigger] call_ensures(E::execute_block, (run, block), r.1@)
                &&& #[trigger] applied_through(apply, mut_ref_future(run), write_set_to_apply(r.1@))
                &&& *final(exec) == if write_set_to_apply(r.1@) is Some {
                    mut_ref_future(apply)
                } else {
                    mut_ref_future(run)
                }
            },
{
    let mut block: Vec<SignedUserTransaction> = Vec::new();
    block.push(transaction);
    assert(block@ =~= seq![transaction]);
    let ghost sent = block;
    let answer = exec.execute_block(block);
    let ghost shown = answer;
    let ghost middle = *exec;
    let ghost run = choose|run: &mut E|
        mut_ref_current(run) == *old(exec) && mut_ref_future(run) == middle
            && #[trigger] call_ensures(E::execute_block, (run, sent), answer);
    let outputs = match answer {
        Ok(outputs) => outputs,
        Err(message) => {
            let r = (Err(Error::Other(message)), Ghost(shown));
            assert(r.1@ == shown);
            assert(run_outcome(shown, r.0));
            assert(applied_through(run, middle, write_set_to_apply(shown)));
            return r;
        },
    };
    let (vm_status, output) = match single_output(outputs) {
        Ok(pair) => pair,
        Err(e) => {
            let r = (Err(e), Ghost(shown));
            assert(r.1@ == shown);
            assert(run_outcome(shown, r.0));
            assert(applied_through(run, middle, write_set_to_apply(shown)));
            return r;
        },
    };
    if keeps_effects(&output) {
        exec.apply_write_set(&output.write_set);
        let ghost apply = choose|apply: &mut E|
            mut_ref_current(apply) == middle && mut_ref_future(apply) == *exec
                && #[trigger] call_ensures(E::apply_write_set, (apply, &output.write_set), ());
        assert(write_set_to_apply(shown) == Some(output.write_set));
        assert(applied_through(apply, middle, write_set_to_apply(shown)));
        let r = (classify_output(vm_status, output), Ghost(shown));
        assert(r.1@ == shown);
        assert(run_outcome(shown, r.0));
        r
    } else {
        assert(write_set_to_apply(shown) is None);
        assert(applied_through(run, middle, write_set_to_apply(shown)));
        let r = (classify_output(vm_status, output), Ghost(shown));
        assert(r.1@ == shown);
        assert(run_outcome(shown, r.0));
        r
    }
}

/// Runs a single transaction using the execution environment.
///
/// The transaction is executed as a block of its own. The write set of a
/// kept transaction is applied to the environment. The result is the
/// classification of the one output: see [`execution_outcome`]. The run
/// must stop (outer `Err`) when the environment fails to execute the
/// block, when the block does not come back with exactly one output, or
/// when a discarded transaction carries mutations.
///
/// The last clause ties the result and the environment to the calls that
/// are made: the environment as it was is asked to execute the block, the
/// result follows from its answer, and the environment as it is afterwards
/// comes from applying the write set to what the execution left, or is what
/// the execution left when nothing is applied.
pub fn run_transaction<E: Executor>(exec: &mut E, transaction: SignedUserTransaction) -> (r: Result<
    Result<TransactionOutput, Error>,
    Error,
>)
    ensures
        r is Ok ==> is_classified(outcome_view(r)),
        r matches Err(e) ==> e@ is InternalInvariantViolation || e@ is Other,
        exists|
            run: &mut E,
            block: Vec<SignedUserTransaction>,
            answer: Result<Vec<(VMStatus, TransactionOutput)>, String>,
            apply: &mut E,
        |
            {
                &&& mut_ref_current(run) == *old(exec)
                &&& block@ == seq![transaction]
                &&& #[trigger] call_ensures(E::execute_block, (run, block), answer)
                &&& run_outcome(answer, r)
                &&& #[trigger] applied_through(
                    apply,
                    mut_ref_future(run),
                    write_set_to_apply(answer),
                )
                &&& *final(exec) == if write_set_to_apply(answer) is Some {
                    mut_ref_future(apply)
                } else {
                    mut_ref_future(run)
                }
            },
{
    let (r, _) = run_and_show(exec, transaction);
    r
}

} // verus!
