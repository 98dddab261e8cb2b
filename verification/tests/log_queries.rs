use functional_tests::bytecode::{CompiledModule, CompiledScript, CompiledUnit, ModuleHandle};
use functional_tests::errors::Error;
use functional_tests::log::{EvaluationLog, EvaluationOutput, OutputType};
use functional_tests::stage::{Stage, Status};
use functional_tests::types::{
    AccountAddress, KeptVMStatus, TransactionOutput, TransactionStatus, VMStatus, WriteSet,
};

fn log_of(entries: Vec<EvaluationOutput>) -> EvaluationLog {
    let mut log = EvaluationLog::new();
    for entry in entries {
        log.append(entry);
    }
    log
}

fn small_script() -> CompiledScript {
    CompiledScript::new(
        CompiledUnit::new(
            vec![ModuleHandle { address: 0, name: 0 }],
            vec![AccountAddress { value: 1 }],
            vec!["M".to_string()],
            vec![1, 2],
        )
        .unwrap(),
    )
}

fn small_output() -> TransactionOutput {
    TransactionOutput {
        write_set: WriteSet::new(),
        gas_used: 3,
        status: TransactionStatus::Keep(KeptVMStatus::Executed),
    }
}

#[test]
fn new_log_is_empty_and_append_adds_at_the_end() {
    let mut log = EvaluationLog::new();
    assert!(log.outputs.is_empty());
    log.append(EvaluationOutput::Transaction(0));
    log.append(EvaluationOutput::Status(Status::Success));
    assert_eq!(
        log.outputs,
        vec![EvaluationOutput::Transaction(0), EvaluationOutput::Status(Status::Success)]
    );
    log.append(EvaluationOutput::Transaction(1));
    assert_eq!(log.outputs.len(), 3);
    assert_eq!(log.outputs[0], EvaluationOutput::Transaction(0));
    assert_eq!(log.outputs[2], EvaluationOutput::Transaction(1));
}

#[test]
fn default_log_is_empty() {
    assert_eq!(EvaluationLog::default(), EvaluationLog::new());
    assert!(EvaluationLog::default().outputs.is_empty());
}

#[test]
fn is_error_tells_errors_apart() {
    assert!(EvaluationOutput::Error(Box::new(Error::SerializationMismatch)).is_error());
    assert!(!EvaluationOutput::Transaction(0).is_error());
    assert!(!EvaluationOutput::Stage(Stage::Runtime).is_error());
    assert!(!EvaluationOutput::Status(Status::Failure).is_error());
    assert!(!EvaluationOutput::Output(OutputType::CompilerLog("Error".to_string())).is_error());
}

#[test]
fn failed_transactions_of_a_log_without_failures() {
    assert!(EvaluationLog::new().get_failed_transactions().is_empty());
    let log = log_of(vec![
        EvaluationOutput::Transaction(0),
        EvaluationOutput::Stage(Stage::Compiler),
        EvaluationOutput::Status(Status::Success),
        EvaluationOutput::Status(Status::Success),
    ]);
    assert!(log.failures_are_marked());
    assert!(log.get_failed_transactions().is_empty());
}

#[test]
fn failed_transactions_pair_the_latest_markers() {
    let log = log_of(vec![
        EvaluationOutput::Transaction(0),
        EvaluationOutput::Stage(Stage::Compiler),
        EvaluationOutput::Stage(Stage::Verifier),
        EvaluationOutput::Status(Status::Success),
        EvaluationOutput::Transaction(1),
        EvaluationOutput::Stage(Stage::Compiler),
        EvaluationOutput::Error(Box::new(Error::CompileError("no".to_string()))),
        EvaluationOutput::Status(Status::Failure),
        EvaluationOutput::Transaction(2),
        EvaluationOutput::Status(Status::Success),
        EvaluationOutput::Transaction(7),
        EvaluationOutput::Stage(Stage::Compiler),
        EvaluationOutput::Stage(Stage::Verifier),
        EvaluationOutput::Stage(Stage::Runtime),
        EvaluationOutput::Error(Box::new(Error::VerificationError(VMStatus::Error(1)))),
        EvaluationOutput::Status(Status::Failure),
    ]);
    assert!(log.failures_are_marked());
    assert_eq!(log.get_failed_transactions(), vec![(1, Stage::Compiler), (7, Stage::Runtime)]);
}

#[test]
fn failure_after_a_block_reports_the_markers_before_it() {
    // A failed block-metadata command writes no markers of its own.
    let log = log_of(vec![
        EvaluationOutput::Transaction(0),
        EvaluationOutput::Stage(Stage::Compiler),
        EvaluationOutput::Status(Status::Success),
        EvaluationOutput::Error(Box::new(Error::Other("no such block".to_string()))),
        EvaluationOutput::Status(Status::Failure),
        EvaluationOutput::Status(Status::Failure),
    ]);
    assert!(log.failures_are_marked());
    assert_eq!(
        log.get_failed_transactions(),
        vec![(0, Stage::Compiler), (0, Stage::Compiler)]
    );
}

#[test]
fn failures_without_markers_are_found_out() {
    let no_marker = log_of(vec![EvaluationOutput::Status(Status::Failure)]);
    assert!(!no_marker.failures_are_marked());
    let no_stage = log_of(vec![
        EvaluationOutput::Transaction(0),
        EvaluationOutput::Status(Status::Failure),
    ]);
    assert!(!no_stage.failures_are_marked());
    let no_transaction = log_of(vec![
        EvaluationOutput::Stage(Stage::Compiler),
        EvaluationOutput::Status(Status::Failure),
    ]);
    assert!(!no_transaction.failures_are_marked());
    let markers_too_late = log_of(vec![
        EvaluationOutput::Status(Status::Failure),
        EvaluationOutput::Transaction(0),
        EvaluationOutput::Stage(Stage::Compiler),
    ]);
    assert!(!markers_too_late.failures_are_marked());
    let successes_need_none = log_of(vec![EvaluationOutput::Status(Status::Success)]);
    assert!(successes_need_none.failures_are_marked());
}

#[test]
fn entries_render_as_the_log_format_says() {
    assert_eq!(EvaluationOutput::Transaction(12).to_string(), "Transaction 12");
    assert_eq!(EvaluationOutput::Stage(Stage::Serializer).to_string(), "Stage: Serializer");
    assert_eq!(EvaluationOutput::Status(Status::Failure).to_string(), "Status: Failure");
    assert_eq!(EvaluationOutput::Status(Status::Success).to_string(), "Status: Success");
    assert_eq!(
        EvaluationOutput::Output(OutputType::CompilerLog("a line".to_string())).to_string(),
        "a line"
    );
    let error = Error::ExecutionFailure(VMStatus::MoveAbort(4), small_output());
    assert_eq!(
        EvaluationOutput::Error(Box::new(Error::ExecutionFailure(
            VMStatus::MoveAbort(4),
            small_output()
        )))
        .to_string(),
        format!("Error: {:#?}", error)
    );
}

#[test]
fn outputs_render_by_pretty_debug() {
    let script = small_script();
    assert_eq!(
        OutputType::CompiledScript(Box::new(script.clone())).to_string(),
        format!("{:#?}", script)
    );
    let module = CompiledModule::new(script.as_inner().clone());
    assert_eq!(
        OutputType::CompiledModule(Box::new(module.clone())).to_string(),
        format!("{:#?}", module)
    );
    assert_eq!(
        OutputType::TransactionOutput(Box::new(small_output())).to_string(),
        format!("{:#?}", small_output())
    );
    assert_eq!(OutputType::CompilerLog("plain".to_string()).to_string(), "plain");
    assert!(OutputType::CompiledScript(Box::new(script)).to_string().contains('\n'));
}

#[test]
fn check_string_is_the_debug_rendering() {
    assert_eq!(
        OutputType::CompilerLog("plain".to_string()).to_check_string(),
        "CompilerLog(\"plain\")"
    );
    let output = OutputType::TransactionOutput(Box::new(small_output()));
    assert_eq!(
        output.to_check_string(),
        "TransactionOutput(TransactionOutput { write_set: WriteSet { ops: [] }, gas_used: 3, \
         status: Keep(Executed) })"
    );
    let script = OutputType::CompiledScript(Box::new(small_script()));
    assert_eq!(script.to_check_string(), format!("{:?}", script));
    assert!(!script.to_check_string().contains('\n'));
}

#[test]
fn log_renders_positions_in_brackets() {
    let mut entries = vec![];
    for i in 0..11 {
        entries.push(EvaluationOutput::Transaction(i * 100));
    }
    entries.push(EvaluationOutput::Stage(Stage::Compiler));
    entries.push(EvaluationOutput::Status(Status::Success));
    let text = log_of(entries).to_string();
    let lines: Vec<&str> = text.lines().collect();
    assert_eq!(lines.len(), 13);
    assert_eq!(lines[0], "[0] Transaction 0");
    assert_eq!(lines[9], "[9] Transaction 900");
    assert_eq!(lines[10], "[10] Transaction 1000");
    assert_eq!(lines[11], "[11] Stage: Compiler");
    assert_eq!(lines[12], "[12] Status: Success");
    assert!(text.ends_with("Status: Success\n"));
}
