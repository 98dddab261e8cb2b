//! The textual rendering of the log: one line per entry, in log order.
//!
//! A line is the position of the entry in square brackets, a space, and
//! the description of the entry. Artifacts and errors are described by
//! their `Debug` rendering, which `std` formats from the derived impls;
//! those renderings are named here, not spelled out.

use vstd::prelude::*;
use vstd::string::StringExecFns;
use crate::bytecode::{CompiledModule, CompiledScript, CompiledUnitView};
use crate::errors::{Error, ErrorView};
use crate::log::{
    EvaluationLog,
    EvaluationOutput,
    EvaluationOutputView,
    OutputType,
    OutputTypeView,
};
use crate::text::{decimal, decimal_string};
use crate::types::{TransactionOutput, TransactionOutputView};

verus! {

/// What `{:#?}` prints for a compiled script.
pub uninterp spec fn pretty_debug_of_script(script: CompiledUnitView) -> Seq<char>;

/// What `{:#?}` prints for a compiled module.
pub uninterp spec fn pretty_debug_of_module(module: CompiledUnitView) -> Seq<char>;

/// What `{:#?}` prints for a transaction output.
pub uninterp spec fn pretty_debug_of_transaction_output(output: TransactionOutputView) -> Seq<char>;

/// What `{:#?}` prints for an error.
pub uninterp spec fn pretty_debug_of_error(error: ErrorView) -> Seq<char>;

/// What `{:?}` prints for an output.
pub uninterp spec fn debug_of_output(output: OutputTypeView) -> Seq<char>;

/// The pretty `Debug` rendering of a script, as `format!("{:#?}", ..)` in
/// `std` gives it. The contract only names the result: it is a function of
/// the value of the script alone.
#[verifier::external_body]
fn pretty_debug_script(script: &CompiledScript) -> (r: String)
    ensures
        r@ == pretty_debug_of_script(script@),
{
    format!("{:#?}", script)
}

/// The pretty `Debug` rendering of a module, as `format!("{:#?}", ..)` in
/// `std` gives it. The contract only names the result: it is a function of
/// the value of the module alone.
#[verifier::external_body]
fn pretty_debug_module(module: &CompiledModule) -> (r: String)
    ensures
        r@ == pretty_debug_of_module(module@),
{
    format!("{:#?}", module)
}

/// The pretty `Debug` rendering of a transaction output, as
/// `format!("{:#?}", ..)` in `std` gives it. The contract only names the
/// result: it is a function of the value of the output alone.
#[verifier::external_body]
fn pretty_debug_transaction_output(output: &TransactionOutput) -> (r: String)
    ensures
        r@ == pretty_debug_of_transaction_output(output@),
{
    format!("{:#?}", output)
}

/// The pretty `Debug` rendering of an error, as `format!("{:#?}", ..)` in
/// `std` gives it. The contract only names the result: it is a function of
/// the value of the error alone.
#[verifier::external_body]
fn pretty_debug_error(error: &Error) -> (r: String)
    ensures
        r@ == pretty_debug_of_error(error@),
{
    format!("{:#?}", error)
}

/// The `Debug` rendering of an output, as `format!("{:?}", ..)` in `std`
/// gives it. The contract only names the result: it is a function of the
/// value of the output alone.
#[verifier::external_body]
fn debug_output(output: &OutputType) -> (r: String)
    ensures
        r@ == debug_of_output(output@),
{
    format!("{:?}", output)
}

/// How an output is shown in the log: a compiler log line as it is, an
/// artifact by its pretty `Debug` rendering.
pub open spec fn output_text(output: OutputTypeView) -> Seq<char> {
    match output {
        OutputTypeView::CompiledModule(module) => pretty_debug_of_module(module),
        OutputTypeView::CompiledScript(script) => pretty_debug_of_script(script),
        OutputTypeView::CompilerLog(line) => line,
        OutputTypeView::TransactionOutput(output) => pretty_debug_of_transaction_output(output),
    }
}

/// The description of a log entry.
pub open spec fn entry_text(entry: EvaluationOutputView) -> Seq<char> {
    match entry {
        EvaluationOutputView::Transaction(idx) => "Transaction "@ + decimal(idx as nat),
        EvaluationOutputView::Stage(stage) => "Stage: "@ + stage.name_text(),
        EvaluationOutputView::Output(output) => output_text(output),
        EvaluationOutputView::Error(error) => "Error: "@ + pretty_debug_of_error(error),
        EvaluationOutputView::Status(status) => "Status: "@ + status.name_text(),
    }
}

/// The line of the entry at position `position`: the position in square
/// brackets, a space, the description, and a line break.
pub open spec fn line_text(position: nat, entry: EvaluationOutputView) -> Seq<char> {
    "["@ + decimal(position) + "] "@ + entry_text(entry) + "\n"@
}

/// The lines of the first `n` entries, in log order.
pub open spec fn log_text(entries: Seq<EvaluationOutputView>, n: int) -> Seq<char>
    decreases n,
{
    if n <= 0 {
        Seq::empty()
    } else {
        log_text(entries, n - 1) + line_text((n - 1) as nat, entries[n - 1])
    }
}

impl OutputType {
    /// The text that expectations on outputs are matched against: the
    /// `Debug` rendering of the output.
    pub fn to_check_string(&self) -> (r: String)
        ensures
            r@ == debug_of_output(self@),
    {
        debug_output(self)
    }

    /// The output as the log shows it.
    pub fn to_string(&self) -> (r: String)
        ensures
            r@ == output_text(self@),
    {
        match self {
            OutputType::CompiledModule(cm) => pretty_debug_module(cm),
            OutputType::CompiledScript(cs) => pretty_debug_script(cs),
            OutputType::CompilerLog(s) => s.clone(),
            OutputType::TransactionOutput(output) => pretty_debug_transaction_output(output),
        }
    }
}

impl EvaluationOutput {
    /// The description of the entry as the log shows it.
    pub fn to_string(&self) -> (r: String)
        ensures
            r@ == entry_text(self@),
    {
        match self {
            EvaluationOutput::Transaction(idx) => {
                let mut text = "Transaction ".to_owned();
                let number = decimal_string(*idx);
                text.append(number.as_str());
                text
            },
            EvaluationOutput::Stage(stage) => {
                let mut text = "Stage: ".to_owned();
                text.append(stage.name());
                text
            },
            EvaluationOutput::Output(output) => output.to_string(),
            EvaluationOutput::Error(error) => {
                let mut text = "Error: ".to_owned();
                let detail = pretty_debug_error(error);
                text.append(detail.as_str());
                text
            },
            EvaluationOutput::Status(status) => {
                let mut text = "Status: ".to_owned();
                text.append(status.name());
                text
            },
        }
    }
}

impl EvaluationLog {
    /// The log as text: one line per entry, in log order.
    pub fn to_string(&self) -> (r: String)
        ensures
            r@ == log_text(self@, self@.len() as int),
    {
        let mut text = String::new();
        let mut i: usize = 0;
        while i < self.outputs.len()
            invariant
                i <= self.outputs.len(),
                self@.len() == self.outputs.len(),
                text@ == log_text(self@, i as int),
            decreases self.outputs.len() - i,
        {
            assert(self@[i as int] == self.outputs@[i as int]@);
            let position = decimal_string(i);
            let description = self.outputs[i].to_string();
            text.append("[");
            text.append(position.as_str());
            text.append("] ");
            text.append(description.as_str());
            text.append("\n");
            assert(text@ =~= log_text(self@, i as int) + line_text(i as nat, self@[i as int]));
            i += 1;
        }
        text
    }
}

} // verus!
