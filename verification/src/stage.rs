//! The four ordered pipeline stages and the per-command status.

use vstd::prelude::*;
use vstd::string::StringExecFns;
use crate::errors::{Error, ErrorView};
use crate::text::{debug_str, debug_text_of_str, same_text};

verus! {

/// One step in the pipeline a transaction goes through.
///
/// The order of the variants is significant: a stage comes before another
/// when its rank is smaller.
#[derive(Debug, Copy, Clone, PartialOrd, Ord, PartialEq, Eq, Hash, Structural)]
pub enum Stage {
    Compiler,
    Verifier,
    Serializer,
    Runtime,
}

/// Evaluation status of one command: success or failure.
#[derive(Debug, Copy, Clone, PartialEq, Eq, Hash, Structural)]
pub enum Status {
    Success,
    Failure,
}

impl Stage {
    /// Position of the stage in the pipeline, counted from zero.
    pub open spec fn rank(self) -> nat {
        match self {
            Stage::Compiler => 0,
            Stage::Verifier => 1,
            Stage::Serializer => 2,
            Stage::Runtime => 3,
        }
    }

    /// Whether `self` comes strictly before `other` in the pipeline.
    pub open spec fn precedes(self, other: Stage) -> bool {
        self.rank() < other.rank()
    }

    /// Position of the stage in the pipeline, counted from zero.
    pub fn position(&self) -> (r: u8)
        ensures
            r == self.rank(),
    {
        match self {
            Stage::Compiler => 0,
            Stage::Verifier => 1,
            Stage::Serializer => 2,
            Stage::Runtime => 3,
        }
    }
}

/// The stage that a literal stage name denotes, if it denotes one.
pub open spec fn stage_named(name: Seq<char>) -> Option<Stage> {
    if name == "compiler"@ {
        Some(Stage::Compiler)
    } else if name == "verifier"@ {
        Some(Stage::Verifier)
    } else if name == "serializer"@ {
        Some(Stage::Serializer)
    } else if name == "runtime"@ {
        Some(Stage::Runtime)
    } else {
        None
    }
}

/// The message of the error that an unknown stage name is refused with.
pub open spec fn unrecognized_stage_message(name: Seq<char>) -> Seq<char> {
    "unrecognized stage '"@ + debug_text_of_str(name) + "'"@
}

impl std::str::FromStr for Stage {
    type Err = Error;

    /// Reads a stage from its literal name: `compiler`, `verifier`,
    /// `serializer` or `runtime`. Any other text is refused.
    fn from_str(s: &str) -> (r: Result<Stage, Error>)
        ensures
            match stage_named(s@) {
                Some(stage) => r matches Ok(got) && got == stage,
                None => r matches Err(e) && e@ == ErrorView::Other(unrecognized_stage_message(s@)),
            },
    {
        if same_text(s, "compiler") {
            Ok(Stage::Compiler)
        } else if same_text(s, "verifier") {
            Ok(Stage::Verifier)
        } else if same_text(s, "serializer") {
            Ok(Stage::Serializer)
        } else if same_text(s, "runtime") {
            Ok(Stage::Runtime)
        } else {
            let mut message = "unrecognized stage '".to_owned();
            let quoted = debug_str(s);
            message.append(quoted.as_str());
            message.append("'");
            Err(Error::Other(message))
        }
    }
}

impl Stage {
    /// The name of the stage as the log prints it.
    pub open spec fn name_text(self) -> Seq<char> {
        match self {
            Stage::Compiler => "Compiler"@,
            Stage::Verifier => "Verifier"@,
            Stage::Serializer => "Serializer"@,
            Stage::Runtime => "Runtime"@,
        }
    }

    /// The name of the stage as the log prints it.
    pub fn name(&self) -> (r: &'static str)
        ensures
            r@ == self.name_text(),
    {
        match self {
            Stage::Compiler => "Compiler",
            Stage::Verifier => "Verifier",
            Stage::Serializer => "Serializer",
            Stage::Runtime => "Runtime",
        }
    }
}

impl Status {
    /// The name of the status as the log prints it.
    pub open spec fn name_text(self) -> Seq<char> {
        match self {
            Status::Success => "Success"@,
            Status::Failure => "Failure"@,
        }
    }

    /// The name of the status as the log prints it.
    pub fn name(&self) -> (r: &'static str)
        ensures
            r@ == self.name_text(),
    {
        match self {
            Status::Success => "Success",
            Status::Failure => "Failure",
        }
    }
}

} // verus!
