//! Commands and their configuration.

use vstd::prelude::*;
use crate::account::{Account, AccountData};
use crate::precompiled::PrecompiledScripts;
use crate::stage::Stage;
use crate::transaction::{BlockMetadata, TransactionArgument, TypeTag};

verus! {

/// Whether `stage` is attempted under the skip set `disabled`, provided
/// every stage before it succeeded.
///
/// Disabling the compiler skips everything. Disabling the verifier skips
/// the verifier, the serializer and the runtime. Disabling the serializer
/// skips only the serializer: it does not gate the runtime.
pub open spec fn stage_runs(disabled: Set<Stage>, stage: Stage) -> bool {
    match stage {
        Stage::Compiler => !disabled.contains(Stage::Compiler),
        Stage::Verifier => !disabled.contains(Stage::Compiler) && !disabled.contains(
            Stage::Verifier,
        ),
        Stage::Serializer => !disabled.contains(Stage::Compiler) && !disabled.contains(
            Stage::Verifier,
        ) && !disabled.contains(Stage::Serializer),
        Stage::Runtime => !disabled.contains(Stage::Compiler) && !disabled.contains(
            Stage::Verifier,
        ) && !disabled.contains(Stage::Runtime),
    }
}

/// How one transaction is to be built and which stages it skips.
#[derive(Debug)]
pub struct TransactionConfig {
    pub disabled_stages: Vec<Stage>,
    pub sender: Account,
    pub args: Vec<TransactionArgument>,
    pub ty_args: Vec<TypeTag>,
    pub max_gas: Option<u64>,
    pub gas_price: Option<u64>,
    pub sequence_number: Option<u64>,
    pub expiration_time: Option<u64>,
}

impl TransactionConfig {
    /// The set of disabled stages.
    pub open spec fn disabled(&self) -> Set<Stage> {
        self.disabled_stages@.to_set()
    }

    /// Whether `stage` is in the set of disabled stages.
    pub fn is_stage_disabled(&self, stage: Stage) -> (r: bool)
        ensures
            r == self.disabled().contains(stage),
    {
        let mut i: usize = 0;
        while i < self.disabled_stages.len()
            invariant
                i <= self.disabled_stages.len(),
                forall|j: int| 0 <= j < i ==> self.disabled_stages@[j] != stage,
            decreases self.disabled_stages.len() - i,
        {
            if self.disabled_stages[i] == stage {
                assert(self.disabled_stages@.contains(stage));
                return true;
            }
            i += 1;
        }
        assert(!self.disabled_stages@.contains(stage));
        false
    }

    /// Whether `stage` is attempted for this transaction, provided every
    /// stage before it succeeded.
    pub fn runs_stage(&self, stage: Stage) -> (r: bool)
        ensures
            r == stage_runs(self.disabled(), stage),
    {
        if self.is_stage_disabled(Stage::Compiler) {
            return false;
        }
        match stage {
            Stage::Compiler => true,
            Stage::Verifier => !self.is_stage_disabled(Stage::Verifier),
            Stage::Serializer => !self.is_stage_disabled(Stage::Verifier)
                && !self.is_stage_disabled(Stage::Serializer),
            Stage::Runtime => !self.is_stage_disabled(Stage::Verifier) && !self.is_stage_disabled(
                Stage::Runtime,
            ),
        }
    }
}

/// A transaction to be evaluated: source text and its configuration.
#[derive(Debug)]
pub struct Transaction {
    pub config: TransactionConfig,
    pub input: String,
}

/// A command that drives the virtual machine.
#[derive(Debug)]
pub enum Command {
    /// Run a user transaction through the pipeline.
    Transaction(Transaction),
    /// Open a new block.
    BlockMetadata(BlockMetadata),
}

/// What every command of a run shares: the accounts to set up, the
/// registry of precompiled scripts and the gas ceiling.
#[derive(Debug)]
pub struct GlobalConfig<'a> {
    /// Accounts to create before the first command.
    pub accounts: Vec<AccountData>,
    /// Genesis accounts to refresh from the state of the environment.
    pub genesis_accounts: Vec<Account>,
    /// Ready-made scripts that an input can name.
    pub precompiled_scripts: &'a PrecompiledScripts,
    /// The most gas units a transaction may ask for.
    pub maximum_number_of_gas_units: u64,
}

} // verus!
