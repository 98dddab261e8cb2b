//! The collaborators the pipeline drives, as swappable capabilities.
//!
//! The harness exercises a compiler, a bytecode verifier, a serializer, a
//! signer and an execution environment without knowing how any of them
//! works. None of the methods below promises anything about what it
//! returns: the pipeline is verified for every answer they can give. The
//! contracts of the pipeline say which calls are made and what follows from
//! the answers, so whatever an implementation promises of its answers
//! carries over to the log.

use vstd::prelude::*;
use crate::account::{Account, AccountData, AccountPrivateKey, AccountResource, BalanceResource};
use crate::bytecode::{CompiledModule, CompiledScript, ScriptOrModule};
use crate::errors::Error;
use crate::transaction::{LedgerTransaction, RawUserTransaction, Signature, SignedUserTransaction};
use crate::types::{AccessPath, AccountAddress, TransactionOutput, VMStatus, WriteSet};

verus! {

/// Turns source text into a compiled script or module.
pub trait Compiler {
    /// Compiles `input` on behalf of `address`. Lines the compiler wants to
    /// show are pushed onto `log`.
    fn compile(&mut self, log: &mut Vec<String>, address: AccountAddress, input: &str) -> Result<
        ScriptOrModule,
        Error,
    >;
}

/// Checks bytecode for safety, alone and against its dependencies.
pub trait BytecodeVerifier {
    /// Checks that a script is well formed on its own.
    fn verify_script(&self, script: &CompiledScript) -> Result<(), VMStatus>;

    /// Checks that a module is well formed on its own.
    fn verify_module(&self, module: &CompiledModule) -> Result<(), VMStatus>;

    /// Checks that a script links against the given modules.
    fn verify_script_dependencies(
        &self,
        script: &CompiledScript,
        deps: &Vec<CompiledModule>,
    ) -> Result<(), VMStatus>;

    /// Checks that a module links against the given modules.
    fn verify_module_dependencies(
        &self,
        module: &CompiledModule,
        deps: &Vec<CompiledModule>,
    ) -> Result<(), VMStatus>;
}

/// Writes bytecode units to bytes and reads them back.
pub trait BytecodeSerializer {
    fn serialize_script(&self, script: &CompiledScript) -> Result<Vec<u8>, Error>;

    fn deserialize_script(&self, bytes: &Vec<u8>) -> Result<CompiledScript, Error>;

    fn serialize_module(&self, module: &CompiledModule) -> Result<Vec<u8>, Error>;

    fn deserialize_module(&self, bytes: &Vec<u8>) -> Result<CompiledModule, Error>;
}

/// Signs raw transactions.
pub trait TransactionSigner {
    fn sign(&self, key: &AccountPrivateKey, raw_txn: &RawUserTransaction) -> Signature;
}

/// The simulated execution environment: it owns ledger-like state, executes
/// blocks of transactions, applies write sets and answers reads.
pub trait Executor: Sized {
    /// A fresh environment holding the genesis state.
    fn create() -> Result<Self, Error>;

    /// Places an account into the state.
    fn add_account_data(&mut self, data: &AccountData);

    /// Reads the raw bytes stored under `path`, if any.
    fn get(&self, path: &AccessPath) -> Option<Vec<u8>>;

    /// Executes user transactions as one block. An error is reported by its
    /// message.
    fn execute_block(&mut self, txns: Vec<SignedUserTransaction>) -> Result<
        Vec<(VMStatus, TransactionOutput)>,
        String,
    >;

    /// Executes transactions of any kind as one block. An error is reported
    /// by its message.
    fn execute_transaction_block(&mut self, txns: Vec<LedgerTransaction>) -> Result<
        Vec<(VMStatus, TransactionOutput)>,
        String,
    >;

    /// Applies the mutations of `write_set` to the state.
    fn apply_write_set(&mut self, write_set: &WriteSet);

    fn read_account_resource(&self, account: &Account) -> Option<AccountResource>;

    fn read_balance_resource(&self, account: &Account) -> Option<BalanceResource>;

    /// The current time of the environment.
    fn read_timestamp(&self) -> u64;
}

} // verus!
