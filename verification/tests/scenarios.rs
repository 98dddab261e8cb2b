use functional_tests::account::{
    Account, AccountData, AccountPrivateKey, AccountResource, BalanceResource,
};
use functional_tests::bytecode::{
    CompiledModule, CompiledScript, CompiledUnit, ModuleHandle, ScriptOrModule,
};
use functional_tests::capability::{
    BytecodeSerializer, BytecodeVerifier, Compiler, Executor, TransactionSigner,
};
use functional_tests::config::{Command, GlobalConfig, Transaction, TransactionConfig};
use functional_tests::block::eval_block_metadata;
use functional_tests::driver::{eval, eval_with_executor};
use functional_tests::errors::Error;
use functional_tests::log::{EvaluationLog, EvaluationOutput, OutputType};
use functional_tests::params::{
    get_transaction_parameters, make_module_transaction, make_script_transaction,
};
use functional_tests::evaluator::eval_transaction;
use functional_tests::pipeline::{
    run_transaction, serialize_and_deserialize_module, serialize_and_deserialize_script,
    verify_module, verify_script,
};
use functional_tests::precompiled::PrecompiledScripts;
use functional_tests::setup::setup_accounts;
use functional_tests::resolver::{
    fetch_dependencies, fetch_dependency, fetch_module_dependencies, fetch_script_dependencies,
};
use functional_tests::stage::{Stage, Status};
use functional_tests::transaction::{
    BlockMetadata, LedgerTransaction, RawUserTransaction, Signature, SignedUserTransaction,
    TransactionArgument, TransactionPayload, TypeTag, TEST_CHAIN_ID,
};
use functional_tests::types::{
    AccessPath, AccountAddress, DataPath, KeptVMStatus, ModuleId, TransactionOutput,
    TransactionStatus, VMStatus, WriteOp, WriteSet,
};

// ---------------------------------------------------------------------
// Stand-ins for the collaborators.
// ---------------------------------------------------------------------

const BAD_BYTECODE: u8 = 0xBD;
const ABORTS: u8 = 0xAB;
const DISCARDED: u8 = 0xD0;
const DISCARDED_WITH_WRITES: u8 = 0xD1;
const TWO_OUTPUTS: u8 = 0x22;
const ENVIRONMENT_FAILS: u8 = 0xEF;

const MISSING_DEPENDENCY: u64 = 1095;
const MALFORMED: u64 = 1001;

fn address(value: u128) -> AccountAddress {
    AccountAddress { value }
}

fn unit(handles: Vec<(u16, u16)>, addresses: Vec<u128>, names: Vec<&str>, code: Vec<u8>) -> CompiledUnit {
    CompiledUnit::new(
        handles
            .into_iter()
            .map(|(address, name)| ModuleHandle { address, name })
            .collect(),
        addresses.into_iter().map(address).collect(),
        names.into_iter().map(|n| n.to_string()).collect(),
        code,
    )
    .expect("handles in bounds")
}

fn script(code: Vec<u8>) -> CompiledScript {
    CompiledScript::new(unit(vec![], vec![], vec![], code))
}

fn encode(unit: &CompiledUnit) -> Vec<u8> {
    let mut out = Vec::new();
    out.push(unit.module_handles().len() as u8);
    for h in unit.module_handles() {
        out.extend_from_slice(&h.address.to_le_bytes());
        out.extend_from_slice(&h.name.to_le_bytes());
    }
    out.push(unit.address_identifiers().len() as u8);
    for a in unit.address_identifiers() {
        out.extend_from_slice(&a.value.to_le_bytes());
    }
    out.push(unit.identifiers().len() as u8);
    for name in unit.identifiers() {
        out.push(name.len() as u8);
        out.extend_from_slice(name.as_bytes());
    }
    out.extend_from_slice(unit.code());
    out
}

fn take(bytes: &[u8], at: &mut usize, n: usize) -> Option<Vec<u8>> {
    if *at + n > bytes.len() {
        return None;
    }
    let part = bytes[*at..*at + n].to_vec();
    *at += n;
    Some(part)
}

fn decode(bytes: &[u8]) -> Option<CompiledUnit> {
    let mut at = 0usize;
    let n_handles = take(bytes, &mut at, 1)?[0] as usize;
    let mut handles = Vec::new();
    for _ in 0..n_handles {
        let a = take(bytes, &mut at, 2)?;
        let n = take(bytes, &mut at, 2)?;
        handles.push(ModuleHandle {
            address: u16::from_le_bytes([a[0], a[1]]),
            name: u16::from_le_bytes([n[0], n[1]]),
        });
    }
    let n_addresses = take(bytes, &mut at, 1)?[0] as usize;
    let mut addresses = Vec::new();
    for _ in 0..n_addresses {
        let raw = take(bytes, &mut at, 16)?;
        let mut buf = [0u8; 16];
        buf.copy_from_slice(&raw);
        addresses.push(address(u128::from_le_bytes(buf)));
    }
    let n_names = take(bytes, &mut at, 1)?[0] as usize;
    let mut names = Vec::new();
    for _ in 0..n_names {
        let len = take(bytes, &mut at, 1)?[0] as usize;
        names.push(String::from_utf8(take(bytes, &mut at, len)?).ok()?);
    }
    let rest = bytes.len() - at;
    let code = take(bytes, &mut at, rest)?;
    CompiledUnit::new(handles, addresses, names, code)
}

/// Compiles by keyword: the first word of the input picks the result.
struct StubCompiler {
    calls: usize,
}

impl Compiler for StubCompiler {
    fn compile(
        &mut self,
        log: &mut Vec<String>,
        address: AccountAddress,
        input: &str,
    ) -> Result<ScriptOrModule, Error> {
        self.calls += 1;
        let mut words = input.split_whitespace();
        match words.next() {
            Some("script") => Ok(ScriptOrModule::Script(script(vec![1, 2, 3]))),
            Some("verbose") => {
                log.push("parsing".to_string());
                log.push(format!("sender {}", address.value));
                Ok(ScriptOrModule::Script(script(vec![1, 2, 3])))
            }
            Some("bad_script") => Ok(ScriptOrModule::Script(script(vec![BAD_BYTECODE]))),
            Some("code") => {
                let byte = u8::from_str_radix(words.next().unwrap(), 16).unwrap();
                Ok(ScriptOrModule::Script(script(vec![byte])))
            }
            Some("module") => {
                // module <name> uses <dep>...
                let name = words.next().unwrap();
                let mut names = vec![name];
                let mut handles = vec![(0u16, 0u16)];
                for word in words {
                    if word == "uses" {
                        continue;
                    }
                    handles.push((0, names.len() as u16));
                    names.push(word);
                }
                Ok(ScriptOrModule::Module(CompiledModule::new(unit(
                    handles,
                    vec![address.value],
                    names,
                    vec![7],
                ))))
            }
            _ => {
                log.push("giving up".to_string());
                Err(Error::CompileError(format!("cannot compile '{}'", input)))
            }
        }
    }
}

/// Refuses units whose code holds the bad byte; linkage needs every handle
/// whose name starts with `needed_` to be among the dependencies.
struct StubVerifier;

fn self_name(module: &CompiledModule) -> String {
    let ids = module.as_inner().module_ids();
    ids[0].name.clone()
}

fn links(unit: &CompiledUnit, deps: &Vec<CompiledModule>) -> Result<(), VMStatus> {
    let present: Vec<String> = deps.iter().map(self_name).collect();
    for id in unit.module_ids() {
        if id.name.starts_with("needed_") && !present.contains(&id.name) {
            return Err(VMStatus::Error(MISSING_DEPENDENCY));
        }
    }
    Ok(())
}

fn well_formed(unit: &CompiledUnit) -> Result<(), VMStatus> {
    if unit.code().contains(&BAD_BYTECODE) {
        Err(VMStatus::Error(MALFORMED))
    } else {
        Ok(())
    }
}

impl BytecodeVerifier for StubVerifier {
    fn verify_script(&self, script: &CompiledScript) -> Result<(), VMStatus> {
        well_formed(script.as_inner())
    }

    fn verify_module(&self, module: &CompiledModule) -> Result<(), VMStatus> {
        well_formed(module.as_inner())
    }

    fn verify_script_dependencies(
        &self,
        script: &CompiledScript,
        deps: &Vec<CompiledModule>,
    ) -> Result<(), VMStatus> {
        links(script.as_inner(), deps)
    }

    fn verify_module_dependencies(
        &self,
        module: &CompiledModule,
        deps: &Vec<CompiledModule>,
    ) -> Result<(), VMStatus> {
        links(module.as_inner(), deps)
    }
}

/// A faithful serializer, unless told to lose the last code byte or to
/// fail.
struct StubSerializer {
    lossy: bool,
    unreadable: bool,
    refuses: bool,
}

impl StubSerializer {
    fn faithful() -> Self {
        StubSerializer { lossy: false, unreadable: false, refuses: false }
    }

    fn write(&self, unit: &CompiledUnit) -> Result<Vec<u8>, Error> {
        if self.refuses {
            return Err(Error::Other("cannot serialize".to_string()));
        }
        let mut bytes = encode(unit);
        if self.lossy {
            bytes.pop();
        }
        Ok(bytes)
    }

    fn read(&self, bytes: &Vec<u8>) -> Result<CompiledUnit, Error> {
        if self.unreadable {
            return Err(Error::Other("cannot deserialize".to_string()));
        }
        decode(bytes).ok_or_else(|| Error::Other("malformed".to_string()))
    }
}

impl BytecodeSerializer for StubSerializer {
    fn serialize_script(&self, script: &CompiledScript) -> Result<Vec<u8>, Error> {
        self.write(script.as_inner())
    }

    fn deserialize_script(&self, bytes: &Vec<u8>) -> Result<CompiledScript, Error> {
        self.read(bytes).map(CompiledScript::new)
    }

    fn serialize_module(&self, module: &CompiledModule) -> Result<Vec<u8>, Error> {
        self.write(module.as_inner())
    }

    fn deserialize_module(&self, bytes: &Vec<u8>) -> Result<CompiledModule, Error> {
        self.read(bytes).map(CompiledModule::new)
    }
}

struct StubSigner;

impl TransactionSigner for StubSigner {
    fn sign(&self, key: &AccountPrivateKey, raw_txn: &RawUserTransaction) -> Signature {
        let mut bytes = key.bytes.clone();
        bytes.push(raw_txn.sequence_number as u8);
        Signature { bytes }
    }
}

/// An environment whose answers are picked by the last byte of the code of
/// the transaction.
struct StubExecutor {
    accounts: Vec<AccountData>,
    modules: Vec<(ModuleId, Vec<u8>)>,
    applied: Vec<usize>,
    executed: Vec<SignedUserTransaction>,
    now: u64,
}

impl StubExecutor {
    fn new() -> Self {
        StubExecutor {
            accounts: vec![],
            modules: vec![],
            applied: vec![],
            executed: vec![],
            now: 1000,
        }
    }

    fn with_sender() -> Self {
        let mut exec = StubExecutor::new();
        exec.accounts.push(account_data(sender(), 5_000, 7));
        exec
    }

    fn publish(&mut self, module: &CompiledModule) {
        let id = module.as_inner().module_ids().remove(0);
        self.modules.push((id, encode(module.as_inner())));
    }
}

fn one_write() -> WriteSet {
    WriteSet {
        ops: vec![WriteOp {
            access_path: AccessPath {
                address: address(1),
                path: DataPath::Resource(vec![9]),
            },
            value: Some(vec![1]),
        }],
    }
}

fn output(status: TransactionStatus, write_set: WriteSet) -> TransactionOutput {
    TransactionOutput { write_set, gas_used: 10, status }
}

fn answer(code: u8) -> Result<Vec<(VMStatus, TransactionOutput)>, String> {
    let kept = (
        VMStatus::Executed,
        output(TransactionStatus::Keep(KeptVMStatus::Executed), one_write()),
    );
    match code {
        ABORTS => Ok(vec![(
            VMStatus::MoveAbort(42),
            output(TransactionStatus::Keep(KeptVMStatus::MoveAbort(42)), one_write()),
        )]),
        DISCARDED => Ok(vec![(
            VMStatus::Error(3),
            output(TransactionStatus::Discard(3), WriteSet::new()),
        )]),
        DISCARDED_WITH_WRITES => Ok(vec![(
            VMStatus::Error(3),
            output(TransactionStatus::Discard(3), one_write()),
        )]),
        TWO_OUTPUTS => Ok(vec![
            kept,
            (
                VMStatus::Executed,
                output(TransactionStatus::Keep(KeptVMStatus::Executed), WriteSet::new()),
            ),
        ]),
        ENVIRONMENT_FAILS => Err("environment is down".to_string()),
        _ => Ok(vec![kept]),
    }
}

impl Executor for StubExecutor {
    fn create() -> Result<Self, Error> {
        Ok(StubExecutor::with_sender())
    }

    fn add_account_data(&mut self, data: &AccountData) {
        self.accounts.retain(|a| a.account.addr != data.account.addr);
        self.accounts.push(AccountData {
            account: data.account.clone(),
            balance: data.balance,
            token_code: data.token_code.clone(),
            sequence_number: data.sequence_number,
            sent_events_count: data.sent_events_count,
            received_events_count: data.received_events_count,
            accept_token_events_count: data.accept_token_events_count,
            delegated_key_rotation_capability: data.delegated_key_rotation_capability,
            delegated_withdrawal_capability: data.delegated_withdrawal_capability,
        });
    }

    fn get(&self, path: &AccessPath) -> Option<Vec<u8>> {
        self.modules
            .iter()
            .find(|(id, _)| AccessPath::from_module_id(id) == *path)
            .map(|(_, bytes)| bytes.clone())
    }

    fn execute_block(
        &mut self,
        mut txns: Vec<SignedUserTransaction>,
    ) -> Result<Vec<(VMStatus, TransactionOutput)>, String> {
        let txn = txns.pop().unwrap();
        let code = match &txn.raw_txn.payload {
            TransactionPayload::Script { code, .. } => *code.last().unwrap(),
            TransactionPayload::Module { code } => *code.last().unwrap(),
        };
        self.executed.push(txn);
        answer(code)
    }

    fn execute_transaction_block(
        &mut self,
        txns: Vec<LedgerTransaction>,
    ) -> Result<Vec<(VMStatus, TransactionOutput)>, String> {
        match &txns[0] {
            LedgerTransaction::BlockMetadata(metadata) => match metadata.number {
                0 => Ok(vec![]),
                13 => Ok(vec![(
                    VMStatus::Error(13),
                    output(TransactionStatus::Discard(13), WriteSet::new()),
                )]),
                99 => Err("no such block".to_string()),
                _ => {
                    self.now = metadata.timestamp;
                    Ok(vec![(
                        VMStatus::Executed,
                        output(TransactionStatus::Keep(KeptVMStatus::Executed), one_write()),
                    )])
                }
            },
            LedgerTransaction::UserTransaction(_) => Err("not a block".to_string()),
        }
    }

    fn apply_write_set(&mut self, write_set: &WriteSet) {
        self.applied.push(write_set.ops.len());
    }

    fn read_account_resource(&self, account: &Account) -> Option<AccountResource> {
        self.accounts
            .iter()
            .find(|a| a.account.addr == account.addr)
            .map(|a| AccountResource {
                sequence_number: a.sequence_number,
                withdraw_events: a.sent_events_count,
                deposit_events: a.received_events_count,
                accept_token_events: a.accept_token_events_count,
                delegated_key_rotation_capability: a.delegated_key_rotation_capability,
                delegated_withdrawal_capability: a.delegated_withdrawal_capability,
            })
    }

    fn read_balance_resource(&self, account: &Account) -> Option<BalanceResource> {
        self.accounts
            .iter()
            .find(|a| a.account.addr == account.addr)
            .map(|a| BalanceResource { token: a.balance })
    }

    fn read_timestamp(&self) -> u64 {
        self.now
    }
}

fn sender() -> Account {
    Account {
        addr: address(0xA11CE),
        private_key: AccountPrivateKey { bytes: vec![1, 2, 3] },
    }
}

fn account_data(account: Account, balance: u128, sequence_number: u64) -> AccountData {
    AccountData {
        account,
        balance,
        token_code: "0x1::STC::STC".to_string(),
        sequence_number,
        sent_events_count: 0,
        received_events_count: 0,
        accept_token_events_count: 0,
        delegated_key_rotation_capability: false,
        delegated_withdrawal_capability: false,
    }
}

fn tx_config(disabled: Vec<Stage>) -> TransactionConfig {
    TransactionConfig {
        disabled_stages: disabled,
        sender: sender(),
        args: vec![],
        ty_args: vec![],
        max_gas: None,
        gas_price: None,
        sequence_number: None,
        expiration_time: None,
    }
}

fn transaction(input: &str, disabled: Vec<Stage>) -> Transaction {
    Transaction { config: tx_config(disabled), input: input.to_string() }
}

fn global_with(registry: &PrecompiledScripts) -> GlobalConfig<'_> {
    GlobalConfig {
        accounts: vec![],
        genesis_accounts: vec![],
        precompiled_scripts: registry,
        maximum_number_of_gas_units: 4_000_000,
    }
}

fn global() -> GlobalConfig<'static> {
    global_with(Box::leak(Box::new(PrecompiledScripts::new())))
}

fn block(number: u64) -> Command {
    Command::BlockMetadata(BlockMetadata { timestamp: 2000, author: address(1), number })
}

fn run(commands: &[Command]) -> Result<EvaluationLog, Error> {
    let mut exec = StubExecutor::with_sender();
    eval_with_executor(
        &global(),
        StubCompiler { calls: 0 },
        &StubVerifier,
        &StubSerializer::faithful(),
        &StubSigner,
        &mut exec,
        commands,
    )
}

fn run_one(
    input: &str,
    disabled: Vec<Stage>,
    serializer: StubSerializer,
) -> (Result<Status, Error>, EvaluationLog, StubExecutor) {
    let mut exec = StubExecutor::with_sender();
    let mut compiler = StubCompiler { calls: 0 };
    let mut log = EvaluationLog::new();
    let status = eval_transaction(
        &global(),
        &mut compiler,
        &StubVerifier,
        &serializer,
        &StubSigner,
        &mut exec,
        0,
        &transaction(input, disabled),
        &mut log,
    );
    (status, log, exec)
}

fn statuses(log: &EvaluationLog) -> Vec<Status> {
    log.outputs
        .iter()
        .filter_map(|entry| match entry {
            EvaluationOutput::Status(status) => Some(*status),
            _ => None,
        })
        .collect()
}

fn stages(log: &EvaluationLog) -> Vec<Stage> {
    log.outputs
        .iter()
        .filter_map(|entry| match entry {
            EvaluationOutput::Stage(stage) => Some(*stage),
            _ => None,
        })
        .collect()
}

fn kept_output() -> TransactionOutput {
    output(TransactionStatus::Keep(KeptVMStatus::Executed), one_write())
}

// ---------------------------------------------------------------------
// Whole runs.
// ---------------------------------------------------------------------

#[test]
fn scenario_success_failure_success() {
    let commands = vec![
        Command::Transaction(transaction("script main", vec![])),
        Command::Transaction(transaction("bad_script", vec![])),
        block(5),
    ];
    let log = run(&commands).unwrap();
    assert_eq!(statuses(&log), vec![Status::Success, Status::Failure, Status::Success]);
    assert!(log.failures_are_marked());
    assert_eq!(log.get_failed_transactions(), vec![(1, Stage::Verifier)]);
}

#[test]
fn scenario_success_failure_success_full_log() {
    let commands = vec![
        Command::Transaction(transaction("script main", vec![])),
        Command::Transaction(transaction("bad_script", vec![])),
        block(5),
    ];
    let log = run(&commands).unwrap();
    let expected = vec![
        EvaluationOutput::Transaction(0),
        EvaluationOutput::Stage(Stage::Compiler),
        EvaluationOutput::Output(OutputType::CompiledScript(Box::new(script(vec![1, 2, 3])))),
        EvaluationOutput::Stage(Stage::Verifier),
        EvaluationOutput::Stage(Stage::Serializer),
        EvaluationOutput::Stage(Stage::Runtime),
        EvaluationOutput::Output(OutputType::TransactionOutput(Box::new(kept_output()))),
        EvaluationOutput::Status(Status::Success),
        EvaluationOutput::Transaction(1),
        EvaluationOutput::Stage(Stage::Compiler),
        EvaluationOutput::Output(OutputType::CompiledScript(Box::new(script(vec![
            BAD_BYTECODE,
        ])))),
        EvaluationOutput::Stage(Stage::Verifier),
        EvaluationOutput::Error(Box::new(Error::VerificationError(VMStatus::Error(MALFORMED)))),
        EvaluationOutput::Status(Status::Failure),
        EvaluationOutput::Output(OutputType::TransactionOutput(Box::new(kept_output()))),
        EvaluationOutput::Status(Status::Success),
    ];
    assert_eq!(log.outputs, expected);
}

#[test]
fn scenario_only_compiler_enabled() {
    let commands = vec![Command::Transaction(transaction(
        "script main",
        vec![Stage::Verifier, Stage::Serializer, Stage::Runtime],
    ))];
    let log = run(&commands).unwrap();
    assert_eq!(
        log.outputs,
        vec![
            EvaluationOutput::Transaction(0),
            EvaluationOutput::Stage(Stage::Compiler),
            EvaluationOutput::Output(OutputType::CompiledScript(Box::new(script(vec![1, 2, 3])))),
            EvaluationOutput::Status(Status::Success),
        ]
    );
}

#[test]
fn one_status_per_command_in_command_order() {
    let commands = vec![
        Command::Transaction(transaction("nonsense", vec![])),
        block(13),
        Command::Transaction(transaction("script main", vec![Stage::Compiler])),
        block(99),
        Command::Transaction(transaction("code d0", vec![])),
        block(5),
    ];
    let log = run(&commands).unwrap();
    assert_eq!(
        statuses(&log),
        vec![
            Status::Failure,
            Status::Failure,
            Status::Success,
            Status::Failure,
            Status::Failure,
            Status::Success,
        ]
    );
}

#[test]
fn empty_run_gives_empty_log() {
    let log = run(&[]).unwrap();
    assert!(log.outputs.is_empty());
    assert_eq!(log.to_string(), "");
}

#[test]
fn failed_commands_do_not_stop_the_run() {
    let commands = vec![
        Command::Transaction(transaction("nonsense", vec![])),
        Command::Transaction(transaction("script main", vec![])),
    ];
    let log = run(&commands).unwrap();
    assert_eq!(statuses(&log), vec![Status::Failure, Status::Success]);
    assert_eq!(log.get_failed_transactions(), vec![(0, Stage::Compiler)]);
}

#[test]
fn eval_makes_its_own_environment() {
    let commands = vec![Command::Transaction(transaction("script main", vec![]))];
    let log = eval::<_, _, _, _, StubExecutor>(
        &global(),
        StubCompiler { calls: 0 },
        &StubVerifier,
        &StubSerializer::faithful(),
        &StubSigner,
        &commands,
    )
    .unwrap();
    assert_eq!(statuses(&log), vec![Status::Success]);
}

#[test]
fn setup_places_accounts_and_refreshes_genesis_accounts() {
    let genesis = Account {
        addr: address(0x6E),
        private_key: AccountPrivateKey { bytes: vec![9] },
    };
    let unknown = Account {
        addr: address(0x7F),
        private_key: AccountPrivateKey { bytes: vec![8] },
    };
    let mut exec = StubExecutor::new();
    let mut data = account_data(genesis.clone(), 77, 3);
    data.sent_events_count = 4;
    data.token_code = "other".to_string();
    exec.accounts.push(data);
    let registry = PrecompiledScripts::new();
    let config = GlobalConfig {
        accounts: vec![account_data(sender(), 5_000, 7)],
        genesis_accounts: vec![genesis.clone(), unknown.clone()],
        precompiled_scripts: &registry,
        maximum_number_of_gas_units: 4_000_000,
    };
    let log = eval_with_executor(
        &config,
        StubCompiler { calls: 0 },
        &StubVerifier,
        &StubSerializer::faithful(),
        &StubSigner,
        &mut exec,
        &[],
    )
    .unwrap();
    assert!(log.outputs.is_empty());
    assert_eq!(exec.accounts.len(), 2);
    assert!(exec.read_account_resource(&unknown).is_none());
    assert_eq!(exec.read_account_resource(&sender()).unwrap().sequence_number, 7);
    let refreshed = exec.accounts.iter().find(|a| a.account.addr == genesis.addr).unwrap();
    assert_eq!(refreshed.balance, 77);
    assert_eq!(refreshed.sequence_number, 3);
    assert_eq!(refreshed.sent_events_count, 4);
    assert_eq!(refreshed.token_code, "0x1::STC::STC");
}

#[test]
fn setup_without_accounts_leaves_the_environment_alone() {
    let mut exec = StubExecutor::with_sender();
    setup_accounts(&global(), &mut exec);
    assert_eq!(exec.accounts.len(), 1);
    assert_eq!(exec.read_balance_resource(&sender()).unwrap().token, 5_000);
}

#[test]
fn setup_adds_accounts_in_order() {
    let mut exec = StubExecutor::new();
    let registry = PrecompiledScripts::new();
    let config = GlobalConfig {
        accounts: vec![account_data(sender(), 1, 1), account_data(sender(), 2, 2)],
        genesis_accounts: vec![],
        precompiled_scripts: &registry,
        maximum_number_of_gas_units: 1,
    };
    setup_accounts(&config, &mut exec);
    // the later entry for the same address replaces the earlier one
    assert_eq!(exec.accounts.len(), 1);
    assert_eq!(exec.read_balance_resource(&sender()).unwrap().token, 2);
    assert_eq!(exec.read_account_resource(&sender()).unwrap().sequence_number, 2);
}

// ---------------------------------------------------------------------
// Stage skipping.
// ---------------------------------------------------------------------

#[test]
fn disabled_compiler_skips_everything() {
    let (status, log, exec) = run_one("nonsense", vec![Stage::Compiler], StubSerializer::faithful());
    assert_eq!(status.unwrap(), Status::Success);
    assert_eq!(log.outputs, vec![EvaluationOutput::Transaction(0)]);
    assert!(exec.executed.is_empty());
}

#[test]
fn disabled_verifier_skips_serializer_and_runtime() {
    let (status, log, exec) = run_one("bad_script", vec![Stage::Verifier], StubSerializer::faithful());
    assert_eq!(status.unwrap(), Status::Success);
    assert_eq!(stages(&log), vec![Stage::Compiler]);
    assert!(exec.executed.is_empty());
}

#[test]
fn disabled_serializer_does_not_gate_runtime() {
    let lossy = StubSerializer { lossy: false, unreadable: true, refuses: false };
    let (status, log, exec) = run_one("script main", vec![Stage::Serializer], lossy);
    assert_eq!(status.unwrap(), Status::Success);
    assert_eq!(stages(&log), vec![Stage::Compiler, Stage::Verifier, Stage::Runtime]);
    assert_eq!(exec.executed.len(), 1);
}

#[test]
fn disabled_runtime_stops_after_serializer() {
    let (status, log, exec) = run_one("code d0", vec![Stage::Runtime], StubSerializer::faithful());
    assert_eq!(status.unwrap(), Status::Success);
    assert_eq!(stages(&log), vec![Stage::Compiler, Stage::Verifier, Stage::Serializer]);
    assert!(exec.executed.is_empty());
    assert!(exec.applied.is_empty());
}

#[test]
fn runs_stage_follows_the_skip_rule() {
    let all = [Stage::Compiler, Stage::Verifier, Stage::Serializer, Stage::Runtime];
    let runs = |disabled: Vec<Stage>| -> Vec<bool> {
        let config = tx_config(disabled);
        all.iter().map(|s| config.runs_stage(*s)).collect()
    };
    assert_eq!(runs(vec![]), vec![true, true, true, true]);
    assert_eq!(runs(vec![Stage::Compiler]), vec![false, false, false, false]);
    assert_eq!(runs(vec![Stage::Verifier]), vec![true, false, false, false]);
    assert_eq!(runs(vec![Stage::Serializer]), vec![true, true, false, true]);
    assert_eq!(runs(vec![Stage::Runtime]), vec![true, true, true, false]);
    assert_eq!(runs(vec![Stage::Runtime, Stage::Serializer]), vec![true, true, false, false]);
    let config = tx_config(vec![Stage::Runtime]);
    assert!(config.is_stage_disabled(Stage::Runtime));
    assert!(!config.is_stage_disabled(Stage::Compiler));
}

// ---------------------------------------------------------------------
// One stage at a time.
// ---------------------------------------------------------------------

#[test]
fn compile_error_is_recorded_after_the_compiler_log() {
    let (status, log, _) = run_one("nonsense", vec![], StubSerializer::faithful());
    assert_eq!(status.unwrap(), Status::Failure);
    assert_eq!(
        log.outputs,
        vec![
            EvaluationOutput::Transaction(0),
            EvaluationOutput::Stage(Stage::Compiler),
            EvaluationOutput::Output(OutputType::CompilerLog("giving up".to_string())),
            EvaluationOutput::Error(Box::new(Error::CompileError(
                "cannot compile 'nonsense'".to_string()
            ))),
        ]
    );
}

#[test]
fn compiler_log_lines_come_before_the_artifact() {
    let (status, log, _) = run_one("verbose", vec![Stage::Verifier], StubSerializer::faithful());
    assert_eq!(status.unwrap(), Status::Success);
    assert_eq!(
        log.outputs,
        vec![
            EvaluationOutput::Transaction(0),
            EvaluationOutput::Stage(Stage::Compiler),
            EvaluationOutput::Output(OutputType::CompilerLog("parsing".to_string())),
            EvaluationOutput::Output(OutputType::CompilerLog(format!("sender {}", 0xA11CE))),
            EvaluationOutput::Output(OutputType::CompiledScript(Box::new(script(vec![1, 2, 3])))),
        ]
    );
}

#[test]
fn precompiled_script_bypasses_the_compiler() {
    let mut registry = PrecompiledScripts::new();
    registry.insert("peer_to_peer".to_string(), script(vec![4, 4]));
    let config = global_with(&registry);
    let mut exec = StubExecutor::with_sender();
    let mut compiler = StubCompiler { calls: 0 };
    let mut log = EvaluationLog::new();
    let status = eval_transaction(
        &config,
        &mut compiler,
        &StubVerifier,
        &StubSerializer::faithful(),
        &StubSigner,
        &mut exec,
        3,
        &transaction("stdlib_script::peer_to_peer", vec![Stage::Verifier]),
        &mut log,
    );
    assert_eq!(status.unwrap(), Status::Success);
    assert_eq!(compiler.calls, 0);
    assert_eq!(
        log.outputs,
        vec![
            EvaluationOutput::Transaction(3),
            EvaluationOutput::Stage(Stage::Compiler),
            EvaluationOutput::Output(OutputType::CompiledScript(Box::new(script(vec![4, 4])))),
        ]
    );
}

#[test]
fn unregistered_precompiled_name_goes_to_the_compiler() {
    let mut exec = StubExecutor::with_sender();
    let mut compiler = StubCompiler { calls: 0 };
    let mut log = EvaluationLog::new();
    let status = eval_transaction(
        &global(),
        &mut compiler,
        &StubVerifier,
        &StubSerializer::faithful(),
        &StubSigner,
        &mut exec,
        0,
        &transaction("stdlib_script::unknown", vec![]),
        &mut log,
    );
    assert_eq!(status.unwrap(), Status::Failure);
    assert_eq!(compiler.calls, 1);
}

#[test]
fn serialization_mismatch_is_recorded() {
    let lossy = StubSerializer { lossy: true, unreadable: false, refuses: false };
    let (status, log, exec) = run_one("script main", vec![], lossy);
    assert_eq!(status.unwrap(), Status::Failure);
    assert_eq!(stages(&log), vec![Stage::Compiler, Stage::Verifier, Stage::Serializer]);
    assert_eq!(
        log.outputs.last().unwrap(),
        &EvaluationOutput::Error(Box::new(Error::SerializationMismatch))
    );
    assert!(exec.executed.is_empty());
}

#[test]
fn round_trip_of_a_faithful_serializer_passes() {
    let serializer = StubSerializer::faithful();
    let s = CompiledScript::new(unit(vec![(0, 1)], vec![5], vec!["a", "b"], vec![1, 2]));
    assert_eq!(serialize_and_deserialize_script(&serializer, &s), Ok(()));
    let m = CompiledModule::new(unit(vec![(0, 0)], vec![5], vec!["M"], vec![]));
    assert_eq!(serialize_and_deserialize_module(&serializer, &m), Ok(()));
}

#[test]
fn round_trip_failures_are_told_apart() {
    let s = script(vec![1, 2]);
    let m = CompiledModule::new(unit(vec![(0, 0)], vec![5], vec!["M"], vec![3]));
    let lossy = StubSerializer { lossy: true, unreadable: false, refuses: false };
    assert_eq!(serialize_and_deserialize_script(&lossy, &s), Err(Error::SerializationMismatch));
    assert_eq!(serialize_and_deserialize_module(&lossy, &m), Err(Error::SerializationMismatch));
    let unreadable = StubSerializer { lossy: false, unreadable: true, refuses: false };
    assert_eq!(
        serialize_and_deserialize_script(&unreadable, &s),
        Err(Error::Other("cannot deserialize".to_string()))
    );
    let refuses = StubSerializer { lossy: false, unreadable: false, refuses: true };
    assert_eq!(
        serialize_and_deserialize_module(&refuses, &m),
        Err(Error::Other("cannot serialize".to_string()))
    );
}

#[test]
fn verify_hands_the_unit_back() {
    let s = script(vec![1]);
    assert_eq!(verify_script(&StubVerifier, s.clone(), &vec![]), Ok(s));
    assert_eq!(
        verify_script(&StubVerifier, script(vec![BAD_BYTECODE]), &vec![]),
        Err(VMStatus::Error(MALFORMED))
    );
    let m = CompiledModule::new(unit(vec![(0, 0), (0, 1)], vec![5], vec!["M", "needed_N"], vec![]));
    assert_eq!(
        verify_module(&StubVerifier, m.clone(), &vec![]),
        Err(VMStatus::Error(MISSING_DEPENDENCY))
    );
    let n = CompiledModule::new(unit(vec![(0, 0)], vec![5], vec!["needed_N"], vec![]));
    assert_eq!(verify_module(&StubVerifier, m.clone(), &vec![n]), Ok(m));
}

// ---------------------------------------------------------------------
// Dependency resolution.
// ---------------------------------------------------------------------

fn library(name: &str, code: Vec<u8>) -> CompiledModule {
    CompiledModule::new(unit(vec![(0, 0)], vec![0xA11CE], vec![name], code))
}

#[test]
fn resolution_returns_only_present_modules() {
    let mut exec = StubExecutor::with_sender();
    let present = library("Present", vec![1]);
    exec.publish(&present);
    let user = CompiledModule::new(unit(
        vec![(0, 1), (0, 2)],
        vec![0xA11CE],
        vec!["User", "Present", "Absent"],
        vec![7],
    ));
    let deps = fetch_module_dependencies(&exec, &StubSerializer::faithful(), &StubVerifier, &user);
    assert_eq!(deps, vec![present]);
}

#[test]
fn resolution_drops_modules_that_fail_verification_or_do_not_decode() {
    let mut exec = StubExecutor::with_sender();
    let good = library("Good", vec![1]);
    let bad = library("Bad", vec![BAD_BYTECODE]);
    exec.publish(&good);
    exec.publish(&bad);
    exec.modules.push((ModuleId::new(address(0xA11CE), "Garbage".to_string()), vec![200]));
    let s = CompiledScript::new(unit(
        vec![(0, 0), (0, 1), (0, 2)],
        vec![0xA11CE],
        vec!["Bad", "Good", "Garbage"],
        vec![],
    ));
    let deps = fetch_script_dependencies(&exec, &StubSerializer::faithful(), &StubVerifier, &s);
    assert_eq!(deps, vec![good.clone()]);
    let found = fetch_dependency(
        &exec,
        &StubSerializer::faithful(),
        &StubVerifier,
        ModuleId::new(address(0xA11CE), "Good".to_string()),
    );
    assert_eq!(found, Some(good));
    let other_address = fetch_dependency(
        &exec,
        &StubSerializer::faithful(),
        &StubVerifier,
        ModuleId::new(address(1), "Good".to_string()),
    );
    assert_eq!(other_address, None);
}

#[test]
fn resolution_keeps_the_order_of_the_identifiers() {
    let mut exec = StubExecutor::with_sender();
    let a = library("A", vec![1]);
    let b = library("B", vec![2]);
    exec.publish(&a);
    exec.publish(&b);
    let ids = vec![
        ModuleId::new(address(0xA11CE), "B".to_string()),
        ModuleId::new(address(0xA11CE), "Missing".to_string()),
        ModuleId::new(address(0xA11CE), "A".to_string()),
    ];
    let deps = fetch_dependencies(&exec, &StubSerializer::faithful(), &StubVerifier, ids);
    assert_eq!(deps, vec![b, a]);
}

#[test]
fn scenario_absent_dependency_that_is_not_needed() {
    let mut exec = StubExecutor::with_sender();
    exec.publish(&library("Present", vec![1]));
    let mut log = EvaluationLog::new();
    let status = eval_transaction(
        &global(),
        &mut StubCompiler { calls: 0 },
        &StubVerifier,
        &StubSerializer::faithful(),
        &StubSigner,
        &mut exec,
        0,
        &transaction("module User uses Present Absent", vec![]),
        &mut log,
    );
    assert_eq!(status.unwrap(), Status::Success);
    assert_eq!(
        stages(&log),
        vec![Stage::Compiler, Stage::Verifier, Stage::Serializer, Stage::Runtime]
    );
    assert!(matches!(
        &exec.executed[0].raw_txn.payload,
        TransactionPayload::Module { .. }
    ));
}

#[test]
fn scenario_absent_dependency_that_is_needed() {
    let mut exec = StubExecutor::with_sender();
    exec.publish(&library("Present", vec![1]));
    let mut log = EvaluationLog::new();
    let status = eval_transaction(
        &global(),
        &mut StubCompiler { calls: 0 },
        &StubVerifier,
        &StubSerializer::faithful(),
        &StubSigner,
        &mut exec,
        0,
        &transaction("module User uses Present needed_Absent", vec![]),
        &mut log,
    );
    assert_eq!(status.unwrap(), Status::Failure);
    assert_eq!(stages(&log), vec![Stage::Compiler, Stage::Verifier]);
    assert_eq!(
        log.outputs.last().unwrap(),
        &EvaluationOutput::Error(Box::new(Error::VerificationError(VMStatus::Error(
            MISSING_DEPENDENCY
        ))))
    );
    log.append(EvaluationOutput::Status(Status::Failure));
    assert_eq!(log.get_failed_transactions(), vec![(0, Stage::Verifier)]);
}

// ---------------------------------------------------------------------
// The runtime stage.
// ---------------------------------------------------------------------

#[test]
fn kept_and_executed_applies_the_write_set() {
    let (status, log, exec) = run_one("script main", vec![], StubSerializer::faithful());
    assert_eq!(status.unwrap(), Status::Success);
    assert_eq!(exec.applied, vec![1]);
    assert_eq!(
        log.outputs.last().unwrap(),
        &EvaluationOutput::Output(OutputType::TransactionOutput(Box::new(kept_output())))
    );
}

#[test]
fn kept_but_not_executed_is_an_execution_failure() {
    let (status, log, exec) = run_one("code ab", vec![], StubSerializer::faithful());
    assert_eq!(status.unwrap(), Status::Failure);
    assert_eq!(exec.applied, vec![1]);
    assert_eq!(
        log.outputs.last().unwrap(),
        &EvaluationOutput::Error(Box::new(Error::ExecutionFailure(
            VMStatus::MoveAbort(42),
            output(TransactionStatus::Keep(KeptVMStatus::MoveAbort(42)), one_write()),
        )))
    );
}

#[test]
fn discarded_transaction_is_recorded_with_an_empty_write_set() {
    let (status, log, exec) = run_one("code d0", vec![], StubSerializer::faithful());
    assert_eq!(status.unwrap(), Status::Failure);
    assert!(exec.applied.is_empty());
    match log.outputs.last().unwrap() {
        EvaluationOutput::Error(e) => match &**e {
            Error::DiscardedTransaction(o) => {
                assert!(o.write_set().is_empty());
                assert_eq!(*o.status(), TransactionStatus::Discard(3));
            }
            other => panic!("unexpected error {:?}", other),
        },
        other => panic!("unexpected entry {:?}", other),
    }
}

#[test]
fn discard_with_writes_is_fatal() {
    let (status, log, exec) = run_one("code d1", vec![], StubSerializer::faithful());
    assert!(matches!(status, Err(Error::InternalInvariantViolation(_))));
    assert!(exec.applied.is_empty());
    assert!(statuses(&log).is_empty());
    assert_eq!(log.outputs.last().unwrap(), &EvaluationOutput::Stage(Stage::Runtime));
    let commands = vec![
        Command::Transaction(transaction("code d1", vec![])),
        Command::Transaction(transaction("script main", vec![])),
    ];
    assert!(matches!(run(&commands), Err(Error::InternalInvariantViolation(_))));
}

#[test]
fn wrong_number_of_outputs_is_fatal() {
    let (status, _, _) = run_one("code 22", vec![], StubSerializer::faithful());
    assert_eq!(
        status,
        Err(Error::InternalInvariantViolation("transaction outputs size mismatch".to_string()))
    );
}

#[test]
fn environment_failure_on_a_user_transaction_is_fatal() {
    let (status, _, _) = run_one("code ef", vec![], StubSerializer::faithful());
    assert_eq!(status, Err(Error::Other("environment is down".to_string())));
}

#[test]
fn run_transaction_classifies_the_single_output() {
    let txn = |code: u8| {
        SignedUserTransaction::new(
            RawUserTransaction::new_module(address(1), 0, vec![code], 1, 0, 1, TEST_CHAIN_ID),
            Signature { bytes: vec![] },
        )
    };
    let mut exec = StubExecutor::with_sender();
    assert_eq!(run_transaction(&mut exec, txn(0)), Ok(Ok(kept_output())));
    assert!(matches!(
        run_transaction(&mut exec, txn(ABORTS)),
        Ok(Err(Error::ExecutionFailure(VMStatus::MoveAbort(42), _)))
    ));
    assert!(matches!(
        run_transaction(&mut exec, txn(DISCARDED)),
        Ok(Err(Error::DiscardedTransaction(_)))
    ));
    assert!(matches!(
        run_transaction(&mut exec, txn(DISCARDED_WITH_WRITES)),
        Err(Error::InternalInvariantViolation(_))
    ));
    assert_eq!(exec.applied, vec![1, 1]);
}

#[test]
fn missing_sender_account_is_fatal() {
    let mut exec = StubExecutor::new();
    let mut log = EvaluationLog::new();
    let status = eval_transaction(
        &global(),
        &mut StubCompiler { calls: 0 },
        &StubVerifier,
        &StubSerializer::faithful(),
        &StubSigner,
        &mut exec,
        0,
        &transaction("script main", vec![]),
        &mut log,
    );
    assert_eq!(status, Err(Error::Other("read_account_resource fail".to_string())));
}

#[test]
fn serializer_failure_while_building_the_transaction_is_fatal() {
    let refuses = StubSerializer { lossy: false, unreadable: false, refuses: true };
    let (status, _, _) = run_one("script main", vec![Stage::Serializer], refuses);
    assert_eq!(status, Err(Error::Other("cannot serialize".to_string())));
}

// ---------------------------------------------------------------------
// Building the transaction.
// ---------------------------------------------------------------------

#[test]
fn parameters_default_from_the_environment() {
    let exec = StubExecutor::with_sender();
    let config = tx_config(vec![]);
    let params = get_transaction_parameters(&exec, 4_000_000, &config).unwrap();
    assert_eq!(params.sender_addr, address(0xA11CE));
    assert_eq!(params.privkey.bytes, vec![1, 2, 3]);
    assert_eq!(params.sequence_number, 7);
    assert_eq!(params.max_gas_amount, 4_000_000);
    assert_eq!(params.gas_unit_price, 0);
    assert_eq!(params.expiration_timestamp_seconds, 1000 + 3600);
}

#[test]
fn parameters_take_what_the_config_sets() {
    let exec = StubExecutor::with_sender();
    let mut config = tx_config(vec![]);
    config.sequence_number = Some(11);
    config.max_gas = Some(9_999_999);
    config.gas_price = Some(3);
    config.expiration_time = Some(5);
    let params = get_transaction_parameters(&exec, 4_000_000, &config).unwrap();
    assert_eq!(params.sequence_number, 11);
    assert_eq!(params.max_gas_amount, 9_999_999);
    assert_eq!(params.gas_unit_price, 3);
    assert_eq!(params.expiration_timestamp_seconds, 1005);
}

#[test]
fn max_gas_is_capped_by_what_the_balance_pays_for() {
    let exec = StubExecutor::with_sender();
    let mut config = tx_config(vec![]);
    config.gas_price = Some(3);
    // 5000 / 3 = 1666, rounded down
    assert_eq!(get_transaction_parameters(&exec, 4_000_000, &config).unwrap().max_gas_amount, 1666);
    assert_eq!(get_transaction_parameters(&exec, 1_000, &config).unwrap().max_gas_amount, 1_000);
    assert_eq!(get_transaction_parameters(&exec, 1_666, &config).unwrap().max_gas_amount, 1_666);
    config.gas_price = Some(5_001);
    assert_eq!(get_transaction_parameters(&exec, 4_000_000, &config).unwrap().max_gas_amount, 0);
}

#[test]
fn max_gas_with_a_balance_beyond_64_bits() {
    let mut exec = StubExecutor::new();
    exec.accounts.push(account_data(sender(), u128::MAX, 0));
    let mut config = tx_config(vec![]);
    config.gas_price = Some(1);
    assert_eq!(
        get_transaction_parameters(&exec, 4_000_000, &config).unwrap().max_gas_amount,
        4_000_000
    );
}

#[test]
fn expiration_out_of_range_is_refused() {
    let mut exec = StubExecutor::with_sender();
    exec.now = u64::MAX - 3599;
    let config = tx_config(vec![]);
    assert_eq!(
        get_transaction_parameters(&exec, 1, &config).unwrap_err(),
        Error::Other("expiration time out of range".to_string())
    );
    exec.now = u64::MAX - 3600;
    assert_eq!(
        get_transaction_parameters(&exec, 1, &config).unwrap().expiration_timestamp_seconds,
        u64::MAX
    );
}

#[test]
fn missing_balance_is_refused() {
    struct NoBalance(StubExecutor);
    impl Executor for NoBalance {
        fn create() -> Result<Self, Error> {
            Err(Error::Other("no environment".to_string()))
        }
        fn add_account_data(&mut self, data: &AccountData) {
            self.0.add_account_data(data)
        }
        fn get(&self, path: &AccessPath) -> Option<Vec<u8>> {
            self.0.get(path)
        }
        fn execute_block(
            &mut self,
            txns: Vec<SignedUserTransaction>,
        ) -> Result<Vec<(VMStatus, TransactionOutput)>, String> {
            self.0.execute_block(txns)
        }
        fn execute_transaction_block(
            &mut self,
            txns: Vec<LedgerTransaction>,
        ) -> Result<Vec<(VMStatus, TransactionOutput)>, String> {
            self.0.execute_transaction_block(txns)
        }
        fn apply_write_set(&mut self, write_set: &WriteSet) {
            self.0.apply_write_set(write_set)
        }
        fn read_account_resource(&self, account: &Account) -> Option<AccountResource> {
            self.0.read_account_resource(account)
        }
        fn read_balance_resource(&self, _account: &Account) -> Option<BalanceResource> {
            None
        }
        fn read_timestamp(&self) -> u64 {
            self.0.read_timestamp()
        }
    }
    let exec = NoBalance(StubExecutor::with_sender());
    assert_eq!(
        get_transaction_parameters(&exec, 1, &tx_config(vec![])).unwrap_err(),
        Error::Other("read_balance_resource fail".to_string())
    );
    let made = eval::<_, _, _, _, NoBalance>(
        &global(),
        StubCompiler { calls: 0 },
        &StubVerifier,
        &StubSerializer::faithful(),
        &StubSigner,
        &[],
    );
    assert_eq!(made, Err(Error::Other("no environment".to_string())));
}

#[test]
fn script_transaction_carries_parameters_and_arguments() {
    let exec = StubExecutor::with_sender();
    let mut config = tx_config(vec![]);
    config.ty_args = vec![TypeTag { name: "u64".to_string() }];
    config.args = vec![
        TransactionArgument::U64(5),
        TransactionArgument::U8Vector(vec![1, 2]),
        TransactionArgument::Address(address(9)),
    ];
    config.gas_price = Some(2);
    let s = script(vec![1, 2, 3]);
    let txn = make_script_transaction(
        &exec,
        &StubSerializer::faithful(),
        &StubSigner,
        4_000_000,
        &config,
        s.clone(),
    )
    .unwrap();
    assert_eq!(
        txn.raw_txn,
        RawUserTransaction {
            sender: address(0xA11CE),
            sequence_number: 7,
            payload: TransactionPayload::Script {
                code: encode(s.as_inner()),
                ty_args: vec![TypeTag { name: "u64".to_string() }],
                args: vec![
                    TransactionArgument::U64(5),
                    TransactionArgument::U8Vector(vec![1, 2]),
                    TransactionArgument::Address(address(9)),
                ],
            },
            max_gas_amount: 2_500,
            gas_unit_price: 2,
            expiration_timestamp_secs: 4_600,
            chain_id: 255,
        }
    );
    assert_eq!(txn.signature, Signature { bytes: vec![1, 2, 3, 7] });
}

#[test]
fn module_transaction_carries_parameters() {
    let exec = StubExecutor::with_sender();
    let config = tx_config(vec![]);
    let m = library("M", vec![5]);
    let txn = make_module_transaction(
        &exec,
        &StubSerializer::faithful(),
        &StubSigner,
        100,
        &config,
        m.clone(),
    )
    .unwrap();
    assert_eq!(
        txn.raw_txn,
        RawUserTransaction {
            sender: address(0xA11CE),
            sequence_number: 7,
            payload: TransactionPayload::Module { code: encode(m.as_inner()) },
            max_gas_amount: 100,
            gas_unit_price: 0,
            expiration_timestamp_secs: 4_600,
            chain_id: TEST_CHAIN_ID,
        }
    );
}

// ---------------------------------------------------------------------
// Block metadata.
// ---------------------------------------------------------------------

fn metadata(number: u64) -> BlockMetadata {
    BlockMetadata { timestamp: 2000, author: address(1), number }
}

#[test]
fn kept_block_is_applied_and_logged() {
    let mut exec = StubExecutor::with_sender();
    let mut log = EvaluationLog::new();
    let status = eval_block_metadata(&mut exec, metadata(5), &mut log);
    assert_eq!(status, Ok(Status::Success));
    assert_eq!(exec.applied, vec![1]);
    assert_eq!(exec.now, 2000);
    assert_eq!(
        log.outputs,
        vec![EvaluationOutput::Output(OutputType::TransactionOutput(Box::new(kept_output())))]
    );
}

#[test]
fn discarded_block_is_a_verification_error() {
    let mut exec = StubExecutor::with_sender();
    let mut log = EvaluationLog::new();
    let status = eval_block_metadata(&mut exec, metadata(13), &mut log);
    assert_eq!(status, Ok(Status::Failure));
    assert!(exec.applied.is_empty());
    assert_eq!(
        log.outputs,
        vec![EvaluationOutput::Error(Box::new(Error::VerificationError(VMStatus::Error(13))))]
    );
}

#[test]
fn environment_error_on_a_block_is_a_generic_error() {
    let mut exec = StubExecutor::with_sender();
    let mut log = EvaluationLog::new();
    let status = eval_block_metadata(&mut exec, metadata(99), &mut log);
    assert_eq!(status, Ok(Status::Failure));
    assert_eq!(
        log.outputs,
        vec![EvaluationOutput::Error(Box::new(Error::Other("no such block".to_string())))]
    );
}

#[test]
fn block_without_output_is_fatal() {
    let mut exec = StubExecutor::with_sender();
    let mut log = EvaluationLog::new();
    let status = eval_block_metadata(&mut exec, metadata(0), &mut log);
    assert!(matches!(status, Err(Error::InternalInvariantViolation(_))));
    assert!(log.outputs.is_empty());
    assert!(matches!(run(&[block(0)]), Err(Error::InternalInvariantViolation(_))));
}

// ---------------------------------------------------------------------
// Rendering of a run.
// ---------------------------------------------------------------------

#[test]
fn log_renders_one_line_per_entry() {
    let commands = vec![
        Command::Transaction(transaction("verbose", vec![Stage::Verifier])),
        Command::Transaction(transaction("bad_script", vec![Stage::Runtime])),
    ];
    let log = run(&commands).unwrap();
    let expected = format!(
        "[0] Transaction 0\n[1] Stage: Compiler\n[2] parsing\n[3] sender {}\n[4] {:#?}\n\
         [5] Status: Success\n[6] Transaction 1\n[7] Stage: Compiler\n[8] {:#?}\n\
         [9] Stage: Verifier\n[10] Error: {:#?}\n[11] Status: Failure\n",
        0xA11CE,
        script(vec![1, 2, 3]),
        script(vec![BAD_BYTECODE]),
        Error::VerificationError(VMStatus::Error(MALFORMED)),
    );
    assert_eq!(log.to_string(), expected);
}
