use functional_tests::account::{
    Account, AccountData, AccountPrivateKey, AccountResource, BalanceResource, STC_TOKEN_CODE_STR,
};
use functional_tests::bytecode::{
    bytes_equal, CompiledModule, CompiledScript, CompiledUnit, ModuleHandle,
};
use functional_tests::block::classify_block_result;
use functional_tests::errors::Error;
use functional_tests::pipeline::{
    classify_output, keeps_effects, module_round_trip_verdict, script_round_trip_verdict,
    single_output,
};
use functional_tests::precompiled::{is_precompiled_script, PrecompiledScripts};
use functional_tests::resolver::accept_dependency;
use functional_tests::transaction::{
    clone_arguments, clone_type_tags, TransactionArgument, TypeTag,
};
use functional_tests::types::{
    AccessPath, AccountAddress, DataPath, KeptVMStatus, ModuleId, TransactionOutput,
    TransactionStatus, VMStatus, WriteOp, WriteSet,
};

fn address(value: u128) -> AccountAddress {
    AccountAddress { value }
}

fn handle(address: u16, name: u16) -> ModuleHandle {
    ModuleHandle { address, name }
}

fn names(list: &[&str]) -> Vec<String> {
    list.iter().map(|n| n.to_string()).collect()
}

fn sample_unit() -> CompiledUnit {
    CompiledUnit::new(
        vec![handle(1, 0), handle(0, 2)],
        vec![address(10), address(20)],
        names(&["A", "B", "C"]),
        vec![9, 8, 7],
    )
    .unwrap()
}

fn one_write() -> WriteSet {
    WriteSet {
        ops: vec![WriteOp {
            access_path: AccessPath { address: address(1), path: DataPath::Resource(vec![1]) },
            value: None,
        }],
    }
}

fn output(status: TransactionStatus, write_set: WriteSet) -> TransactionOutput {
    TransactionOutput { write_set, gas_used: 1, status }
}

#[test]
fn unit_keeps_its_tables_and_code() {
    let unit = sample_unit();
    assert_eq!(unit.module_handles(), &vec![handle(1, 0), handle(0, 2)]);
    assert_eq!(unit.address_identifiers(), &vec![address(10), address(20)]);
    assert_eq!(unit.identifiers(), &names(&["A", "B", "C"]));
    assert_eq!(unit.code(), &vec![9, 8, 7]);
}

#[test]
fn unit_refuses_handles_out_of_bounds() {
    assert!(CompiledUnit::new(vec![handle(0, 0)], vec![], names(&["A"]), vec![]).is_none());
    assert!(CompiledUnit::new(vec![handle(0, 0)], vec![address(1)], vec![], vec![]).is_none());
    assert!(
        CompiledUnit::new(vec![handle(1, 0)], vec![address(1)], names(&["A"]), vec![]).is_none()
    );
    assert!(CompiledUnit::new(
        vec![handle(0, 0), handle(0, 1)],
        vec![address(1)],
        names(&["A"]),
        vec![]
    )
    .is_none());
    assert!(
        CompiledUnit::new(vec![handle(0, 0)], vec![address(1)], names(&["A"]), vec![]).is_some()
    );
    assert!(CompiledUnit::new(vec![], vec![], vec![], vec![]).is_some());
}

#[test]
fn module_ids_follow_the_handle_table() {
    let ids = sample_unit().module_ids();
    assert_eq!(
        ids,
        vec![
            ModuleId::new(address(20), "A".to_string()),
            ModuleId::new(address(10), "C".to_string()),
        ]
    );
    let none = CompiledUnit::new(vec![], vec![address(1)], names(&["A"]), vec![1]).unwrap();
    assert!(none.module_ids().is_empty());
}

#[test]
fn units_are_equal_when_all_four_parts_are() {
    let unit = sample_unit();
    assert!(unit == unit.clone());
    let other_code =
        CompiledUnit::new(vec![handle(1, 0), handle(0, 2)], vec![address(10), address(20)], names(&["A", "B", "C"]), vec![9, 8])
            .unwrap();
    assert!(unit != other_code);
    let other_handles =
        CompiledUnit::new(vec![handle(1, 0), handle(0, 1)], vec![address(10), address(20)], names(&["A", "B", "C"]), vec![9, 8, 7])
            .unwrap();
    assert!(unit != other_handles);
    let other_addresses =
        CompiledUnit::new(vec![handle(1, 0), handle(0, 2)], vec![address(10), address(21)], names(&["A", "B", "C"]), vec![9, 8, 7])
            .unwrap();
    assert!(unit != other_addresses);
    let other_names =
        CompiledUnit::new(vec![handle(1, 0), handle(0, 2)], vec![address(10), address(20)], names(&["A", "B", "c"]), vec![9, 8, 7])
            .unwrap();
    assert!(unit != other_names);
    let fewer_handles =
        CompiledUnit::new(vec![handle(1, 0)], vec![address(10), address(20)], names(&["A", "B", "C"]), vec![9, 8, 7])
            .unwrap();
    assert!(unit != fewer_handles);
    assert!(CompiledScript::new(unit.clone()) == CompiledScript::new(sample_unit()));
    assert!(CompiledModule::new(unit.clone()) != CompiledModule::new(other_code));
}

#[test]
fn bytes_equal_compares_contents() {
    assert!(bytes_equal(&vec![], &vec![]));
    assert!(bytes_equal(&vec![1, 2], &vec![1, 2]));
    assert!(!bytes_equal(&vec![1, 2], &vec![1, 3]));
    assert!(!bytes_equal(&vec![1, 2], &vec![1]));
}

#[test]
fn access_path_of_a_module_is_its_code_path() {
    let id = ModuleId::new(address(5), "Coin".to_string());
    assert_eq!(
        AccessPath::from_module_id(&id),
        AccessPath { address: address(5), path: DataPath::Code("Coin".to_string()) }
    );
    assert_eq!(id.clone(), id);
}

#[test]
fn write_set_emptiness() {
    assert!(WriteSet::new().is_empty());
    assert!(!one_write().is_empty());
}

#[test]
fn round_trip_verdicts() {
    let script = CompiledScript::new(sample_unit());
    assert_eq!(script_round_trip_verdict(&script, Ok(script.clone())), Ok(()));
    let other = CompiledScript::new(CompiledUnit::new(vec![], vec![], vec![], vec![]).unwrap());
    assert_eq!(script_round_trip_verdict(&script, Ok(other)), Err(Error::SerializationMismatch));
    assert_eq!(
        script_round_trip_verdict(&script, Err(Error::Other("bad magic".to_string()))),
        Err(Error::Other("bad magic".to_string()))
    );
    let module = CompiledModule::new(sample_unit());
    assert_eq!(module_round_trip_verdict(&module, Ok(module.clone())), Ok(()));
    let other = CompiledModule::new(CompiledUnit::new(vec![], vec![], vec![], vec![1]).unwrap());
    assert_eq!(module_round_trip_verdict(&module, Ok(other)), Err(Error::SerializationMismatch));
    assert_eq!(
        module_round_trip_verdict(&module, Err(Error::VerificationError(VMStatus::Error(2)))),
        Err(Error::VerificationError(VMStatus::Error(2)))
    );
}

#[test]
fn dependency_is_accepted_by_the_verdict() {
    let module = CompiledModule::new(sample_unit());
    assert_eq!(accept_dependency::<VMStatus>(module.clone(), Ok(())), Some(module.clone()));
    assert_eq!(accept_dependency(module, Err(VMStatus::Error(1))), None);
}

#[test]
fn single_output_wants_exactly_one() {
    let pair = || (VMStatus::Executed, output(TransactionStatus::Discard(1), WriteSet::new()));
    assert_eq!(single_output(vec![pair()]), Ok(pair()));
    let mismatch =
        Err(Error::InternalInvariantViolation("transaction outputs size mismatch".to_string()));
    assert_eq!(single_output(vec![]), mismatch);
    assert_eq!(single_output(vec![pair(), pair()]), mismatch);
}

#[test]
fn classification_of_execution_outcomes() {
    let executed = output(TransactionStatus::Keep(KeptVMStatus::Executed), one_write());
    assert_eq!(
        classify_output(VMStatus::Executed, executed),
        Ok(Ok(output(TransactionStatus::Keep(KeptVMStatus::Executed), one_write())))
    );
    for kept in [
        KeptVMStatus::OutOfGas,
        KeptVMStatus::MoveAbort(1),
        KeptVMStatus::ExecutionFailure(2),
        KeptVMStatus::VerificationError,
        KeptVMStatus::DeserializationError,
    ] {
        assert_eq!(
            classify_output(
                VMStatus::Error(5),
                output(TransactionStatus::Keep(kept), WriteSet::new())
            ),
            Ok(Err(Error::ExecutionFailure(
                VMStatus::Error(5),
                output(TransactionStatus::Keep(kept), WriteSet::new())
            )))
        );
    }
    assert_eq!(
        classify_output(VMStatus::Error(5), output(TransactionStatus::Discard(5), WriteSet::new())),
        Ok(Err(Error::DiscardedTransaction(output(
            TransactionStatus::Discard(5),
            WriteSet::new()
        ))))
    );
    assert_eq!(
        classify_output(VMStatus::Error(5), output(TransactionStatus::Discard(5), one_write())),
        Err(Error::InternalInvariantViolation(
            "discarded transaction has a non-empty write set".to_string()
        ))
    );
}

#[test]
fn effects_are_kept_exactly_for_kept_transactions() {
    assert!(keeps_effects(&output(TransactionStatus::Keep(KeptVMStatus::Executed), one_write())));
    assert!(keeps_effects(&output(TransactionStatus::Keep(KeptVMStatus::OutOfGas), one_write())));
    assert!(!keeps_effects(&output(TransactionStatus::Discard(1), WriteSet::new())));
}

#[test]
fn classification_of_block_results() {
    let kept = output(TransactionStatus::Keep(KeptVMStatus::OutOfGas), one_write());
    assert_eq!(
        classify_block_result(Ok(vec![(VMStatus::Executed, kept)])),
        Ok(Ok(output(TransactionStatus::Keep(KeptVMStatus::OutOfGas), one_write())))
    );
    assert_eq!(
        classify_block_result(Ok(vec![(
            VMStatus::Executed,
            output(TransactionStatus::Discard(77), one_write())
        )])),
        Ok(Err(Error::VerificationError(VMStatus::Error(77))))
    );
    assert_eq!(
        classify_block_result(Err("down".to_string())),
        Ok(Err(Error::Other("down".to_string())))
    );
    assert!(matches!(
        classify_block_result(Ok(vec![])),
        Err(Error::InternalInvariantViolation(_))
    ));
    let two = vec![
        (VMStatus::Executed, output(TransactionStatus::Discard(1), WriteSet::new())),
        (VMStatus::Executed, output(TransactionStatus::Discard(2), WriteSet::new())),
    ];
    assert!(matches!(classify_block_result(Ok(two)), Err(Error::InternalInvariantViolation(_))));
}

#[test]
fn registry_maps_names_to_scripts() {
    let first = CompiledScript::new(sample_unit());
    let second = CompiledScript::new(CompiledUnit::new(vec![], vec![], vec![], vec![5]).unwrap());
    let mut registry = PrecompiledScripts::new();
    assert!(registry.get("mint").is_none());
    registry.insert("mint".to_string(), first.clone());
    registry.insert("burn".to_string(), second.clone());
    assert_eq!(registry.get("mint"), Some(&first));
    assert_eq!(registry.get("burn"), Some(&second));
    assert!(registry.get("Mint").is_none());
    registry.insert("mint".to_string(), second.clone());
    assert_eq!(registry.get("mint"), Some(&second));
    assert_eq!(registry.get("burn"), Some(&second));
}

#[test]
fn precompiled_lookup_needs_the_prefix() {
    let script = CompiledScript::new(sample_unit());
    let mut registry = PrecompiledScripts::new();
    registry.insert("mint".to_string(), script.clone());
    registry.insert("".to_string(), script.clone());
    assert_eq!(is_precompiled_script(&registry, "stdlib_script::mint"), Some(script.clone()));
    assert_eq!(is_precompiled_script(&registry, "stdlib_script::"), Some(script));
    assert_eq!(is_precompiled_script(&registry, "mint"), None);
    assert_eq!(is_precompiled_script(&registry, "stdlib_script::burn"), None);
    assert_eq!(is_precompiled_script(&registry, "stdlib_script:mint"), None);
    assert_eq!(is_precompiled_script(&registry, " stdlib_script::mint"), None);
    assert_eq!(is_precompiled_script(&PrecompiledScripts::new(), "stdlib_script::mint"), None);
}

#[test]
fn genesis_account_data_comes_from_the_resources() {
    let genesis = Account { addr: address(1), private_key: AccountPrivateKey { bytes: vec![4] } };
    let resource = AccountResource {
        sequence_number: 9,
        withdraw_events: 1,
        deposit_events: 2,
        accept_token_events: 3,
        delegated_key_rotation_capability: true,
        delegated_withdrawal_capability: false,
    };
    let data = AccountData::with_account_and_event_counts(
        &genesis,
        &resource,
        Some(BalanceResource { token: 1_000 }),
    );
    assert_eq!(
        data,
        AccountData {
            account: genesis.clone(),
            balance: 1_000,
            token_code: "0x1::STC::STC".to_string(),
            sequence_number: 9,
            sent_events_count: 1,
            received_events_count: 2,
            accept_token_events_count: 3,
            delegated_key_rotation_capability: true,
            delegated_withdrawal_capability: false,
        }
    );
    let without_balance = AccountData::with_account_and_event_counts(&genesis, &resource, None);
    assert_eq!(without_balance.balance, 0);
    assert_eq!(without_balance.token_code, STC_TOKEN_CODE_STR);
    assert_eq!(*genesis.address(), address(1));
    assert_eq!(genesis.private_key().bytes, vec![4]);
}

#[test]
fn argument_lists_are_copied_whole() {
    let tags = vec![TypeTag { name: "u8".to_string() }, TypeTag { name: "0x1::M::T".to_string() }];
    assert_eq!(clone_type_tags(&tags), tags);
    let args = vec![
        TransactionArgument::U8(1),
        TransactionArgument::U64(2),
        TransactionArgument::U128(3),
        TransactionArgument::Address(address(4)),
        TransactionArgument::U8Vector(vec![5, 6]),
        TransactionArgument::Bool(true),
    ];
    assert_eq!(clone_arguments(&args), args);
    assert!(clone_arguments(&vec![]).is_empty());
}
