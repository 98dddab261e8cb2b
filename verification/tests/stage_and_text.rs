use functional_tests::config::TransactionConfig;
use functional_tests::account::{Account, AccountPrivateKey};
use functional_tests::errors::Error;
use functional_tests::stage::{Stage, Status};
use functional_tests::text::{decimal_string, same_text, strip_prefix};
use functional_tests::types::AccountAddress;
use std::str::FromStr;

#[test]
fn stage_from_str_reads_the_four_names() {
    assert_eq!(Stage::from_str("compiler").unwrap(), Stage::Compiler);
    assert_eq!(Stage::from_str("verifier").unwrap(), Stage::Verifier);
    assert_eq!(Stage::from_str("serializer").unwrap(), Stage::Serializer);
    assert_eq!(Stage::from_str("runtime").unwrap(), Stage::Runtime);
    assert_eq!("runtime".parse::<Stage>().unwrap(), Stage::Runtime);
}

#[test]
fn stage_from_str_refuses_other_text() {
    assert_eq!(
        Stage::from_str("Compiler").unwrap_err(),
        Error::Other("unrecognized stage '\"Compiler\"'".to_string())
    );
    assert_eq!(
        Stage::from_str("").unwrap_err(),
        Error::Other("unrecognized stage '\"\"'".to_string())
    );
    assert_eq!(
        Stage::from_str("run\"time\n").unwrap_err(),
        Error::Other("unrecognized stage '\"run\\\"time\\n\"'".to_string())
    );
    assert!(Stage::from_str(" runtime").is_err());
    assert!(Stage::from_str("runtimes").is_err());
}

#[test]
fn stage_order_is_pipeline_order() {
    assert!(Stage::Compiler < Stage::Verifier);
    assert!(Stage::Verifier < Stage::Serializer);
    assert!(Stage::Serializer < Stage::Runtime);
    let positions: Vec<u8> =
        [Stage::Compiler, Stage::Verifier, Stage::Serializer, Stage::Runtime]
            .iter()
            .map(|s| s.position())
            .collect();
    assert_eq!(positions, vec![0, 1, 2, 3]);
}

#[test]
fn names_are_what_debug_prints() {
    for stage in [Stage::Compiler, Stage::Verifier, Stage::Serializer, Stage::Runtime] {
        assert_eq!(stage.name(), format!("{:?}", stage));
    }
    for status in [Status::Success, Status::Failure] {
        assert_eq!(status.name(), format!("{:?}", status));
    }
}

#[test]
fn decimal_string_writes_numbers_as_display_does() {
    assert_eq!(decimal_string(0), "0");
    assert_eq!(decimal_string(7), "7");
    assert_eq!(decimal_string(10), "10");
    assert_eq!(decimal_string(205), "205");
    assert_eq!(decimal_string(1_000_000), "1000000");
    assert_eq!(decimal_string(usize::MAX), usize::MAX.to_string());
    for n in 0..1200usize {
        assert_eq!(decimal_string(n), n.to_string());
    }
}

#[test]
fn strip_prefix_gives_the_rest() {
    assert_eq!(strip_prefix("stdlib_script::mint", "stdlib_script::"), Some("mint"));
    assert_eq!(strip_prefix("stdlib_script::", "stdlib_script::"), Some(""));
    assert_eq!(strip_prefix("stdlib_script:mint", "stdlib_script::"), None);
    assert_eq!(strip_prefix("std", "stdlib_script::"), None);
    assert_eq!(strip_prefix("", "a"), None);
    assert_eq!(strip_prefix("abc", ""), Some("abc"));
    assert_eq!(strip_prefix("xstdlib_script::mint", "stdlib_script::"), None);
    assert_eq!(strip_prefix("héllo wörld", "héllo "), Some("wörld"));
    assert_eq!(strip_prefix("héllo", "hello"), None);
}

#[test]
fn same_text_compares_characters() {
    assert!(same_text("", ""));
    assert!(same_text("runtime", "runtime"));
    assert!(!same_text("runtime", "Runtime"));
    assert!(!same_text("runtime", "runtim"));
}

#[test]
fn is_stage_disabled_looks_the_stage_up() {
    let config = TransactionConfig {
        disabled_stages: vec![Stage::Serializer, Stage::Runtime, Stage::Serializer],
        sender: Account {
            addr: AccountAddress { value: 1 },
            private_key: AccountPrivateKey { bytes: vec![] },
        },
        args: vec![],
        ty_args: vec![],
        max_gas: None,
        gas_price: None,
        sequence_number: None,
        expiration_time: None,
    };
    assert!(config.is_stage_disabled(Stage::Serializer));
    assert!(config.is_stage_disabled(Stage::Runtime));
    assert!(!config.is_stage_disabled(Stage::Compiler));
    assert!(!config.is_stage_disabled(Stage::Verifier));
}
