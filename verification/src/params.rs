//! Building and signing the transaction of the runtime stage.

use vstd::prelude::*;
use crate::account::{AccountPrivateKey, AccountResource, BalanceResource};
use crate::bytecode::{CompiledModule, CompiledScript};
use crate::capability::{BytecodeSerializer, Executor, TransactionSigner};
use crate::config::TransactionConfig;
use crate::errors::{Error, ErrorView};
use crate::transaction::{
    clone_arguments,
    clone_type_tags,
    RawUserTransaction,
    SignedUserTransaction,
    TransactionPayload,
    TEST_CHAIN_ID,
};
use crate::types::AccountAddress;

verus! {

/// The expiration offset of a transaction that configures none.
pub const DEFAULT_EXPIRATION_TIME: u64 = 3600;

/// A set of common parameters required to create transactions.
#[derive(Debug)]
pub struct TransactionParameters<'a> {
    pub sender_addr: AccountAddress,
    pub privkey: &'a AccountPrivateKey,
    pub sequence_number: u64,
    pub max_gas_amount: u64,
    pub gas_unit_price: u64,
    pub expiration_timestamp_seconds: u64,
}

/// The gas unit price of a transaction: the configured one, or zero.
pub open spec fn chosen_gas_price(config: TransactionConfig) -> u64 {
    match config.gas_price {
        Some(price) => price,
        None => 0,
    }
}

/// The most gas a transaction may use. A configured amount stands. Without
/// one it is `ceiling`, or, when gas has a price, the smaller of `ceiling`
/// and what the balance pays for (rounded down).
pub open spec fn chosen_max_gas(config: TransactionConfig, ceiling: u64, balance: u128) -> int {
    match config.max_gas {
        Some(amount) => amount as int,
        None => {
            let price = chosen_gas_price(config);
            if price == 0 {
                ceiling as int
            } else if balance as int / price as int <= ceiling {
                balance as int / price as int
            } else {
                ceiling as int
            }
        },
    }
}

/// The sequence number of a transaction: the configured one, or the
/// sender's current number on chain.
pub open spec fn chosen_sequence_number(config: TransactionConfig, account: AccountResource) -> u64 {
    match config.sequence_number {
        Some(n) => n,
        None => account.sequence_number,
    }
}

/// The time after which a transaction expires: the current time plus the
/// configured offset, or plus the default offset.
pub open spec fn chosen_expiration(config: TransactionConfig, now: u64) -> int {
    match config.expiration_time {
        Some(offset) => now + offset,
        None => now + DEFAULT_EXPIRATION_TIME,
    }
}

/// Whether `params` are the parameters that `config` asks for, given the
/// sender's account resource and balance, the current time and the gas
/// ceiling.
pub open spec fn parameters_derived(
    params: TransactionParameters,
    config: TransactionConfig,
    account: AccountResource,
    balance: BalanceResource,
    now: u64,
    ceiling: u64,
) -> bool {
    &&& params.sender_addr == config.sender.addr
    &&& *params.privkey == config.sender.private_key
    &&& params.sequence_number == chosen_sequence_number(config, account)
    &&& params.max_gas_amount == chosen_max_gas(config, ceiling, balance.token)
    &&& params.gas_unit_price == chosen_gas_price(config)
    &&& params.expiration_timestamp_seconds == chosen_expiration(config, now)
}

impl<'a> TransactionParameters<'a> {
    /// Derives the parameters of a transaction from its configuration and
    /// from what the environment holds for the sender.
    pub fn derive(
        config: &'a TransactionConfig,
        account: &AccountResource,
        balance: &BalanceResource,
        now: u64,
        ceiling: u64,
    ) -> (r: Self)
        requires
            chosen_expiration(*config, now) <= u64::MAX,
        ensures
            parameters_derived(r, *config, *account, *balance, now, ceiling),
    {
        let gas_unit_price: u64 = match config.gas_price {
            Some(price) => price,
            None => 0,
        };
        let max_gas_amount: u64 = match config.max_gas {
            Some(amount) => amount,
            None => {
                if gas_unit_price == 0 {
                    ceiling
                } else {
                    let affordable: u128 = balance.token / (gas_unit_price as u128);
                    if affordable <= ceiling as u128 {
                        affordable as u64
                    } else {
                        ceiling
                    }
                }
            },
        };
        let sequence_number: u64 = match config.sequence_number {
            Some(n) => n,
            None => account.sequence_number,
        };
        let offset: u64 = match config.expiration_time {
            Some(offset) => offset,
            None => DEFAULT_EXPIRATION_TIME,
        };
        TransactionParameters {
            sender_addr: config.sender.addr,
            privkey: &config.sender.private_key,
            sequence_number,
            max_gas_amount,
            gas_unit_price,
            expiration_timestamp_seconds: now + offset,
        }
    }
}

/// What is reported when the environment holds no account resource for
/// the sender.
pub const NO_ACCOUNT_MESSAGE: &'static str = "read_account_resource fail";

/// What is reported when the environment holds no balance for the sender.
pub const NO_BALANCE_MESSAGE: &'static str = "read_balance_resource fail";

/// What is reported when the expiration time does not fit in 64 bits.
pub const EXPIRATION_MESSAGE: &'static str = "expiration time out of range";

/// The parameters that follow from what the environment answered about
/// the sender: an error when the account resource or the balance is
/// missing or the expiration time does not fit in 64 bits, and otherwise
/// the parameters that `config` asks for.
pub open spec fn parameters_follow(
    config: TransactionConfig,
    account: Option<AccountResource>,
    balance: Option<BalanceResource>,
    now: u64,
    ceiling: u64,
    r: Result<TransactionParameters, Error>,
) -> bool {
    if account is None {
        r matches Err(e) && e@ == ErrorView::Other(NO_ACCOUNT_MESSAGE@)
    } else if balance is None {
        r matches Err(e) && e@ == ErrorView::Other(NO_BALANCE_MESSAGE@)
    } else if chosen_expiration(config, now) > u64::MAX {
        r matches Err(e) && e@ == ErrorView::Other(EXPIRATION_MESSAGE@)
    } else {
        r matches Ok(params) && parameters_derived(
            params,
            config,
            account->0,
            balance->0,
            now,
            ceiling,
        )
    }
}

/// Whether `r` is what getting the parameters for `config` from the
/// environment can give: the environment is asked for the account resource
/// and the balance of the sender and for the current time, and `r` is what
/// follows from its answers.
pub open spec fn parameters_answered<E: Executor>(
    exec: &E,
    ceiling: u64,
    config: &TransactionConfig,
    r: Result<TransactionParameters, Error>,
) -> bool {
    exists|account: Option<AccountResource>, balance: Option<BalanceResource>, now: u64|
        {
            &&& #[trigger] parameters_follow(*config, account, balance, now, ceiling, r)
            &&& call_ensures(E::read_account_resource, (exec, &config.sender), account)
            &&& account is Some ==> call_ensures(
                E::read_balance_resource,
                (exec, &config.sender),
                balance,
            )
            &&& account is Some && balance is Some ==> call_ensures(
                E::read_timestamp,
                (exec,),
                now,
            )
        }
}

/// Gets the transaction parameters from the current execution environment
/// and the config.
///
/// Fails when the environment holds no account resource or no balance for
/// the sender, or when the expiration time does not fit in 64 bits.
/// Otherwise the parameters are the ones `config` asks for, given what the
/// environment answered.
pub fn get_transaction_parameters<'a, E: Executor>(
    exec: &E,
    ceiling: u64,
    config: &'a TransactionConfig,
) -> (r: Result<TransactionParameters<'a>, Error>)
    ensures
        parameters_answered(exec, ceiling, config, r),
{
    let account = exec.read_account_resource(&config.sender);
    let account_resource = match account {
        Some(resource) => resource,
        None => {
            let r = Err(Error::Other(NO_ACCOUNT_MESSAGE.to_owned()));
            assert(parameters_follow(*config, account, None, 0, ceiling, r));
            return r;
        },
    };
    let balance = exec.read_balance_resource(&config.sender);
    let account_balance = match balance {
        Some(balance) => balance,
        None => {
            let r = Err(Error::Other(NO_BALANCE_MESSAGE.to_owned()));
            assert(parameters_follow(*config, account, balance, 0, ceiling, r));
            return r;
        },
    };
    let now = exec.read_timestamp();
    let offset: u64 = match config.expiration_time {
        Some(offset) => offset,
        None => DEFAULT_EXPIRATION_TIME,
    };
    if now > u64::MAX - offset {
        let r = Err(Error::Other(EXPIRATION_MESSAGE.to_owned()));
        assert(parameters_follow(*config, account, balance, now, ceiling, r));
        return r;
    }
    let params = TransactionParameters::derive(
        config,
        &account_resource,
        &account_balance,
        now,
        ceiling,
    );
    let r: Result<TransactionParameters<'a>, Error> = Ok(params);
    assert(r->Ok_0 == params);
    assert(parameters_follow(*config, account, balance, now, ceiling, r));
    r
}

/// Whether `raw_txn` is the transaction that `params` and `config` ask for
/// around the serialized script `code`.
pub open spec fn is_script_transaction(
    raw_txn: RawUserTransaction,
    params: TransactionParameters,
    config: TransactionConfig,
    code: Vec<u8>,
) -> bool {
    &&& raw_txn.sender == params.sender_addr
    &&& raw_txn.sequence_number == params.sequence_number
    &&& raw_txn.max_gas_amount == params.max_gas_amount
    &&& raw_txn.gas_unit_price == params.gas_unit_price
    &&& raw_txn.expiration_timestamp_secs == params.expiration_timestamp_seconds
    &&& raw_txn.chain_id == TEST_CHAIN_ID
    &&& raw_txn.payload matches TransactionPayload::Script { code: carried, ty_args, args }
    &&& carried == code
    &&& ty_args@ == config.ty_args@
    &&& args.deep_view() == config.args.deep_view()
}

/// Whether `raw_txn` is the transaction that `params` ask for around the
/// serialized module `code`.
pub open spec fn is_module_transaction(
    raw_txn: RawUserTransaction,
    params: TransactionParameters,
    code: Vec<u8>,
) -> bool {
    &&& raw_txn.sender == params.sender_addr
    &&& raw_txn.sequence_number == params.sequence_number
    &&& raw_txn.max_gas_amount == params.max_gas_amount
    &&& raw_txn.gas_unit_price == params.gas_unit_price
    &&& raw_txn.expiration_timestamp_secs == params.expiration_timestamp_seconds
    &&& raw_txn.chain_id == TEST_CHAIN_ID
    &&& raw_txn.payload == (TransactionPayload::Module { code })
}

/// Whether `r` is what making the script transaction can give: the failure
/// to serialize the script; or the failure to get the parameters; or the
/// transaction around the serialized script that the parameters and
/// `config` ask for, with the signature that the signer gave for it under
/// the key of the sender.
pub open spec fn script_transaction_made<
    E: Executor,
    S: BytecodeSerializer,
    K: TransactionSigner,
>(
    exec: &E,
    serializer: &S,
    signer: &K,
    ceiling: u64,
    config: &TransactionConfig,
    script: &CompiledScript,
    r: Result<SignedUserTransaction, Error>,
) -> bool {
    ||| r matches Err(e) && call_ensures(
        S::serialize_script,
        (serializer, script),
        Err::<Vec<u8>, Error>(e),
    )
    ||| exists|blob: Vec<u8>, params: Result<TransactionParameters, Error>|
        {
            &&& #[trigger] call_ensures(
                S::serialize_script,
                (serializer, script),
                Ok::<Vec<u8>, Error>(blob),
            )
            &&& #[trigger] parameters_answered(exec, ceiling, config, params)
            &&& match params {
                Err(failure) => r == Err::<SignedUserTransaction, Error>(failure),
                Ok(params) => r matches Ok(txn) && is_script_transaction(
                    txn.raw_txn,
                    params,
                    *config,
                    blob,
                ) && call_ensures(K::sign, (signer, params.privkey, &txn.raw_txn), txn.signature),
            }
        }
}

/// Whether `r` is what making the module transaction can give: the failure
/// to serialize the module; or the failure to get the parameters; or the
/// transaction around the serialized module that the parameters ask for,
/// with the signature that the signer gave for it under the key of the
/// sender.
pub open spec fn module_transaction_made<
    E: Executor,
    S: BytecodeSerializer,
    K: TransactionSigner,
>(
    exec: &E,
    serializer: &S,
    signer: &K,
    ceiling: u64,
    config: &TransactionConfig,
    module: &CompiledModule,
    r: Result<SignedUserTransaction, Error>,
) -> bool {
    ||| r matches Err(e) && call_ensures(
        S::serialize_module,
        (serializer, module),
        Err::<Vec<u8>, Error>(e),
    )
    ||| exists|blob: Vec<u8>, params: Result<TransactionParameters, Error>|
        {
            &&& #[trigger] call_ensures(
                S::serialize_module,
                (serializer, module),
                Ok::<Vec<u8>, Error>(blob),
            )
            &&& #[trigger] parameters_answered(exec, ceiling, config, params)
            &&& match params {
                Err(failure) => r == Err::<SignedUserTransaction, Error>(failure),
                Ok(params) => r matches Ok(txn) && is_module_transaction(txn.raw_txn, params, blob)
                    && call_ensures(K::sign, (signer, params.privkey, &txn.raw_txn), txn.signature),
            }
        }
}

/// Creates and signs a script transaction.
///
/// Fails when the script cannot be serialized or the parameters cannot be
/// had. Otherwise the transaction carries the serialized script, the
/// parameters that `config` asks for, its type and call arguments, and the
/// test chain's identifier.
pub fn make_script_transaction<E: Executor, S: BytecodeSerializer, K: TransactionSigner>(
    exec: &E,
    serializer: &S,
    signer: &K,
    ceiling: u64,
    config: &TransactionConfig,
    script: CompiledScript,
) -> (r: Result<SignedUserTransaction, Error>)
    ensures
        script_transaction_made(exec, serializer, signer, ceiling, config, &script, r),
{
    let blob = serializer.serialize_script(&script)?;
    let ghost code = blob;
    let got = get_transaction_parameters(exec, ceiling, config);
    let params = match got {
        Ok(params) => params,
        Err(e) => {
            let r = Err(e);
            assert(r == Err::<SignedUserTransaction, Error>(got->Err_0));
            return r;
        },
    };
    let raw_txn = RawUserTransaction::new_script(
        params.sender_addr,
        params.sequence_number,
        blob,
        clone_type_tags(&config.ty_args),
        clone_arguments(&config.args),
        params.max_gas_amount,
        params.gas_unit_price,
        params.expiration_timestamp_seconds,
        TEST_CHAIN_ID,
    );
    let signature = signer.sign(params.privkey, &raw_txn);
    assert(is_script_transaction(raw_txn, params, *config, code));
    let r = Ok(SignedUserTransaction::new(raw_txn, signature));
    assert(r->Ok_0.raw_txn == raw_txn && r->Ok_0.signature == signature);
    assert(got->Ok_0 == params);
    r
}

/// Creates and signs a module transaction.
///
/// Fails when the module cannot be serialized or the parameters cannot be
/// had. Otherwise the transaction carries the serialized module, the
/// parameters that `config` asks for and the test chain's identifier.
pub fn make_module_transaction<E: Executor, S: BytecodeSerializer, K: TransactionSigner>(
    exec: &E,
    serializer: &S,
    signer: &K,
    ceiling: u64,
    config: &TransactionConfig,
    module: CompiledModule,
) -> (r: Result<SignedUserTransaction, Error>)
    ensures
        module_transaction_made(exec, serializer, signer, ceiling, config, &module, r),
{
    let blob = serializer.serialize_module(&module)?;
    let ghost code = blob;
    let got = get_transaction_parameters(exec, ceiling, config);
    let params = match got {
        Ok(params) => params,
        Err(e) => {
            let r = Err(e);
            assert(r == Err::<SignedUserTransaction, Error>(got->Err_0));
            return r;
        },
    };
    let raw_txn = RawUserTransaction::new_module(
        params.sender_addr,
        params.sequence_number,
        blob,
        params.max_gas_amount,
        params.gas_unit_price,
        params.expiration_timestamp_seconds,
        TEST_CHAIN_ID,
    );
    let signature = signer.sign(params.privkey, &raw_txn);
    assert(is_module_transaction(raw_txn, params, code));
    let r = Ok(SignedUserTransaction::new(raw_txn, signature));
    assert(r->Ok_0.raw_txn == raw_txn && r->Ok_0.signature == signature);
    assert(got->Ok_0 == params);
    r
}

} // verus!
