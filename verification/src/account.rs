//! Accounts as the harness sees them: the signing identity of a sender and
//! the on-chain resources read back from the environment.

use vstd::prelude::*;
use crate::types::AccountAddress;

verus! {

/// The private key of an account, as raw bytes.
#[derive(Debug, PartialEq, Eq)]
pub struct AccountPrivateKey {
    pub bytes: Vec<u8>,
}

impl View for AccountPrivateKey {
    type V = Seq<u8>;

    open spec fn view(&self) -> Seq<u8> {
        self.bytes@
    }
}

impl Clone for AccountPrivateKey {
    fn clone(&self) -> (r: Self)
        ensures
            r@ == self@,
    {
        let bytes = self.bytes.clone();
        assert(bytes@ =~= self.bytes@);
        AccountPrivateKey { bytes }
    }
}

/// A sender identity: an address and the key that signs for it.
#[derive(Debug, PartialEq, Eq)]
pub struct Account {
    pub addr: AccountAddress,
    pub private_key: AccountPrivateKey,
}

/// Mathematical value of an [`Account`].
pub struct AccountView {
    pub addr: AccountAddress,
    pub private_key: Seq<u8>,
}

impl View for Account {
    type V = AccountView;

    open spec fn view(&self) -> AccountView {
        AccountView { addr: self.addr, private_key: self.private_key@ }
    }
}

impl DeepView for Account {
    type V = AccountView;

    open spec fn deep_view(&self) -> AccountView {
        self@
    }
}

impl Clone for Account {
    fn clone(&self) -> (r: Self)
        ensures
            r@ == self@,
    {
        Account { addr: self.addr, private_key: self.private_key.clone() }
    }
}

impl Account {
    /// The address of the account.
    pub fn address(&self) -> (r: &AccountAddress)
        ensures
            *r == self.addr,
    {
        &self.addr
    }

    /// The key that signs for the account.
    pub fn private_key(&self) -> (r: &AccountPrivateKey)
        ensures
            *r == self.private_key,
    {
        &self.private_key
    }
}

/// The account resource stored on chain under an address.
#[derive(Debug, Copy, Clone, PartialEq, Eq, Structural)]
pub struct AccountResource {
    pub sequence_number: u64,
    pub withdraw_events: u64,
    pub deposit_events: u64,
    pub accept_token_events: u64,
    pub delegated_key_rotation_capability: bool,
    pub delegated_withdrawal_capability: bool,
}

/// The balance resource stored on chain under an address.
#[derive(Debug, Copy, Clone, PartialEq, Eq, Structural)]
pub struct BalanceResource {
    pub token: u128,
}

/// Everything needed to place an account into the environment.
#[derive(Debug, PartialEq, Eq)]
pub struct AccountData {
    pub account: Account,
    pub balance: u128,
    pub token_code: String,
    pub sequence_number: u64,
    pub sent_events_count: u64,
    pub received_events_count: u64,
    pub accept_token_events_count: u64,
    pub delegated_key_rotation_capability: bool,
    pub delegated_withdrawal_capability: bool,
}

/// Mathematical value of an [`AccountData`].
pub struct AccountDataView {
    pub account: AccountView,
    pub balance: u128,
    pub token_code: Seq<char>,
    pub sequence_number: u64,
    pub sent_events_count: u64,
    pub received_events_count: u64,
    pub accept_token_events_count: u64,
    pub delegated_key_rotation_capability: bool,
    pub delegated_withdrawal_capability: bool,
}

impl View for AccountData {
    type V = AccountDataView;

    open spec fn view(&self) -> AccountDataView {
        AccountDataView {
            account: self.account@,
            balance: self.balance,
            token_code: self.token_code@,
            sequence_number: self.sequence_number,
            sent_events_count: self.sent_events_count,
            received_events_count: self.received_events_count,
            accept_token_events_count: self.accept_token_events_count,
            delegated_key_rotation_capability: self.delegated_key_rotation_capability,
            delegated_withdrawal_capability: self.delegated_withdrawal_capability,
        }
    }
}

/// The code of the native token that genesis balances are held in.
pub const STC_TOKEN_CODE_STR: &'static str = "0x1::STC::STC";

/// The account data that re-creates a genesis account from what the
/// environment holds for it: a missing balance counts as zero.
pub open spec fn genesis_data(
    genesis: AccountView,
    resource: AccountResource,
    balance: Option<BalanceResource>,
) -> AccountDataView {
    AccountDataView {
        account: genesis,
        balance: match balance {
            Some(b) => b.token,
            None => 0,
        },
        token_code: STC_TOKEN_CODE_STR@,
        sequence_number: resource.sequence_number,
        sent_events_count: resource.withdraw_events,
        received_events_count: resource.deposit_events,
        accept_token_events_count: resource.accept_token_events,
        delegated_key_rotation_capability: resource.delegated_key_rotation_capability,
        delegated_withdrawal_capability: resource.delegated_withdrawal_capability,
    }
}

impl AccountData {
    /// Builds the account data of a genesis account from its on-chain
    /// account resource and balance.
    pub fn with_account_and_event_counts(
        genesis: &Account,
        resource: &AccountResource,
        balance: Option<BalanceResource>,
    ) -> (r: Self)
        ensures
            r@ == genesis_data(genesis@, *resource, balance),
    {
        AccountData {
            account: genesis.clone(),
            balance: match balance {
                Some(b) => b.token,
                None => 0,
            },
            token_code: STC_TOKEN_CODE_STR.to_owned(),
            sequence_number: resource.sequence_number,
            sent_events_count: resource.withdraw_events,
            received_events_count: resource.deposit_events,
            accept_token_events_count: resource.accept_token_events,
            delegated_key_rotation_capability: resource.delegated_key_rotation_capability,
            delegated_withdrawal_capability: resource.delegated_withdrawal_capability,
        }
    }
}

} // verus!
