//! Transactions as they are handed to the execution environment.

use vstd::prelude::*;
use crate::types::AccountAddress;

verus! {

/// A type argument of a script, in its canonical textual form.
#[derive(Debug, PartialEq, Eq, Hash)]
pub struct TypeTag {
    pub name: String,
}

impl Clone for TypeTag {
    fn clone(&self) -> (r: Self)
        ensures
            r == *self,
    {
        TypeTag { name: self.name.clone() }
    }
}

/// A call argument of a script.
#[derive(Debug, PartialEq, Eq, Hash)]
pub enum TransactionArgument {
    U8(u8),
    U64(u64),
    U128(u128),
    Address(AccountAddress),
    U8Vector(Vec<u8>),
    Bool(bool),
}

/// Mathematical value of a [`TransactionArgument`].
pub enum TransactionArgumentView {
    U8(u8),
    U64(u64),
    U128(u128),
    Address(AccountAddress),
    U8Vector(Seq<u8>),
    Bool(bool),
}

impl View for TransactionArgument {
    type V = TransactionArgumentView;

    open spec fn view(&self) -> TransactionArgumentView {
        match self {
            TransactionArgument::U8(v) => TransactionArgumentView::U8(*v),
            TransactionArgument::U64(v) => TransactionArgumentView::U64(*v),
            TransactionArgument::U128(v) => TransactionArgumentView::U128(*v),
            TransactionArgument::Address(v) => TransactionArgumentView::Address(*v),
            TransactionArgument::U8Vector(v) => TransactionArgumentView::U8Vector(v@),
            TransactionArgument::Bool(v) => TransactionArgumentView::Bool(*v),
        }
    }
}

impl DeepView for TransactionArgument {
    type V = TransactionArgumentView;

    open spec fn deep_view(&self) -> TransactionArgumentView {
        self@
    }
}

impl Clone for TransactionArgument {
    fn clone(&self) -> (r: Self)
        ensures
            r@ == self@,
    {
        match self {
            TransactionArgument::U8(v) => TransactionArgument::U8(*v),
            TransactionArgument::U64(v) => TransactionArgument::U64(*v),
            TransactionArgument::U128(v) => TransactionArgument::U128(*v),
            TransactionArgument::Address(v) => TransactionArgument::Address(*v),
            TransactionArgument::U8Vector(v) => {
                let bytes = v.clone();
                assert(bytes@ =~= v@);
                TransactionArgument::U8Vector(bytes)
            },
            TransactionArgument::Bool(v) => TransactionArgument::Bool(*v),
        }
    }
}

/// Copies a list of type arguments.
pub fn clone_type_tags(tags: &Vec<TypeTag>) -> (r: Vec<TypeTag>)
    ensures
        r@ == tags@,
{
    let mut out: Vec<TypeTag> = Vec::new();
    let mut i: usize = 0;
    while i < tags.len()
        invariant
            i <= tags.len(),
            out.len() == i,
            forall|j: int| 0 <= j < i ==> out@[j] == tags@[j],
        decreases tags.len() - i,
    {
        out.push(tags[i].clone());
        i += 1;
    }
    assert(out@ =~= tags@);
    out
}

/// Copies a list of call arguments.
pub fn clone_arguments(args: &Vec<TransactionArgument>) -> (r: Vec<TransactionArgument>)
    ensures
        r.deep_view() == args.deep_view(),
{
    let mut out: Vec<TransactionArgument> = Vec::new();
    let mut i: usize = 0;
    while i < args.len()
        invariant
            i <= args.len(),
            out.len() == i,
            forall|j: int| 0 <= j < i ==> out@[j]@ == args@[j]@,
        decreases args.len() - i,
    {
        out.push(args[i].clone());
        i += 1;
    }
    assert(out.deep_view() =~= args.deep_view());
    out
}

/// What a user transaction carries: a script to run or a module to publish.
#[derive(Debug, PartialEq, Eq)]
pub enum TransactionPayload {
    /// A serialized script with its type and call arguments.
    Script { code: Vec<u8>, ty_args: Vec<TypeTag>, args: Vec<TransactionArgument> },
    /// A serialized module.
    Module { code: Vec<u8> },
}

/// The identifier of the chain that test transactions are made for.
pub const TEST_CHAIN_ID: u8 = 255;

/// A user transaction before it is signed.
#[derive(Debug, PartialEq, Eq)]
pub struct RawUserTransaction {
    pub sender: AccountAddress,
    pub sequence_number: u64,
    pub payload: TransactionPayload,
    pub max_gas_amount: u64,
    pub gas_unit_price: u64,
    pub expiration_timestamp_secs: u64,
    pub chain_id: u8,
}

impl RawUserTransaction {
    /// A transaction that runs the script `code` with the given arguments.
    pub fn new_script(
        sender: AccountAddress,
        sequence_number: u64,
        code: Vec<u8>,
        ty_args: Vec<TypeTag>,
        args: Vec<TransactionArgument>,
        max_gas_amount: u64,
        gas_unit_price: u64,
        expiration_timestamp_secs: u64,
        chain_id: u8,
    ) -> (r: Self)
        ensures
            r == (RawUserTransaction {
                sender,
                sequence_number,
                payload: TransactionPayload::Script { code, ty_args, args },
                max_gas_amount,
                gas_unit_price,
                expiration_timestamp_secs,
                chain_id,
            }),
    {
        RawUserTransaction {
            sender,
            sequence_number,
            payload: TransactionPayload::Script { code, ty_args, args },
            max_gas_amount,
            gas_unit_price,
            expiration_timestamp_secs,
            chain_id,
        }
    }

    /// A transaction that publishes the module `code`.
    pub fn new_module(
        sender: AccountAddress,
        sequence_number: u64,
        code: Vec<u8>,
        max_gas_amount: u64,
        gas_unit_price: u64,
        expiration_timestamp_secs: u64,
        chain_id: u8,
    ) -> (r: Self)
        ensures
            r == (RawUserTransaction {
                sender,
                sequence_number,
                payload: TransactionPayload::Module { code },
                max_gas_amount,
                gas_unit_price,
                expiration_timestamp_secs,
                chain_id,
            }),
    {
        RawUserTransaction {
            sender,
            sequence_number,
            payload: TransactionPayload::Module { code },
            max_gas_amount,
            gas_unit_price,
            expiration_timestamp_secs,
            chain_id,
        }
    }
}

/// A signature over a raw transaction, as raw bytes.
#[derive(Debug, PartialEq, Eq)]
pub struct Signature {
    pub bytes: Vec<u8>,
}

/// A user transaction with its signature.
#[derive(Debug, PartialEq, Eq)]
pub struct SignedUserTransaction {
    pub raw_txn: RawUserTransaction,
    pub signature: Signature,
}

impl SignedUserTransaction {
    /// Attaches a signature to a raw transaction.
    pub fn new(raw_txn: RawUserTransaction, signature: Signature) -> (r: Self)
        ensures
            r == (SignedUserTransaction { raw_txn, signature }),
    {
        SignedUserTransaction { raw_txn, signature }
    }
}

/// The metadata that opens a new block.
#[derive(Debug, Copy, Clone, PartialEq, Eq, Structural)]
pub struct BlockMetadata {
    pub timestamp: u64,
    pub author: AccountAddress,
    pub number: u64,
}

/// A transaction of any kind that the environment can execute.
#[derive(Debug, PartialEq, Eq)]
pub enum LedgerTransaction {
    UserTransaction(SignedUserTransaction),
    BlockMetadata(BlockMetadata),
}

} // verus!
