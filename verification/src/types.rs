//! Ledger-side values the pipeline reads: addresses, module identifiers,
//! access paths, write sets and execution outputs.

use vstd::prelude::*;

verus! {

/// Position of a command in the evaluated sequence.
pub type TransactionId = usize;

/// A 16-byte account address, held as one integer.
#[derive(Debug, Copy, Clone, PartialOrd, Ord, PartialEq, Eq, Hash, Structural)]
pub struct AccountAddress {
    pub value: u128,
}

/// The identifier of a published module: the publishing address and the
/// module's name.
#[derive(Debug, PartialEq, Eq, Hash)]
pub struct ModuleId {
    pub address: AccountAddress,
    pub name: String,
}

/// Mathematical value of a [`ModuleId`].
pub struct ModuleIdView {
    pub address: AccountAddress,
    pub name: Seq<char>,
}

impl View for ModuleId {
    type V = ModuleIdView;

    open spec fn view(&self) -> ModuleIdView {
        ModuleIdView { address: self.address, name: self.name@ }
    }
}

impl DeepView for ModuleId {
    type V = ModuleIdView;

    open spec fn deep_view(&self) -> ModuleIdView {
        self@
    }
}

impl Clone for ModuleId {
    fn clone(&self) -> (r: Self)
        ensures
            r@ == self@,
    {
        ModuleId { address: self.address, name: self.name.clone() }
    }
}

impl ModuleId {
    /// Pairs an address with a module name.
    pub fn new(address: AccountAddress, name: String) -> (r: Self)
        ensures
            r@ == (ModuleIdView { address, name: name@ }),
    {
        ModuleId { address, name }
    }
}

/// Where under an account a piece of state lives.
#[derive(Debug, PartialEq, Eq, Hash)]
pub enum DataPath {
    /// The code of the module with the given name.
    Code(String),
    /// A resource, named by its encoded type tag.
    Resource(Vec<u8>),
}

/// Mathematical value of a [`DataPath`].
pub enum DataPathView {
    Code(Seq<char>),
    Resource(Seq<u8>),
}

impl View for DataPath {
    type V = DataPathView;

    open spec fn view(&self) -> DataPathView {
        match self {
            DataPath::Code(name) => DataPathView::Code(name@),
            DataPath::Resource(tag) => DataPathView::Resource(tag@),
        }
    }
}

/// The lookup key of one piece of ledger state.
#[derive(Debug, PartialEq, Eq, Hash)]
pub struct AccessPath {
    pub address: AccountAddress,
    pub path: DataPath,
}

/// Mathematical value of an [`AccessPath`].
pub struct AccessPathView {
    pub address: AccountAddress,
    pub path: DataPathView,
}

impl View for AccessPath {
    type V = AccessPathView;

    open spec fn view(&self) -> AccessPathView {
        AccessPathView { address: self.address, path: self.path@ }
    }
}

impl DeepView for AccessPath {
    type V = AccessPathView;

    open spec fn deep_view(&self) -> AccessPathView {
        self@
    }
}

/// The access path under which the code of module `id` is stored.
pub open spec fn code_access_path(id: ModuleIdView) -> AccessPathView {
    AccessPathView { address: id.address, path: DataPathView::Code(id.name) }
}

impl AccessPath {
    /// The lookup key for the code of the module `id`.
    pub fn from_module_id(id: &ModuleId) -> (r: Self)
        ensures
            r@ == code_access_path(id@),
    {
        AccessPath { address: id.address, path: DataPath::Code(id.name.clone()) }
    }
}

/// One state mutation: the new value at an access path, or its deletion.
#[derive(Debug, PartialEq, Eq)]
pub struct WriteOp {
    pub access_path: AccessPath,
    /// `None` deletes the entry.
    pub value: Option<Vec<u8>>,
}

/// Mathematical value of a [`WriteOp`].
pub struct WriteOpView {
    pub access_path: AccessPathView,
    pub value: Option<Seq<u8>>,
}

impl View for WriteOp {
    type V = WriteOpView;

    open spec fn view(&self) -> WriteOpView {
        WriteOpView {
            access_path: self.access_path@,
            value: match self.value {
                Some(bytes) => Some(bytes@),
                None => None,
            },
        }
    }
}

impl DeepView for WriteOp {
    type V = WriteOpView;

    open spec fn deep_view(&self) -> WriteOpView {
        self@
    }
}

/// The complete set of state mutations produced by executing one
/// transaction.
#[derive(Debug, PartialEq, Eq)]
pub struct WriteSet {
    pub ops: Vec<WriteOp>,
}

impl View for WriteSet {
    type V = Seq<WriteOpView>;

    open spec fn view(&self) -> Seq<WriteOpView> {
        self.ops.deep_view()
    }
}

impl WriteSet {
    /// A write set without mutations.
    pub fn new() -> (r: Self)
        ensures
            r@ == Seq::<WriteOpView>::empty(),
    {
        let r = WriteSet { ops: Vec::new() };
        assert(r@ =~= Seq::<WriteOpView>::empty());
        r
    }

    /// Whether the write set holds no mutation.
    pub fn is_empty(&self) -> (r: bool)
        ensures
            r == (self@.len() == 0),
    {
        self.ops.len() == 0
    }
}

/// Why a kept transaction ended.
#[derive(Debug, Copy, Clone, PartialEq, Eq, Hash, Structural)]
pub enum KeptVMStatus {
    Executed,
    OutOfGas,
    MoveAbort(u64),
    ExecutionFailure(u64),
    VerificationError,
    DeserializationError,
}

/// Status detail reported by the virtual machine or its verifier.
#[derive(Debug, Copy, Clone, PartialEq, Eq, Hash, Structural)]
pub enum VMStatus {
    Executed,
    /// A failure, by its status code.
    Error(u64),
    MoveAbort(u64),
    ExecutionFailure(u64),
}

/// Whether the effects of a transaction are retained or dropped.
#[derive(Debug, Copy, Clone, PartialEq, Eq, Hash, Structural)]
pub enum TransactionStatus {
    /// The transaction is kept; its effects may be applied.
    Keep(KeptVMStatus),
    /// The transaction is dropped, with the status code of the reason.
    Discard(u64),
}

/// What executing one transaction produced.
#[derive(Debug, PartialEq, Eq)]
pub struct TransactionOutput {
    pub write_set: WriteSet,
    pub gas_used: u64,
    pub status: TransactionStatus,
}

/// Mathematical value of a [`TransactionOutput`].
pub struct TransactionOutputView {
    pub write_set: Seq<WriteOpView>,
    pub gas_used: u64,
    pub status: TransactionStatus,
}

impl View for TransactionOutput {
    type V = TransactionOutputView;

    open spec fn view(&self) -> TransactionOutputView {
        TransactionOutputView {
            write_set: self.write_set@,
            gas_used: self.gas_used,
            status: self.status,
        }
    }
}

impl TransactionOutput {
    /// The execution status.
    pub fn status(&self) -> (r: &TransactionStatus)
        ensures
            *r == self.status,
    {
        &self.status
    }

    /// The state mutations.
    pub fn write_set(&self) -> (r: &WriteSet)
        ensures
            r@ == self@.write_set,
    {
        &self.write_set
    }
}

} // verus!
