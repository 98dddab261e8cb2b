//! Compiled bytecode units: one-shot scripts and publishable modules.
//!
//! A unit carries the tables the pipeline reads (the module handles and the
//! address and identifier pools they index) next to its code. Every handle
//! of a unit points into the pools; the constructor checks this once and the
//! type keeps it.

use vstd::prelude::*;
use vstd::std_specs::cmp::PartialEqSpecImpl;
use crate::types::{AccountAddress, ModuleId, ModuleIdView};

verus! {

/// A reference to a module: indices of its address and of its name in the
/// pools of the unit that holds the handle.
#[derive(Debug, Copy, Clone, PartialEq, Eq, Hash, Structural)]
pub struct ModuleHandle {
    pub address: u16,
    pub name: u16,
}

/// Mathematical value of a compiled unit.
pub struct CompiledUnitView {
    pub module_handles: Seq<ModuleHandle>,
    pub address_identifiers: Seq<AccountAddress>,
    pub identifiers: Seq<Seq<char>>,
    pub code: Seq<u8>,
}

/// Every handle of `handles` points into an address pool of `addresses`
/// entries and an identifier pool of `identifiers` entries.
pub open spec fn handles_within(handles: Seq<ModuleHandle>, addresses: nat, identifiers: nat) -> bool {
    forall|i: int|
        0 <= i < handles.len() ==> (#[trigger] handles[i]).address < addresses && handles[i].name
            < identifiers
}

impl CompiledUnitView {
    /// Every handle points into the address pool and the identifier pool.
    pub open spec fn handles_in_bounds(self) -> bool {
        handles_within(self.module_handles, self.address_identifiers.len(), self.identifiers.len())
    }

    /// The module identifier that handle `i` refers to.
    pub open spec fn module_id(self, i: int) -> ModuleIdView {
        ModuleIdView {
            address: self.address_identifiers[self.module_handles[i].address as int],
            name: self.identifiers[self.module_handles[i].name as int],
        }
    }

    /// The module identifiers referenced by the handle table, in table
    /// order.
    pub open spec fn module_ids(self) -> Seq<ModuleIdView> {
        Seq::new(self.module_handles.len(), |i: int| self.module_id(i))
    }
}

/// The tables and code shared by scripts and modules.
#[derive(Debug)]
pub struct CompiledUnit {
    module_handles: Vec<ModuleHandle>,
    address_identifiers: Vec<AccountAddress>,
    identifiers: Vec<String>,
    code: Vec<u8>,
}

impl View for CompiledUnit {
    type V = CompiledUnitView;

    closed spec fn view(&self) -> CompiledUnitView {
        CompiledUnitView {
            module_handles: self.module_handles@,
            address_identifiers: self.address_identifiers@,
            identifiers: self.identifiers.deep_view(),
            code: self.code@,
        }
    }
}

impl DeepView for CompiledUnit {
    type V = CompiledUnitView;

    open spec fn deep_view(&self) -> CompiledUnitView {
        self@
    }
}

/// Whether every handle of `handles` points into pools of the given sizes.
fn handles_fit(handles: &Vec<ModuleHandle>, addresses: usize, identifiers: usize) -> (r: bool)
    ensures
        r == handles_within(handles@, addresses as nat, identifiers as nat),
{
    let mut i: usize = 0;
    while i < handles.len()
        invariant
            i <= handles.len(),
            forall|j: int|
                0 <= j < i ==> (#[trigger] handles@[j]).address < addresses && handles@[j].name
                    < identifiers,
        decreases handles.len() - i,
    {
        let h = handles[i];
        if h.address as usize >= addresses || h.name as usize >= identifiers {
            return false;
        }
        i += 1;
    }
    true
}

fn handles_equal(a: &Vec<ModuleHandle>, b: &Vec<ModuleHandle>) -> (r: bool)
    ensures
        r == (a@ == b@),
{
    if a.len() != b.len() {
        return false;
    }
    let mut i: usize = 0;
    while i < a.len()
        invariant
            i <= a.len(),
            a.len() == b.len(),
            forall|j: int| 0 <= j < i ==> a@[j] == b@[j],
        decreases a.len() - i,
    {
        if a[i] != b[i] {
            return false;
        }
        i += 1;
    }
    assert(a@ =~= b@);
    true
}

fn addresses_equal(a: &Vec<AccountAddress>, b: &Vec<AccountAddress>) -> (r: bool)
    ensures
        r == (a@ == b@),
{
    if a.len() != b.len() {
        return false;
    }
    let mut i: usize = 0;
    while i < a.len()
        invariant
            i <= a.len(),
            a.len() == b.len(),
            forall|j: int| 0 <= j < i ==> a@[j] == b@[j],
        decreases a.len() - i,
    {
        if a[i] != b[i] {
            return false;
        }
        i += 1;
    }
    assert(a@ =~= b@);
    true
}

fn names_equal(a: &Vec<String>, b: &Vec<String>) -> (r: bool)
    ensures
        r == (a.deep_view() == b.deep_view()),
{
    if a.len() != b.len() {
        assert(a.deep_view().len() != b.deep_view().len());
        return false;
    }
    let mut i: usize = 0;
    while i < a.len()
        invariant
            i <= a.len(),
            a.len() == b.len(),
            forall|j: int| 0 <= j < i ==> a@[j]@ == b@[j]@,
        decreases a.len() - i,
    {
        if a[i] != b[i] {
            assert(a.deep_view()[i as int] != b.deep_view()[i as int]);
            return false;
        }
        i += 1;
    }
    assert(a.deep_view() =~= b.deep_view());
    true
}

/// Whether two byte strings hold the same bytes.
pub fn bytes_equal(a: &Vec<u8>, b: &Vec<u8>) -> (r: bool)
    ensures
        r == (a@ == b@),
{
    if a.len() != b.len() {
        return false;
    }
    let mut i: usize = 0;
    while i < a.len()
        invariant
            i <= a.len(),
            a.len() == b.len(),
            forall|j: int| 0 <= j < i ==> a@[j] == b@[j],
        decreases a.len() - i,
    {
        if a[i] != b[i] {
            return false;
        }
        i += 1;
    }
    assert(a@ =~= b@);
    true
}

fn clone_names(names: &Vec<String>) -> (r: Vec<String>)
    ensures
        r.deep_view() == names.deep_view(),
{
    let mut out: Vec<String> = Vec::new();
    let mut i: usize = 0;
    while i < names.len()
        invariant
            i <= names.len(),
            out.len() == i,
            forall|j: int| 0 <= j < i ==> out@[j]@ == names@[j]@,
        decreases names.len() - i,
    {
        out.push(names[i].clone());
        i += 1;
    }
    assert(out.deep_view() =~= names.deep_view());
    out
}

impl CompiledUnit {
    #[verifier::type_invariant]
    spec fn bounds_checked(&self) -> bool {
        self@.handles_in_bounds()
    }

    /// Builds a unit from its tables and code. The unit is refused exactly
    /// when some handle points outside a pool.
    pub fn new(
        module_handles: Vec<ModuleHandle>,
        address_identifiers: Vec<AccountAddress>,
        identifiers: Vec<String>,
        code: Vec<u8>,
    ) -> (r: Option<Self>)
        ensures
            match r {
                Some(unit) => unit@ == (CompiledUnitView {
                    module_handles: module_handles@,
                    address_identifiers: address_identifiers@,
                    identifiers: identifiers.deep_view(),
                    code: code@,
                }) && unit@.handles_in_bounds(),
                None => !(CompiledUnitView {
                    module_handles: module_handles@,
                    address_identifiers: address_identifiers@,
                    identifiers: identifiers.deep_view(),
                    code: code@,
                }).handles_in_bounds(),
            },
    {
        let ghost view = CompiledUnitView {
            module_handles: module_handles@,
            address_identifiers: address_identifiers@,
            identifiers: identifiers.deep_view(),
            code: code@,
        };
        assert(view.identifiers.len() == identifiers.len());
        if handles_fit(&module_handles, address_identifiers.len(), identifiers.len()) {
            assert(view.handles_in_bounds());
            Some(CompiledUnit { module_handles, address_identifiers, identifiers, code })
        } else {
            assert(!view.handles_in_bounds());
            None
        }
    }

    /// The handle table. Every handle in it points into the pools.
    pub fn module_handles(&self) -> (r: &Vec<ModuleHandle>)
        ensures
            r@ == self@.module_handles,
            self@.handles_in_bounds(),
    {
        proof {
            use_type_invariant(self);
        }
        &self.module_handles
    }

    /// The address pool.
    pub fn address_identifiers(&self) -> (r: &Vec<AccountAddress>)
        ensures
            r@ == self@.address_identifiers,
    {
        &self.address_identifiers
    }

    /// The identifier pool.
    pub fn identifiers(&self) -> (r: &Vec<String>)
        ensures
            r.deep_view() == self@.identifiers,
    {
        &self.identifiers
    }

    /// The code bytes.
    pub fn code(&self) -> (r: &Vec<u8>)
        ensures
            r@ == self@.code,
    {
        &self.code
    }

    /// Enumerates every module identifier referenced by the handle table,
    /// in table order.
    pub fn module_ids(&self) -> (r: Vec<ModuleId>)
        ensures
            r.deep_view() == self@.module_ids(),
    {
        proof {
            use_type_invariant(self);
        }
        let mut ids: Vec<ModuleId> = Vec::new();
        let mut i: usize = 0;
        while i < self.module_handles.len()
            invariant
                i <= self.module_handles.len(),
                self@.handles_in_bounds(),
                ids.len() == i,
                forall|j: int| 0 <= j < i ==> ids@[j]@ == self@.module_id(j),
            decreases self.module_handles.len() - i,
        {
            let handle = self.module_handles[i];
            assert(self@.module_handles[i as int] == handle);
            let address = self.address_identifiers[handle.address as usize];
            let name = self.identifiers[handle.name as usize].clone();
            ids.push(ModuleId::new(address, name));
            i += 1;
        }
        assert(ids.deep_view() =~= self@.module_ids());
        ids
    }
}

impl PartialEq for CompiledUnit {
    fn eq(&self, other: &Self) -> (r: bool) {
        handles_equal(&self.module_handles, &other.module_handles) && addresses_equal(
            &self.address_identifiers,
            &other.address_identifiers,
        ) && names_equal(&self.identifiers, &other.identifiers) && bytes_equal(
            &self.code,
            &other.code,
        )
    }
}

impl PartialEqSpecImpl for CompiledUnit {
    open spec fn obeys_eq_spec() -> bool {
        true
    }

    open spec fn eq_spec(&self, other: &Self) -> bool {
        self@ == other@
    }
}

impl Clone for CompiledUnit {
    fn clone(&self) -> (r: Self)
        ensures
            r@ == self@,
    {
        proof {
            use_type_invariant(self);
        }
        let module_handles = self.module_handles.clone();
        let address_identifiers = self.address_identifiers.clone();
        let identifiers = clone_names(&self.identifiers);
        let code = self.code.clone();
        assert(module_handles@ =~= self.module_handles@);
        assert(address_identifiers@ =~= self.address_identifiers@);
        assert(code@ =~= self.code@);
        CompiledUnit { module_handles, address_identifiers, identifiers, code }
    }
}

/// A compiled one-shot script.
#[derive(Debug)]
pub struct CompiledScript {
    pub unit: CompiledUnit,
}

impl View for CompiledScript {
    type V = CompiledUnitView;

    open spec fn view(&self) -> CompiledUnitView {
        self.unit@
    }
}

impl DeepView for CompiledScript {
    type V = CompiledUnitView;

    open spec fn deep_view(&self) -> CompiledUnitView {
        self@
    }
}

impl CompiledScript {
    /// Wraps a unit as a script.
    pub fn new(unit: CompiledUnit) -> (r: Self)
        ensures
            r@ == unit@,
    {
        CompiledScript { unit }
    }

    /// The tables and code of the script.
    pub fn as_inner(&self) -> (r: &CompiledUnit)
        ensures
            r@ == self@,
    {
        &self.unit
    }
}

impl PartialEq for CompiledScript {
    fn eq(&self, other: &Self) -> (r: bool) {
        self.unit == other.unit
    }
}

impl PartialEqSpecImpl for CompiledScript {
    open spec fn obeys_eq_spec() -> bool {
        true
    }

    open spec fn eq_spec(&self, other: &Self) -> bool {
        self@ == other@
    }
}

impl Clone for CompiledScript {
    fn clone(&self) -> (r: Self)
        ensures
            r@ == self@,
    {
        CompiledScript { unit: self.unit.clone() }
    }
}

/// A compiled publishable module.
#[derive(Debug)]
pub struct CompiledModule {
    pub unit: CompiledUnit,
}

impl View for CompiledModule {
    type V = CompiledUnitView;

    open spec fn view(&self) -> CompiledUnitView {
        self.unit@
    }
}

impl DeepView for CompiledModule {
    type V = CompiledUnitView;

    open spec fn deep_view(&self) -> CompiledUnitView {
        self@
    }
}

impl CompiledModule {
    /// Wraps a unit as a module.
    pub fn new(unit: CompiledUnit) -> (r: Self)
        ensures
            r@ == unit@,
    {
        CompiledModule { unit }
    }

    /// The tables and code of the module.
    pub fn as_inner(&self) -> (r: &CompiledUnit)
        ensures
            r@ == self@,
    {
        &self.unit
    }
}

impl PartialEq for CompiledModule {
    fn eq(&self, other: &Self) -> (r: bool) {
        self.unit == other.unit
    }
}

impl PartialEqSpecImpl for CompiledModule {
    open spec fn obeys_eq_spec() -> bool {
        true
    }

    open spec fn eq_spec(&self, other: &Self) -> bool {
        self@ == other@
    }
}

impl Clone for CompiledModule {
    fn clone(&self) -> (r: Self)
        ensures
            r@ == self@,
    {
        CompiledModule { unit: self.unit.clone() }
    }
}

/// What a compiler hands back: a script or a module.
#[derive(Debug, PartialEq)]
pub enum ScriptOrModule {
    Script(CompiledScript),
    Module(CompiledModule),
}

/// Mathematical value of a [`ScriptOrModule`].
pub enum ScriptOrModuleView {
    Script(CompiledUnitView),
    Module(CompiledUnitView),
}

impl View for ScriptOrModule {
    type V = ScriptOrModuleView;

    open spec fn view(&self) -> ScriptOrModuleView {
        match self {
            ScriptOrModule::Script(s) => ScriptOrModuleView::Script(s@),
            ScriptOrModule::Module(m) => ScriptOrModuleView::Module(m@),
        }
    }
}

} // verus!
