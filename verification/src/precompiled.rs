//! The registry of precompiled scripts: ready-made bytecode that an input
//! can name instead of giving source text.

use vstd::prelude::*;
use crate::bytecode::{CompiledScript, CompiledUnitView};
use crate::text::{same_text, strip_prefix};

verus! {

/// The prefix by which an input names a precompiled script.
pub const PRECOMPILED_PREFIX: &'static str = "stdlib_script::";

/// One registered script with its symbolic name.
#[derive(Debug)]
pub struct PrecompiledEntry {
    pub name: String,
    pub script: CompiledScript,
}

/// A read-only mapping from symbolic names to ready-made scripts.
#[derive(Debug)]
pub struct PrecompiledScripts {
    entries: Vec<PrecompiledEntry>,
}

/// The mapping that the first `n` registrations amount to: a later
/// registration of a name replaces an earlier one.
pub open spec fn registered(entries: Seq<PrecompiledEntry>, n: int) -> Map<
    Seq<char>,
    CompiledUnitView,
>
    decreases n,
{
    if n <= 0 {
        Map::empty()
    } else {
        registered(entries, n - 1).insert(entries[n - 1].name@, entries[n - 1].script@)
    }
}

/// The precompiled script that `input` names in `registry`, if it names
/// one: the input must start with the reserved prefix, and what follows
/// must be a registered name.
pub open spec fn precompiled_script(
    registry: Map<Seq<char>, CompiledUnitView>,
    input: Seq<char>,
) -> Option<CompiledUnitView> {
    let prefix = PRECOMPILED_PREFIX@;
    if prefix.is_prefix_of(input) && registry.contains_key(input.skip(prefix.len() as int)) {
        Some(registry[input.skip(prefix.len() as int)])
    } else {
        None
    }
}

impl View for PrecompiledScripts {
    type V = Map<Seq<char>, CompiledUnitView>;

    closed spec fn view(&self) -> Map<Seq<char>, CompiledUnitView> {
        registered(self.entries@, self.entries@.len() as int)
    }
}

impl PrecompiledScripts {
    /// A registry without scripts.
    pub fn new() -> (r: Self)
        ensures
            r@ == Map::<Seq<char>, CompiledUnitView>::empty(),
    {
        PrecompiledScripts { entries: Vec::new() }
    }

    /// Registers `script` under `name`, replacing what the name stood for.
    pub fn insert(&mut self, name: String, script: CompiledScript)
        ensures
            final(self)@ == old(self)@.insert(name@, script@),
    {
        let ghost before = self.entries@;
        self.entries.push(PrecompiledEntry { name, script });
        proof {
            let after = self.entries@;
            let n = before.len() as int;
            assert(after.len() == n + 1);
            Self::lemma_registered_prefix(before, after, n);
        }
    }

    proof fn lemma_registered_prefix(a: Seq<PrecompiledEntry>, b: Seq<PrecompiledEntry>, n: int)
        requires
            0 <= n <= a.len(),
            n <= b.len(),
            forall|i: int| 0 <= i < n ==> a[i] == b[i],
        ensures
            registered(a, n) == registered(b, n),
        decreases n,
    {
        if n > 0 {
            Self::lemma_registered_prefix(a, b, n - 1);
        }
    }

    /// The script registered under `name`, if there is one.
    pub fn get(&self, name: &str) -> (r: Option<&CompiledScript>)
        ensures
            match r {
                Some(script) => self@.contains_key(name@) && self@[name@] == script@,
                None => !self@.contains_key(name@),
            },
    {
        let mut i: usize = self.entries.len();
        while i > 0
            invariant
                i <= self.entries.len(),
                self@.contains_key(name@) == registered(self.entries@, i as int).contains_key(
                    name@,
                ),
                self@.contains_key(name@) ==> self@[name@] == registered(
                    self.entries@,
                    i as int,
                )[name@],
            decreases i,
        {
            i -= 1;
            let entry = &self.entries[i];
            if same_text(entry.name.as_str(), name) {
                return Some(&entry.script);
            }
        }
        None
    }
}

/// Looks `input_str` up in the registry of precompiled scripts. Only an
/// input that starts with the reserved prefix can name one.
pub fn is_precompiled_script(registry: &PrecompiledScripts, input_str: &str) -> (r: Option<
    CompiledScript,
>)
    ensures
        match r {
            Some(script) => precompiled_script(registry@, input_str@) == Some(script@),
            None => precompiled_script(registry@, input_str@) is None,
        },
{
    if let Some(script_name) = strip_prefix(input_str, PRECOMPILED_PREFIX) {
        return match registry.get(script_name) {
            Some(script) => Some(script.clone()),
            None => None,
        };
    }
    None
}

} // verus!
