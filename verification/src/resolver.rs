//! The dependency resolver: finds the modules a bytecode unit refers to.
//!
//! Resolution is lenient. An identifier whose module is absent from the
//! state, does not deserialize or fails verification is left out of the
//! result without an error; a dependency that is really needed then
//! surfaces as a linkage failure in the verifier stage.

use vstd::prelude::*;
use crate::bytecode::{CompiledModule, CompiledScript};
use crate::capability::{BytecodeSerializer, BytecodeVerifier, Executor};
use crate::errors::Error;
use crate::types::{code_access_path, AccessPath, ModuleId, ModuleIdView, VMStatus};

verus! {

/// Decides whether a module read from the state counts as a dependency:
/// it does exactly when it passed verification.
pub fn accept_dependency<T>(compiled: CompiledModule, verdict: Result<(), T>) -> (r: Option<
    CompiledModule,
>)
    ensures
        match verdict {
            Ok(_) => r == Some(compiled),
            Err(_) => r is None,
        },
{
    match verdict {
        Ok(_) => Some(compiled),
        Err(_) => None,
    }
}

/// Whether `found` is what resolving the bytes `stored` can give: nothing
/// when no bytes are stored or they do not deserialize, and otherwise the
/// module they deserialize to, provided it passes verification.
pub open spec fn module_resolved<S: BytecodeSerializer, V: BytecodeVerifier>(
    serializer: &S,
    verifier: &V,
    stored: Option<Vec<u8>>,
    found: Option<CompiledModule>,
) -> bool {
    match stored {
        None => found is None,
        Some(blob) => exists|decoded: Result<CompiledModule, Error>| #[trigger]
            call_ensures(S::deserialize_module, (serializer, &blob), decoded) && match decoded {
                Err(_) => found is None,
                Ok(module) => exists|verdict: Result<(), VMStatus>| #[trigger]
                    call_ensures(V::verify_module, (verifier, &module), verdict) && found == (
                    if verdict is Ok {
                        Some(module)
                    } else {
                        None::<CompiledModule>
                    }),
            },
    }
}

/// Whether `found` is what fetching the module `ident` can give: the state
/// is asked for the bytes under the code access path of `ident`, and
/// `found` is what resolving them gives.
pub open spec fn dependency_fetched<E: Executor, S: BytecodeSerializer, V: BytecodeVerifier>(
    exec: &E,
    serializer: &S,
    verifier: &V,
    ident: ModuleIdView,
    found: Option<CompiledModule>,
) -> bool {
    exists|path: AccessPath, stored: Option<Vec<u8>>|
        path@ == code_access_path(ident) && #[trigger] call_ensures(E::get, (exec, &path), stored)
            && module_resolved(serializer, verifier, stored, found)
}

/// Fetches the module `ident` from the state of the environment.
///
/// The state is asked for the bytes stored under the code access path of
/// `ident`. The module is handed back only if the bytes are there,
/// deserialize, and pass verification.
pub fn fetch_dependency<E: Executor, S: BytecodeSerializer, V: BytecodeVerifier>(
    exec: &E,
    serializer: &S,
    verifier: &V,
    ident: ModuleId,
) -> (r: Option<CompiledModule>)
    ensures
        dependency_fetched(exec, serializer, verifier, ident@, r),
{
    let ap = AccessPath::from_module_id(&ident);
    let stored = exec.get(&ap);
    let blob: Vec<u8> = match stored {
        Some(blob) => blob,
        None => {
            assert(module_resolved(serializer, verifier, stored, None));
            return None;
        },
    };
    let decoded = serializer.deserialize_module(&blob);
    let compiled: CompiledModule = match decoded {
        Ok(module) => module,
        Err(_) => {
            assert(module_resolved(serializer, verifier, stored, None));
            return None;
        },
    };
    let verdict = verifier.verify_module(&compiled);
    let found = accept_dependency(compiled, verdict);
    assert(module_resolved(serializer, verifier, stored, found));
    found
}

/// The modules that were found, in order, leaving out what was not.
pub open spec fn present(found: Seq<Option<CompiledModule>>) -> Seq<CompiledModule>
    decreases found.len(),
{
    if found.len() == 0 {
        Seq::empty()
    } else {
        match found.last() {
            Some(module) => present(found.drop_last()).push(module),
            None => present(found.drop_last()),
        }
    }
}

/// Whether `deps` is what fetching the modules of `idents` can give: each
/// identifier is fetched on its own, and `deps` holds the modules that were
/// found, in the order of `idents`.
pub open spec fn dependencies_fetched<E: Executor, S: BytecodeSerializer, V: BytecodeVerifier>(
    exec: &E,
    serializer: &S,
    verifier: &V,
    idents: Seq<ModuleIdView>,
    deps: Seq<CompiledModule>,
) -> bool {
    exists|found: Seq<Option<CompiledModule>>|
        {
            &&& found.len() == idents.len()
            &&& forall|i: int|
                0 <= i < idents.len() ==> #[trigger] dependency_fetched(
                    exec,
                    serializer,
                    verifier,
                    idents[i],
                    found[i],
                )
            &&& deps == #[trigger] present(found)
        }
}

/// Never more modules are found than were asked for.
pub proof fn lemma_present_is_no_longer(found: Seq<Option<CompiledModule>>)
    ensures
        present(found).len() <= found.len(),
    decreases found.len(),
{
    if found.len() > 0 {
        lemma_present_is_no_longer(found.drop_last());
    }
}

/// Fetches the modules of `idents`, in the order of `idents`, leaving out
/// those that cannot be had.
pub fn fetch_dependencies<E: Executor, S: BytecodeSerializer, V: BytecodeVerifier>(
    exec: &E,
    serializer: &S,
    verifier: &V,
    idents: Vec<ModuleId>,
) -> (r: Vec<CompiledModule>)
    ensures
        dependencies_fetched(exec, serializer, verifier, idents.deep_view(), r@),
        r@.len() <= idents@.len(),
{
    let mut deps: Vec<CompiledModule> = Vec::new();
    let ghost mut found: Seq<Option<CompiledModule>> = Seq::empty();
    let mut i: usize = 0;
    while i < idents.len()
        invariant
            i <= idents.len(),
            found.len() == i,
            forall|j: int|
                0 <= j < i ==> #[trigger] dependency_fetched(
                    exec,
                    serializer,
                    verifier,
                    idents.deep_view()[j],
                    found[j],
                ),
            deps@ == present(found),
        decreases idents.len() - i,
    {
        let fetched = fetch_dependency(exec, serializer, verifier, idents[i].clone());
        proof {
            let before = found;
            found = found.push(fetched);
            assert(found.drop_last() =~= before);
        }
        if let Some(module) = fetched {
            deps.push(module);
        }
        i += 1;
    }
    proof {
        lemma_present_is_no_longer(found);
    }
    deps
}

/// Fetches the modules that the handle table of `script` refers to.
pub fn fetch_script_dependencies<E: Executor, S: BytecodeSerializer, V: BytecodeVerifier>(
    exec: &E,
    serializer: &S,
    verifier: &V,
    script: &CompiledScript,
) -> (r: Vec<CompiledModule>)
    ensures
        dependencies_fetched(exec, serializer, verifier, script@.module_ids(), r@),
        r@.len() <= script@.module_handles.len(),
{
    let idents = script.as_inner().module_ids();
    assert(idents@.len() == idents.deep_view().len());
    fetch_dependencies(exec, serializer, verifier, idents)
}

/// Fetches the modules that the handle table of `module` refers to.
pub fn fetch_module_dependencies<E: Executor, S: BytecodeSerializer, V: BytecodeVerifier>(
    exec: &E,
    serializer: &S,
    verifier: &V,
    module: &CompiledModule,
) -> (r: Vec<CompiledModule>)
    ensures
        dependencies_fetched(exec, serializer, verifier, module@.module_ids(), r@),
        r@.len() <= module@.module_handles.len(),
{
    let idents = module.as_inner().module_ids();
    assert(idents@.len() == idents.deep_view().len());
    fetch_dependencies(exec, serializer, verifier, idents)
}

} // verus!
