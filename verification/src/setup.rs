//! Setting the environment up before the first command.

use vstd::prelude::*;
use crate::account::{genesis_data, Account, AccountData, AccountResource, BalanceResource};
use crate::capability::Executor;
use crate::config::GlobalConfig;

verus! {

/// Whether the first `n` accounts of `accounts` are added through `adds`,
/// one call for each account in order, the call for account `j` made on
/// the environment in the state `states[j]`.
pub open spec fn accounts_added<E: Executor>(
    adds: Seq<&mut E>,
    states: Seq<E>,
    accounts: Seq<AccountData>,
    n: int,
) -> bool {
    &&& adds.len() == n
    &&& states.len() == n + 1
    &&& forall|j: int|
        0 <= j < n ==> mut_ref_current(#[trigger] adds[j]) == states[j] && call_ensures(
            E::add_account_data,
            (adds[j], &accounts[j]),
            (),
        )
}

/// Whether `found` is what the environment in the state `state` answers
/// when asked for the account resource of `genesis`, and, when there is
/// one, whether the account is refreshed through `add`: the environment in
/// the same state is asked for the balance, and the account data built
/// from the two answers is added.
pub open spec fn genesis_refreshed<E: Executor>(
    add: &mut E,
    state: E,
    genesis: Account,
    found: Option<AccountResource>,
) -> bool {
    &&& call_ensures(E::read_account_resource, (&state, &genesis), found)
    &&& found matches Some(resource) ==> mut_ref_current(add) == state && exists|
        balance: Option<BalanceResource>,
        data: AccountData,
    |
        #[trigger] call_ensures(E::read_balance_resource, (&state, &genesis), balance) && data@
            == genesis_data(genesis@, resource, balance) && #[trigger] call_ensures(
            E::add_account_data,
            (add, &data),
            (),
        )
}

/// Whether the first `n` genesis accounts are refreshed through `adds`, in
/// order, account `k` on the environment in the state `states[k]`, with
/// `found[k]` the account resource that the environment held for it.
pub open spec fn genesis_accounts_refreshed<E: Executor>(
    adds: Seq<&mut E>,
    found: Seq<Option<AccountResource>>,
    states: Seq<E>,
    genesis_accounts: Seq<Account>,
    n: int,
) -> bool {
    &&& adds.len() == n
    &&& found.len() == n
    &&& states.len() == n + 1
    &&& forall|k: int|
        0 <= k < n ==> #[trigger] genesis_refreshed(
            adds[k],
            states[k],
            genesis_accounts[k],
            found[k],
        )
}

/// Places the configured accounts into the environment, then refreshes
/// every genesis account that the environment holds from its own account
/// resource and balance.
///
/// The environment goes through a chain of states. Every configured
/// account is added in order, each on the state that the call before it
/// left. Then every genesis account is looked up in order; one that the
/// environment holds is added again with the data built from its account
/// resource and its balance (a missing balance counts as zero), and one
/// that it does not hold leaves the environment as it is. The environment
/// ends in the last state of the chain.
pub fn setup_accounts<E: Executor>(config: &GlobalConfig, exec: &mut E)
    ensures
        exists|
            adds: Seq<&mut E>,
            states: Seq<E>,
            refreshes: Seq<&mut E>,
            found: Seq<Option<AccountResource>>,
            later: Seq<E>,
        |
            {
                &&& #[trigger] accounts_added(
                    adds,
                    states,
                    config.accounts@,
                    config.accounts@.len() as int,
                )
                &&& #[trigger] genesis_accounts_refreshed(
                    refreshes,
                    found,
                    later,
                    config.genesis_accounts@,
                    config.genesis_accounts@.len() as int,
                )
                &&& states[0] == *old(exec)
                &&& forall|j: int|
                    0 <= j < config.accounts@.len() ==> mut_ref_future(#[trigger] adds[j])
                        == states[j + 1]
                &&& later[0] == states[config.accounts@.len() as int]
                &&& forall|k: int|
                    0 <= k < config.genesis_accounts@.len() ==> #[trigger] later[k + 1] == if found[k]
                        is Some {
                        mut_ref_future(refreshes[k])
                    } else {
                        later[k]
                    }
                &&& later[config.genesis_accounts@.len() as int] == *final(exec)
            },
{
    let ghost mut states: Seq<E> = seq![*exec];
    let mut i: usize = 0;
    assert(accounts_added(Seq::<&mut E>::empty(), states, config.accounts@, 0));
    while i < config.accounts.len()
        invariant
            i <= config.accounts.len(),
            states.len() == i + 1,
            states[0] == *old(exec),
            states[i as int] == *exec,
            exists|adds: Seq<&mut E>|
                {
                    &&& #[trigger] accounts_added(adds, states, config.accounts@, i as int)
                    &&& forall|j: int|
                        0 <= j < i ==> mut_ref_future(#[trigger] adds[j]) == states[j + 1]
                },
        decreases config.accounts.len() - i,
    {
        let ghost before = *exec;
        let ghost earlier = states;
        let ghost done = choose|adds: Seq<&mut E>|
            {
                &&& #[trigger] accounts_added(adds, earlier, config.accounts@, i as int)
                &&& forall|j: int|
                    0 <= j < i ==> mut_ref_future(#[trigger] adds[j]) == earlier[j + 1]
            };
        exec.add_account_data(&config.accounts[i]);
        proof {
            let add = choose|add: &mut E|
                mut_ref_current(add) == before && mut_ref_future(add) == *exec
                    && #[trigger] call_ensures(
                    E::add_account_data,
                    (add, &config.accounts@[i as int]),
                    (),
                );
            states = states.push(*exec);
            let adds = done.push(add);
            assert forall|j: int| 0 <= j < i + 1 implies mut_ref_current(#[trigger] adds[j])
                == states[j] && call_ensures(
                E::add_account_data,
                (adds[j], &config.accounts@[j]),
                (),
            ) by {
                if j < i {
                    assert(adds[j] == done[j]);
                    assert(states[j] == earlier[j]);
                }
            }
            assert(accounts_added(adds, states, config.accounts@, i + 1));
            assert forall|j: int| 0 <= j < i + 1 implies mut_ref_future(#[trigger] adds[j])
                == states[j + 1] by {
                if j < i {
                    assert(adds[j] == done[j]);
                    assert(states[j + 1] == earlier[j + 1]);
                }
            }
        }
        i += 1;
    }
    let ghost adds = choose|adds: Seq<&mut E>|
        {
            &&& #[trigger] accounts_added(
                adds,
                states,
                config.accounts@,
                config.accounts@.len() as int,
            )
            &&& forall|j: int|
                0 <= j < config.accounts@.len() ==> mut_ref_future(#[trigger] adds[j])
                    == states[j + 1]
        };

    let ghost mut later: Seq<E> = seq![*exec];
    let ghost mut found: Seq<Option<AccountResource>> = Seq::empty();
    let ghost idle: &mut E = arbitrary();
    let mut k: usize = 0;
    assert(genesis_accounts_refreshed(
        Seq::<&mut E>::empty(),
        found,
        later,
        config.genesis_accounts@,
        0,
    ));
    while k < config.genesis_accounts.len()
        invariant
            k <= config.genesis_accounts.len(),
            later.len() == k + 1,
            found.len() == k,
            later[0] == states[config.accounts@.len() as int],
            later[k as int] == *exec,
            exists|refreshes: Seq<&mut E>|
                {
                    &&& #[trigger] genesis_accounts_refreshed(
                        refreshes,
                        found,
                        later,
                        config.genesis_accounts@,
                        k as int,
                    )
                    &&& forall|j: int|
                        0 <= j < k ==> #[trigger] later[j + 1] == if found[j] is Some {
                            mut_ref_future(refreshes[j])
                        } else {
                            later[j]
                        }
                },
        decreases config.genesis_accounts.len() - k,
    {
        let ghost before = *exec;
        let ghost earlier = later;
        let ghost seen = found;
        let ghost done = choose|refreshes: Seq<&mut E>|
            {
                &&& #[trigger] genesis_accounts_refreshed(
                    refreshes,
                    seen,
                    earlier,
                    config.genesis_accounts@,
                    k as int,
                )
                &&& forall|j: int|
                    0 <= j < k ==> #[trigger] earlier[j + 1] == if seen[j] is Some {
                        mut_ref_future(refreshes[j])
                    } else {
                        earlier[j]
                    }
            };
        let genesis = &config.genesis_accounts[k];
        let genesis_account = exec.read_account_resource(genesis);
        if let Some(resource) = genesis_account {
            let balance = exec.read_balance_resource(genesis);
            let genesis_account_data = AccountData::with_account_and_event_counts(
                genesis,
                &resource,
                balance,
            );
            exec.add_account_data(&genesis_account_data);
            proof {
                let add = choose|add: &mut E|
                    mut_ref_current(add) == before && mut_ref_future(add) == *exec
                        && #[trigger] call_ensures(
                        E::add_account_data,
                        (add, &genesis_account_data),
                        (),
                    );
                assert(genesis_refreshed(add, before, *genesis, genesis_account));
            }
        } else {
            assert(genesis_refreshed(idle, before, *genesis, genesis_account));
        }
        let ghost step = choose|add: &mut E| #[trigger]
            genesis_refreshed(add, before, *genesis, genesis_account) && (genesis_account is Some
                ==> mut_ref_future(add) == *exec);
        let ghost refreshes = done.push(step);
        proof {
            found = found.push(genesis_account);
            later = later.push(*exec);
            assert forall|j: int| 0 <= j < k + 1 implies #[trigger] genesis_refreshed(
                refreshes[j],
                later[j],
                config.genesis_accounts@[j],
                found[j],
            ) by {
                if j < k {
                    assert(refreshes[j] == done[j]);
                    assert(later[j] == earlier[j]);
                    assert(found[j] == seen[j]);
                    assert(genesis_refreshed(
                        done[j],
                        earlier[j],
                        config.genesis_accounts@[j],
                        seen[j],
                    ));
                }
            }
            assert(genesis_accounts_refreshed(
                refreshes,
                found,
                later,
                config.genesis_accounts@,
                k + 1,
            ));
            assert forall|j: int| 0 <= j < k + 1 implies #[trigger] later[j + 1] == if found[j]
                is Some {
                mut_ref_future(refreshes[j])
            } else {
                later[j]
            } by {
                if j < k {
                    assert(refreshes[j] == done[j]);
                    assert(later[j] == earlier[j]);
                    assert(later[j + 1] == earlier[j + 1]);
                    assert(found[j] == seen[j]);
                }
            }
        }
        k += 1;
    }
}

} // verus!
