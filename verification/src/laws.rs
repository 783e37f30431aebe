//! What holds of the stored data after any sequence of operations.

use vstd::prelude::*;
use crate::burn::capped;
use crate::contract::{execute_outcome, ExecuteMsg, Response, Store};
use crate::model::{CollectionInfo, ContractError};

verus! {

/// One invocation: who sent which operation, and when.
pub struct Call {
    pub sender: String,
    pub now: u64,
    pub msg: ExecuteMsg,
}

/// Whether `stores` are the stored data before, between and after the
/// invocations `calls`, made one after the other in any interleaving of
/// operations, and `results` are their results.
pub open spec fn is_run(
    stores: Seq<Store>,
    own_code_hash: String,
    calls: Seq<Call>,
    results: Seq<Result<Response, ContractError>>,
) -> bool {
    &&& stores.len() == calls.len() + 1
    &&& results.len() == calls.len()
    &&& forall|i: int|
        0 <= i < calls.len() ==> execute_outcome(
            stores[i],
            own_code_hash,
            calls[i].now,
            calls[i].sender,
            calls[i].msg,
            stores[i + 1],
            #[trigger] results[i],
        )
}

/// Whether the invocation is a batch of `account` that succeeded.
pub open spec fn is_batch_of(
    call: Call,
    result: Result<Response, ContractError>,
    account: Seq<char>,
) -> bool {
    match call.msg {
        ExecuteMsg::BatchReceiveNft { from, .. } => result is Ok && from@ == account,
        _ => false,
    }
}

/// The number of items that the invocation burned.
pub open spec fn items_of(call: Call, result: Result<Response, ContractError>) -> nat {
    match call.msg {
        ExecuteMsg::BatchReceiveNft { token_ids, .. } => if result is Ok {
            token_ids@.len()
        } else {
            0
        },
        _ => 0,
    }
}

/// The reward that the invocation computed.
pub open spec fn reward_of(call: Call, result: Result<Response, ContractError>) -> nat {
    match call.msg {
        ExecuteMsg::BatchReceiveNft { .. } => match result {
            Ok(resp) => match resp.reward_amount {
                Some(reward) => reward as nat,
                None => 0,
            },
            Err(_) => 0,
        },
        _ => 0,
    }
}

/// The number of successful batches of `account` among the invocations.
pub open spec fn batches_of(
    calls: Seq<Call>,
    results: Seq<Result<Response, ContractError>>,
    account: Seq<char>,
) -> nat
    decreases calls.len(),
{
    if calls.len() == 0 || results.len() != calls.len() {
        0
    } else {
        batches_of(calls.drop_last(), results.drop_last(), account) + if is_batch_of(
            calls.last(),
            results.last(),
            account,
        ) {
            1nat
        } else {
            0nat
        }
    }
}

/// The number of items that the invocations burned.
pub open spec fn items_burned(calls: Seq<Call>, results: Seq<Result<Response, ContractError>>) -> nat
    decreases calls.len(),
{
    if calls.len() == 0 || results.len() != calls.len() {
        0
    } else {
        items_burned(calls.drop_last(), results.drop_last()) + items_of(
            calls.last(),
            results.last(),
        )
    }
}

/// The sum of the rewards that the invocations computed.
pub open spec fn rewards_computed(
    calls: Seq<Call>,
    results: Seq<Result<Response, ContractError>>,
) -> nat
    decreases calls.len(),
{
    if calls.len() == 0 || results.len() != calls.len() {
        0
    } else {
        rewards_computed(calls.drop_last(), results.drop_last()) + reward_of(
            calls.last(),
            results.last(),
        )
    }
}

/// A run without its last invocation is a run.
pub proof fn lemma_run_prefix(
    stores: Seq<Store>,
    own_code_hash: String,
    calls: Seq<Call>,
    results: Seq<Result<Response, ContractError>>,
)
    requires
        is_run(stores, own_code_hash, calls, results),
        calls.len() > 0,
    ensures
        is_run(stores.drop_last(), own_code_hash, calls.drop_last(), results.drop_last()),
        execute_outcome(
            stores.drop_last().last(),
            own_code_hash,
            calls.last().now,
            calls.last().sender,
            calls.last().msg,
            stores.last(),
            results.last(),
        ),
{
    let n = calls.len() - 1;
    assert forall|i: int| 0 <= i < n implies execute_outcome(
        stores.drop_last()[i],
        own_code_hash,
        calls.drop_last()[i].now,
        calls.drop_last()[i].sender,
        calls.drop_last()[i].msg,
        stores.drop_last()[i + 1],
        #[trigger] results.drop_last()[i],
    ) by {
        assert(results.drop_last()[i] == results[i]);
    }
    assert(results.last() == results[n]);
    assert(stores.drop_last().last() == stores[n]);
}

/// After any sequence of operations, the history of every account has grown
/// by one record for each successful batch of that account, and by nothing
/// else.
pub proof fn lemma_history_counts_batches(
    stores: Seq<Store>,
    own_code_hash: String,
    calls: Seq<Call>,
    results: Seq<Result<Response, ContractError>>,
    account: Seq<char>,
)
    requires
        is_run(stores, own_code_hash, calls, results),
    ensures
        stores.last().ledger.history(account).len() == stores[0].ledger.history(account).len()
            + batches_of(calls, results, account),
    decreases calls.len(),
{
    if calls.len() > 0 {
        lemma_run_prefix(stores, own_code_hash, calls, results);
        lemma_history_counts_batches(
            stores.drop_last(),
            own_code_hash,
            calls.drop_last(),
            results.drop_last(),
            account,
        );
    }
}

/// After any sequence of operations, in whatever order registrations, rate
/// changes and batches came, the count of burned items is the count before
/// plus the number of items of the successful batches, and the reward paid is
/// the amount before plus the sum of their rewards, each held at the largest
/// value of its type.
pub proof fn lemma_totals_are_sums(
    stores: Seq<Store>,
    own_code_hash: String,
    calls: Seq<Call>,
    results: Seq<Result<Response, ContractError>>,
)
    requires
        is_run(stores, own_code_hash, calls, results),
    ensures
        stores.last().state.total_burned == capped(
            stores[0].state.total_burned + items_burned(calls, results),
            u64::MAX as int,
        ),
        stores.last().state.total_reward_paid == capped(
            stores[0].state.total_reward_paid + rewards_computed(calls, results),
            u128::MAX as int,
        ),
    decreases calls.len(),
{
    if calls.len() > 0 {
        lemma_run_prefix(stores, own_code_hash, calls, results);
        lemma_totals_are_sums(
            stores.drop_last(),
            own_code_hash,
            calls.drop_last(),
            results.drop_last(),
        );
    }
}

/// The owner of the program is the same after any sequence of operations.
pub proof fn lemma_owner_never_changes(
    stores: Seq<Store>,
    own_code_hash: String,
    calls: Seq<Call>,
    results: Seq<Result<Response, ContractError>>,
)
    requires
        is_run(stores, own_code_hash, calls, results),
    ensures
        stores.last().state.owner == stores[0].state.owner,
    decreases calls.len(),
{
    if calls.len() > 0 {
        lemma_run_prefix(stores, own_code_hash, calls, results);
        lemma_owner_never_changes(
            stores.drop_last(),
            own_code_hash,
            calls.drop_last(),
            results.drop_last(),
        );
    }
}

/// The addresses of `cols`, in order.
pub open spec fn addresses_of(cols: Seq<CollectionInfo>) -> Seq<Seq<char>> {
    cols.map_values(|c: CollectionInfo| c.address@)
}

/// The totals never decrease, whatever the operations.
pub proof fn lemma_totals_never_decrease(
    stores: Seq<Store>,
    own_code_hash: String,
    calls: Seq<Call>,
    results: Seq<Result<Response, ContractError>>,
)
    requires
        is_run(stores, own_code_hash, calls, results),
    ensures
        stores.last().state.total_burned >= stores[0].state.total_burned,
        stores.last().state.total_reward_paid >= stores[0].state.total_reward_paid,
{
    lemma_totals_are_sums(stores, own_code_hash, calls, results);
}

/// The registry only grows at its end: after any sequence of operations the
/// addresses that were registered before stand where they stood, and where
/// they were pairwise distinct before, all addresses are so after.
pub proof fn lemma_registry_only_grows(
    stores: Seq<Store>,
    own_code_hash: String,
    calls: Seq<Call>,
    results: Seq<Result<Response, ContractError>>,
)
    requires
        is_run(stores, own_code_hash, calls, results),
        stores[0].state.wf(),
    ensures
        stores.last().state.wf(),
        addresses_of(stores[0].state.collections@).is_prefix_of(
            addresses_of(stores.last().state.collections@),
        ),
    decreases calls.len(),
{
    if calls.len() > 0 {
        lemma_run_prefix(stores, own_code_hash, calls, results);
        lemma_registry_only_grows(
            stores.drop_last(),
            own_code_hash,
            calls.drop_last(),
            results.drop_last(),
        );
        lemma_step_keeps_registry(
            stores.drop_last().last(),
            own_code_hash,
            calls.last(),
            stores.last(),
            results.last(),
        );
    }
}

/// One operation keeps the addresses of the registry where they stood, adds
/// at most one at the end, and keeps them pairwise distinct.
pub proof fn lemma_step_keeps_registry(
    pre: Store,
    own_code_hash: String,
    call: Call,
    post: Store,
    result: Result<Response, ContractError>,
)
    requires
        pre.state.wf(),
        execute_outcome(pre, own_code_hash, call.now, call.sender, call.msg, post, result),
    ensures
        post.state.wf(),
        addresses_of(pre.state.collections@).is_prefix_of(addresses_of(post.state.collections@)),
        post.state.collections@.len() <= pre.state.collections@.len() + 1,
{
    let before = pre.state.collections@;
    let after = post.state.collections@;
    match call.msg {
        ExecuteMsg::RegisterNftReceive { contract_info } => {
            if result is Ok {
                assert forall|i: int, j: int| 0 <= i < j < after.len() implies (
                #[trigger] after[i]).address@ != (#[trigger] after[j]).address@ by {
                    if j == before.len() {
                        assert(before[i].address@ != contract_info.address@);
                    }
                }
            }
        },
        ExecuteMsg::ChangeShillReward { contract_info } => {
            if result is Ok {
                assert forall|i: int| 0 <= i < after.len() implies (#[trigger] after[i]).address@
                    == before[i].address@ by {}
            }
        },
        _ => {},
    }
    assert(addresses_of(before) =~= addresses_of(after).subrange(0, before.len() as int));
}

} // verus!
