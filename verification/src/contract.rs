//! The entry points of the program: one for the operations that change the
//! stored data, one for the queries.

use vstd::prelude::*;
use crate::access::{
    is_refusal, may_read, query_num_user_burn_history, query_user_burn_history, try_revoke_permit,
    Credential, RevocationList,
};
use crate::admin::{send_back_outcome, try_send_shill_back};
use crate::burn::{batch_outcome, try_batch_receive, BatchOutcome};
use crate::ledger::{page_of, HistoryLedger};
use crate::model::{CollectionInfo, ContractError, Effect, GlobalState, HistoryRecord};
use crate::registry::{
    change_reward_outcome, query_burn_info, query_contracts, register_outcome,
    try_change_shill_reward, try_register_nft_receive,
};

verus! {

/// Everything that the program keeps between invocations.
#[derive(Debug, Clone, PartialEq, Eq)]
pub struct Store {
    pub state: GlobalState,
    pub ledger: HistoryLedger,
    pub revoked: RevocationList,
}

impl Store {
    /// The invariants of the state and of the ledger.
    pub open spec fn wf(&self) -> bool {
        self.state.wf() && self.ledger.wf()
    }
}

/// An operation that changes the stored data.
#[derive(Debug, Clone, PartialEq, Eq)]
pub enum ExecuteMsg {
    /// Register a collection.
    RegisterNftReceive { contract_info: CollectionInfo },
    /// A collection, the sender, reports the items that `from` sent for
    /// burning.
    BatchReceiveNft { from: String, token_ids: Vec<String> },
    /// The sender revokes one of its credentials.
    RevokePermit { permit_name: String },
    /// Set the reward rate of the collection with the address of
    /// `contract_info` to the rate of `contract_info`.
    ChangeShillReward { contract_info: CollectionInfo },
    /// Send an amount of the reward asset to an account.
    SendShillBack { amount: u128, address: String },
}

/// What a successful operation hands to the host.
#[derive(Debug, Clone, PartialEq, Eq)]
pub struct Response {
    /// The commands to carry out, in order.
    pub effects: Vec<Effect>,
    /// The reward of the batch, where the operation was a batch.
    pub reward_amount: Option<u128>,
}

/// A query.
#[derive(Debug, Clone, PartialEq, Eq)]
pub enum QueryMsg {
    GetContracts,
    GetBurnInfo,
    GetNumUserBurnHistory { permit: Credential },
    GetUserBurnHistory { permit: Credential, start_page: u32, page_size: u32 },
}

/// The answer to a query.
#[derive(Debug)]
pub enum QueryAnswer<'a> {
    Contracts(&'a Vec<CollectionInfo>),
    BurnInfo { num_burned: u64, amount_paid: u128 },
    NumUserBurnHistory(usize),
    UserBurnHistory(Vec<&'a HistoryRecord>),
}

/// What the operation `msg`, sent by `sender` at the time `now` to the
/// program with the code hash `own_code_hash`, makes of the stored data
/// `pre`: the stored data `post` and the result `r`.
///
/// Each operation has the outcome that its own function states, and leaves
/// the parts of the stored data that it does not concern as they were.
pub open spec fn execute_outcome(
    pre: Store,
    own_code_hash: String,
    now: u64,
    sender: String,
    msg: ExecuteMsg,
    post: Store,
    r: Result<Response, ContractError>,
) -> bool {
    match msg {
        ExecuteMsg::RegisterNftReceive { contract_info } => {
            &&& post.ledger == pre.ledger
            &&& post.revoked == pre.revoked
            &&& match r {
                Err(e) => register_outcome(
                    pre.state,
                    contract_info,
                    own_code_hash,
                    post.state,
                    Err(e),
                ),
                Ok(resp) => {
                    &&& resp.reward_amount is None
                    &&& resp.effects@.len() == 1
                    &&& register_outcome(
                        pre.state,
                        contract_info,
                        own_code_hash,
                        post.state,
                        Ok(resp.effects@[0]),
                    )
                },
            }
        },
        ExecuteMsg::BatchReceiveNft { from, token_ids } => {
            &&& post.revoked == pre.revoked
            &&& match r {
                Err(e) => batch_outcome(
                    pre.state,
                    pre.ledger,
                    sender@,
                    from,
                    token_ids,
                    now,
                    post.state,
                    post.ledger,
                    Err(e),
                ),
                Ok(resp) => {
                    &&& resp.reward_amount is Some
                    &&& batch_outcome(
                        pre.state,
                        pre.ledger,
                        sender@,
                        from,
                        token_ids,
                        now,
                        post.state,
                        post.ledger,
                        Ok(
                            (BatchOutcome {
                                effects: resp.effects,
                                reward_amount: resp.reward_amount->0,
                            }),
                        ),
                    )
                },
            }
        },
        ExecuteMsg::RevokePermit { permit_name } => {
            &&& post.state == pre.state
            &&& post.ledger == pre.ledger
            &&& post.revoked@ == pre.revoked@.insert((sender@, permit_name@))
            &&& pre.revoked@.contains((sender@, permit_name@)) ==> post.revoked == pre.revoked
            &&& match r {
                Err(_) => false,
                Ok(resp) => resp.effects@.len() == 0 && resp.reward_amount is None,
            }
        },
        ExecuteMsg::ChangeShillReward { contract_info } => {
            &&& post.ledger == pre.ledger
            &&& post.revoked == pre.revoked
            &&& match r {
                Err(e) => change_reward_outcome(
                    pre.state,
                    sender@,
                    contract_info.address@,
                    contract_info.reward_rate,
                    post.state,
                    Err(e),
                ),
                Ok(resp) => {
                    &&& resp.reward_amount is None
                    &&& resp.effects@.len() == 0
                    &&& change_reward_outcome(
                        pre.state,
                        sender@,
                        contract_info.address@,
                        contract_info.reward_rate,
                        post.state,
                        Ok(()),
                    )
                },
            }
        },
        ExecuteMsg::SendShillBack { amount, address } => {
            &&& post == pre
            &&& match r {
                Err(e) => send_back_outcome(pre.state, sender@, amount, address, Err(e)),
                Ok(resp) => {
                    &&& resp.reward_amount is None
                    &&& resp.effects@.len() == 1
                    &&& send_back_outcome(
                        pre.state,
                        sender@,
                        amount,
                        address,
                        Ok(resp.effects@[0]),
                    )
                },
            }
        },
    }
}

/// Carries out the operation `msg` that `sender` sent at the time `now`;
/// `own_code_hash` is the code hash of this program. The outcome is that of
/// `execute_outcome`; on every failure the stored data is as it was.
pub fn execute(
    store: &mut Store,
    own_code_hash: &String,
    now: u64,
    sender: &String,
    msg: ExecuteMsg,
) -> (r: Result<Response, ContractError>)
    requires
        old(store).wf(),
    ensures
        final(store).wf(),
        execute_outcome(*old(store), *own_code_hash, now, *sender, msg, *final(store), r),
        r is Err ==> *final(store) == *old(store),
{
    match msg {
        ExecuteMsg::RegisterNftReceive { contract_info } => {
            match try_register_nft_receive(&mut store.state, sender, contract_info, own_code_hash) {
                Err(e) => Err(e),
                Ok(effect) => {
                    let mut effects: Vec<Effect> = Vec::new();
                    effects.push(effect);
                    Ok(Response { effects, reward_amount: None })
                },
            }
        },
        ExecuteMsg::BatchReceiveNft { from, token_ids } => {
            match try_batch_receive(
                &mut store.state,
                &mut store.ledger,
                sender,
                &from,
                token_ids,
                now,
            ) {
                Err(e) => Err(e),
                Ok(out) => Ok(
                    Response { effects: out.effects, reward_amount: Some(out.reward_amount) },
                ),
            }
        },
        ExecuteMsg::RevokePermit { permit_name } => {
            try_revoke_permit(&mut store.revoked, sender, &permit_name);
            Ok(Response { effects: Vec::new(), reward_amount: None })
        },
        ExecuteMsg::ChangeShillReward { contract_info } => {
            match try_change_shill_reward(
                &mut store.state,
                sender,
                &contract_info.address,
                contract_info.reward_rate,
            ) {
                Err(e) => Err(e),
                Ok(_) => Ok(Response { effects: Vec::new(), reward_amount: None }),
            }
        },
        ExecuteMsg::SendShillBack { amount, address } => {
            match try_send_shill_back(&store.state, sender, amount, &address) {
                Err(e) => Err(e),
                Ok(effect) => {
                    let mut effects: Vec<Effect> = Vec::new();
                    effects.push(effect);
                    Ok(Response { effects, reward_amount: None })
                },
            }
        },
    }
}

/// Whether `r` answers the query `msg` on the stored data `store`, where the
/// credential verifier found `signer` for the credential of the query.
///
/// The registry and the totals are open to all. The history queries answer
/// for the signer where `may_read` holds, and are otherwise refused as
/// `is_refusal` says.
pub open spec fn query_outcome(
    store: Store,
    signer: Option<String>,
    msg: QueryMsg,
    r: Result<QueryAnswer, ContractError>,
) -> bool {
    match msg {
        QueryMsg::GetContracts => match r {
            Ok(QueryAnswer::Contracts(collections)) => collections@ == store.state.collections@,
            _ => false,
        },
        QueryMsg::GetBurnInfo => match r {
            Ok(QueryAnswer::BurnInfo { num_burned, amount_paid }) => {
                &&& num_burned == store.state.total_burned
                &&& amount_paid == store.state.total_reward_paid
            },
            _ => false,
        },
        QueryMsg::GetNumUserBurnHistory { permit } => match r {
            Ok(QueryAnswer::NumUserBurnHistory(n)) => {
                &&& signer is Some
                &&& may_read(store.revoked@, signer, permit, signer->0)
                &&& n == store.ledger.history(signer->0@).len()
            },
            Ok(_) => false,
            Err(e) => is_refusal(store.revoked@, signer, permit, e),
        },
        QueryMsg::GetUserBurnHistory { permit, start_page, page_size } => match r {
            Ok(QueryAnswer::UserBurnHistory(records)) => {
                let want = page_of(
                    store.ledger.history(signer->0@),
                    start_page as nat,
                    page_size as nat,
                );
                &&& signer is Some
                &&& may_read(store.revoked@, signer, permit, signer->0)
                &&& records@.len() == want.len()
                &&& forall|k: int| 0 <= k < records@.len() ==> *(#[trigger] records@[k]) == want[k]
            },
            Ok(_) => false,
            Err(e) => is_refusal(store.revoked@, signer, permit, e),
        },
    }
}

/// Answers the query `msg`. `signer` is what the credential verifier found
/// for the credential of a history query: the account that signed it, or
/// `None` where it rejected the credential; the other queries do not consult
/// it. The result is that of `query_outcome`.
pub fn query<'a>(store: &'a Store, signer: Option<String>, msg: QueryMsg) -> (r: Result<
    QueryAnswer<'a>,
    ContractError,
>)
    requires
        store.wf(),
    ensures
        query_outcome(*store, signer, msg, r),
{
    match msg {
        QueryMsg::GetContracts => Ok(QueryAnswer::Contracts(query_contracts(&store.state))),
        QueryMsg::GetBurnInfo => {
            let totals = query_burn_info(&store.state);
            Ok(QueryAnswer::BurnInfo { num_burned: totals.0, amount_paid: totals.1 })
        },
        QueryMsg::GetNumUserBurnHistory { permit } => {
            match query_num_user_burn_history(&store.ledger, &store.revoked, signer, &permit) {
                Err(e) => Err(e),
                Ok(n) => Ok(QueryAnswer::NumUserBurnHistory(n)),
            }
        },
        QueryMsg::GetUserBurnHistory { permit, start_page, page_size } => {
            match query_user_burn_history(
                &store.ledger,
                &store.revoked,
                signer,
                &permit,
                start_page,
                page_size,
            ) {
                Err(e) => Err(e),
                Ok(records) => Ok(QueryAnswer::UserBurnHistory(records)),
            }
        },
    }
}

} // verus!
