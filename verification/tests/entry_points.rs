use burn_rewards::access::{Capability, Credential, RevocationList};
use burn_rewards::contract::{execute, query, ExecuteMsg, QueryAnswer, QueryMsg, Response, Store};
use burn_rewards::ledger::HistoryLedger;
use burn_rewards::model::{CollectionInfo, ContractError, Effect, RewardAsset};
use burn_rewards::registry::instantiate;

fn t(x: &str) -> String {
    x.to_string()
}

fn info(addr: &str, rate: u128) -> CollectionInfo {
    CollectionInfo { address: t(addr), code_hash: t("ch"), reward_rate: rate }
}

fn store() -> Store {
    let asset = RewardAsset { address: t("shill"), code_hash: t("sh"), viewing_key: None };
    let (state, _) = instantiate(t("owner"), vec![info("C", 5)], asset, t("entropy"), &t("own")).unwrap();
    Store { state, ledger: HistoryLedger::new(), revoked: RevocationList::new() }
}

fn owner_permit() -> Credential {
    Credential { name: t("permit"), capabilities: vec![Capability::Owner] }
}

#[test]
fn execute_batch_reports_reward_and_effects() {
    let mut st = store();
    let msg = ExecuteMsg::BatchReceiveNft { from: t("A"), token_ids: vec![t("1"), t("2"), t("3")] };
    let resp = execute(&mut st, &t("own"), 77, &t("C"), msg).unwrap();
    assert_eq!(resp.reward_amount, Some(15));
    assert_eq!(resp.effects.len(), 2);
    assert_eq!(
        resp.effects[1],
        Effect::Transfer { asset: t("shill"), code_hash: t("sh"), amount: 15, destination: t("A") }
    );
    assert_eq!(st.state.total_burned, 3);
    assert_eq!(st.state.total_reward_paid, 15);
    assert_eq!(st.ledger.len(&t("A")), 1);
}

#[test]
fn execute_batch_from_unknown_sender_leaves_the_store() {
    let mut st = store();
    let before = st.clone();
    let msg = ExecuteMsg::BatchReceiveNft { from: t("A"), token_ids: vec![t("1")] };
    assert_eq!(execute(&mut st, &t("own"), 77, &t("X"), msg).unwrap_err(), ContractError::UnknownCollection);
    assert_eq!(st, before);
}

#[test]
fn execute_register_then_change_rate() {
    let mut st = store();
    let resp = execute(&mut st, &t("own"), 1, &t("anyone"), ExecuteMsg::RegisterNftReceive { contract_info: info("D", 2) })
        .unwrap();
    assert_eq!(
        resp,
        Response {
            effects: vec![Effect::RegisterReceive { collection: t("D"), code_hash: t("ch"), callback_code_hash: t("own") }],
            reward_amount: None,
        }
    );
    let again = execute(&mut st, &t("own"), 1, &t("anyone"), ExecuteMsg::RegisterNftReceive { contract_info: info("D", 2) });
    assert_eq!(again.unwrap_err(), ContractError::AlreadyRegistered);
    let denied = execute(&mut st, &t("own"), 2, &t("anyone"), ExecuteMsg::ChangeShillReward { contract_info: info("D", 9) });
    assert_eq!(denied.unwrap_err(), ContractError::Unauthorized);
    assert_eq!(st.state.collections, vec![info("C", 5), info("D", 2)]);
    let changed = execute(&mut st, &t("own"), 2, &t("owner"), ExecuteMsg::ChangeShillReward { contract_info: info("D", 9) })
        .unwrap();
    assert_eq!(changed, Response { effects: vec![], reward_amount: None });
    assert_eq!(st.state.collections, vec![info("C", 5), info("D", 9)]);
}

#[test]
fn execute_send_back_leaves_totals() {
    let mut st = store();
    let before = st.clone();
    let resp = execute(&mut st, &t("own"), 1, &t("owner"), ExecuteMsg::SendShillBack { amount: 40, address: t("bank") })
        .unwrap();
    assert_eq!(
        resp.effects,
        vec![Effect::Transfer { asset: t("shill"), code_hash: t("sh"), amount: 40, destination: t("bank") }]
    );
    assert_eq!(st, before);
    let denied = execute(&mut st, &t("own"), 1, &t("bank"), ExecuteMsg::SendShillBack { amount: 40, address: t("bank") });
    assert_eq!(denied.unwrap_err(), ContractError::Unauthorized);
}

#[test]
fn execute_revoke_then_query_is_refused() {
    let mut st = store();
    execute(&mut st, &t("own"), 1, &t("C"), ExecuteMsg::BatchReceiveNft { from: t("A"), token_ids: vec![t("1")] }).unwrap();
    let q = QueryMsg::GetNumUserBurnHistory { permit: owner_permit() };
    assert!(matches!(query(&st, Some(t("A")), q.clone()), Ok(QueryAnswer::NumUserBurnHistory(1))));
    execute(&mut st, &t("own"), 2, &t("A"), ExecuteMsg::RevokePermit { permit_name: t("permit") }).unwrap();
    let once = st.clone();
    execute(&mut st, &t("own"), 3, &t("A"), ExecuteMsg::RevokePermit { permit_name: t("permit") }).unwrap();
    assert_eq!(st, once);
    assert!(matches!(query(&st, Some(t("A")), q), Err(ContractError::CredentialInvalid)));
}

#[test]
fn query_registry_and_totals_need_no_credential() {
    let mut st = store();
    execute(&mut st, &t("own"), 1, &t("C"), ExecuteMsg::BatchReceiveNft { from: t("A"), token_ids: vec![t("1"), t("2")] })
        .unwrap();
    match query(&st, None, QueryMsg::GetContracts) {
        Ok(QueryAnswer::Contracts(c)) => assert_eq!(c, &vec![info("C", 5)]),
        other => panic!("unexpected answer {:?}", other),
    }
    match query(&st, None, QueryMsg::GetBurnInfo) {
        Ok(QueryAnswer::BurnInfo { num_burned, amount_paid }) => {
            assert_eq!(num_burned, 2);
            assert_eq!(amount_paid, 10);
        }
        other => panic!("unexpected answer {:?}", other),
    }
}

#[test]
fn query_history_pages() {
    let mut st = store();
    for n in 1..=5u64 {
        let msg = ExecuteMsg::BatchReceiveNft { from: t("A"), token_ids: vec![n.to_string()] };
        execute(&mut st, &t("own"), n, &t("C"), msg).unwrap();
    }
    let q = QueryMsg::GetUserBurnHistory { permit: owner_permit(), start_page: 1, page_size: 2 };
    match query(&st, Some(t("A")), q) {
        Ok(QueryAnswer::UserBurnHistory(records)) => {
            assert_eq!(records.iter().map(|r| r.burn_timestamp).collect::<Vec<u64>>(), vec![3, 4]);
        }
        other => panic!("unexpected answer {:?}", other),
    }
    let empty = QueryMsg::GetUserBurnHistory { permit: owner_permit(), start_page: 0, page_size: 10 };
    match query(&st, Some(t("nobody")), empty) {
        Ok(QueryAnswer::UserBurnHistory(records)) => assert!(records.is_empty()),
        other => panic!("unexpected answer {:?}", other),
    }
}

#[test]
fn query_history_without_owner_scope_is_refused() {
    let mut st = store();
    execute(&mut st, &t("own"), 1, &t("C"), ExecuteMsg::BatchReceiveNft { from: t("A"), token_ids: vec![t("1")] }).unwrap();
    let permit = Credential { name: t("permit"), capabilities: vec![Capability::Balance] };
    let q = QueryMsg::GetUserBurnHistory { permit: permit.clone(), start_page: 0, page_size: 10 };
    assert!(matches!(query(&st, Some(t("A")), q), Err(ContractError::InsufficientScope)));
    let n = QueryMsg::GetNumUserBurnHistory { permit };
    assert!(matches!(query(&st, Some(t("A")), n), Err(ContractError::InsufficientScope)));
    let rejected = QueryMsg::GetNumUserBurnHistory { permit: owner_permit() };
    assert!(matches!(query(&st, None, rejected), Err(ContractError::CredentialInvalid)));
}
