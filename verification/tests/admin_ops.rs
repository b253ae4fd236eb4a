use treasury_gateway::contract::{
    execute, instantiate, is_active_bot, is_owner, query, try_set_admin, try_set_bot_role,
    try_withdraw_fee,
};
use treasury_gateway::error::ContractError;
use treasury_gateway::msg::{ExecuteMsg, InstantiateMsg, QueryMsg};
use treasury_gateway::response::OutboundMsg;
use treasury_gateway::state::{Addr, BotRoleTable, TreasuryConfig};

fn addr(name: &str) -> Addr {
    Addr::new(name.to_string())
}

fn deploy_msg() -> InstantiateMsg {
    InstantiateMsg {
        arbiter: "arbiter".to_string(),
        recipient: "recipient".to_string(),
        end_height: None,
        end_time: None,
    }
}

#[test]
fn instantiate_sets_owner_and_zero_fee() {
    let state = instantiate(addr("alice"), deploy_msg());
    assert_eq!(state.owner.as_str(), "alice");
    assert_eq!(state.pending_platform_fee, 0);
}

#[test]
fn set_admin_by_owner_changes_owner() {
    let mut state = instantiate(addr("alice"), deploy_msg());
    let response = try_set_admin(&mut state, &addr("alice"), addr("bob")).unwrap();
    assert_eq!(state.owner.as_str(), "bob");
    assert!(is_owner(&state, &addr("bob")));
    assert!(!is_owner(&state, &addr("alice")));
    assert_eq!(response.messages.len(), 0);
    assert_eq!(response.attributes.len(), 1);
    assert_eq!(response.attributes[0].key, "new_admin");
    assert_eq!(response.attributes[0].value, "bob");
}

#[test]
fn set_admin_by_stranger_rejected() {
    let mut state = instantiate(addr("alice"), deploy_msg());
    let result = try_set_admin(&mut state, &addr("mallory"), addr("mallory"));
    assert_eq!(result.unwrap_err(), ContractError::Unauthorized);
    assert_eq!(state.owner.as_str(), "alice");
    assert_eq!(state.pending_platform_fee, 0);
}

#[test]
fn set_bot_role_by_owner_upserts_entry() {
    let state = instantiate(addr("alice"), deploy_msg());
    let mut table = BotRoleTable::new();
    let response =
        try_set_bot_role(&state, &mut table, &addr("alice"), addr("bot"), true).unwrap();
    assert_eq!(table.get(&addr("bot")), Some(true));
    assert!(is_active_bot(&table, &addr("bot")));
    assert_eq!(response.messages.len(), 0);
    assert_eq!(response.attributes.len(), 1);
    assert_eq!(response.attributes[0].key, "bot added");
    assert_eq!(response.attributes[0].value, "Yes");
}

#[test]
fn set_bot_role_by_stranger_rejected() {
    let state = instantiate(addr("alice"), deploy_msg());
    let mut table = BotRoleTable::new();
    let result = try_set_bot_role(&state, &mut table, &addr("mallory"), addr("mallory"), true);
    assert_eq!(result.unwrap_err(), ContractError::Unauthorized);
    assert_eq!(table.get(&addr("mallory")), None);
}

#[test]
fn missing_entry_distinct_from_disabled_entry() {
    let state = instantiate(addr("alice"), deploy_msg());
    let mut table = BotRoleTable::new();
    assert_eq!(table.get(&addr("bot")), None);
    try_set_bot_role(&state, &mut table, &addr("alice"), addr("bot"), false).unwrap();
    assert_eq!(table.get(&addr("bot")), Some(false));
    assert!(!is_active_bot(&table, &addr("bot")));
}

#[test]
fn disabling_overwrites_enabled_entry() {
    let state = instantiate(addr("alice"), deploy_msg());
    let mut table = BotRoleTable::new();
    try_set_bot_role(&state, &mut table, &addr("alice"), addr("bot"), true).unwrap();
    try_set_bot_role(&state, &mut table, &addr("alice"), addr("bot"), false).unwrap();
    assert_eq!(table.get(&addr("bot")), Some(false));
}

#[test]
fn withdraw_fee_by_stranger_rejected() {
    let mut state = TreasuryConfig { owner: addr("alice"), pending_platform_fee: 100 };
    let result = try_withdraw_fee(&mut state, &addr("mallory"), addr("mallory"), 50);
    assert_eq!(result.unwrap_err(), ContractError::Unauthorized);
    assert_eq!(state.pending_platform_fee, 100);
    assert_eq!(state.owner.as_str(), "alice");
}

#[test]
fn withdraw_more_than_pending_rejected() {
    let mut state = TreasuryConfig { owner: addr("alice"), pending_platform_fee: 100 };
    let result = try_withdraw_fee(&mut state, &addr("alice"), addr("alice"), 101);
    assert_eq!(result.unwrap_err(), ContractError::FeeUnderflow);
    assert_eq!(state.pending_platform_fee, 100);
}

#[test]
fn withdraw_exact_pending_empties_accumulator() {
    let mut state = TreasuryConfig { owner: addr("alice"), pending_platform_fee: 100 };
    let response = try_withdraw_fee(&mut state, &addr("alice"), addr("carol"), 100).unwrap();
    assert_eq!(state.pending_platform_fee, 0);
    assert_eq!(response.attributes.len(), 0);
    assert_eq!(response.messages.len(), 1);
    match &response.messages[0] {
        OutboundMsg::Transfer { denom, amount, recipient } => {
            assert_eq!(denom, "ujuno");
            assert_eq!(*amount, 100);
            assert_eq!(recipient.as_str(), "carol");
        }
        other => panic!("expected a transfer message, got {:?}", message_kind(other)),
    }
}

fn message_kind(message: &OutboundMsg) -> &'static str {
    match message {
        OutboundMsg::Transfer { .. } => "transfer",
        OutboundMsg::Swap { .. } => "swap",
    }
}

#[test]
fn execute_dispatches_set_admin() {
    let mut state = instantiate(addr("alice"), deploy_msg());
    let mut table = BotRoleTable::new();
    let msg = ExecuteMsg::SetAdmin { new_admin: addr("bob") };
    execute(&mut state, &mut table, addr("alice"), 0, msg).unwrap();
    assert_eq!(state.owner.as_str(), "bob");
}

#[test]
fn execute_rejects_stranger_withdraw() {
    let mut state = TreasuryConfig { owner: addr("alice"), pending_platform_fee: 7 };
    let mut table = BotRoleTable::new();
    let msg = ExecuteMsg::WithdrawFee { to: addr("mallory"), amount: 7 };
    let result = execute(&mut state, &mut table, addr("mallory"), 0, msg);
    assert_eq!(result.unwrap_err(), ContractError::Unauthorized);
    assert_eq!(state.pending_platform_fee, 7);
}

#[test]
fn query_returns_snapshot() {
    let state = TreasuryConfig { owner: addr("alice"), pending_platform_fee: 42 };
    let answer = query(&state, 1234, QueryMsg::GetInfos {});
    assert_eq!(answer.admin.as_str(), "alice");
    assert_eq!(answer.pending_platform_fee, 42);
    assert_eq!(answer.blocktime, 1234);
}
