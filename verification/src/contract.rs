//! The execution engine: one pure, atomic transition per inbound call.
//! Every operation validates authorization and guardrails against the
//! transient state copy it was handed, mutates that copy only when every
//! check has passed, and returns the attributes and outbound messages to
//! emit. On any failure the state copy is left exactly as it was and
//! nothing is emitted.
//!
//! Each transition's full outcome — which error, or which new state and
//! message amounts — is also written down as a spec-level outcome function,
//! and the executable code is proved to match it.

use vstd::prelude::*;

use crate::error::ContractError;
use crate::msg::{AdminResponse, ExecuteMsg, InstantiateMsg, QueryMsg};
use crate::response::{Attribute, OutboundMsg, Response};
use crate::state::{Addr, BotRoleTable, TreasuryConfig};

verus! {

/// Basis points in one whole: 10000 bips = 100%.
pub const MAX_BIPS: u128 = 10000;

/// The denomination of the treasury's native token.
pub const NATIVE_DENOM: &'static str = "ujuno";

// ---------------------------------------------------------------------------
// Authorization predicates
// ---------------------------------------------------------------------------

/// Whether `caller` may perform admin operations: exactly the current owner.
pub fn is_owner(state: &TreasuryConfig, caller: &Addr) -> (authorized: bool)
    ensures
        authorized == (state.owner@ == caller@),
{
    state.owner == *caller
}

/// Whether `caller` may trigger a buy: it must have a bot-role entry, and
/// that entry must be enabled.
pub fn is_active_bot(table: &BotRoleTable, caller: &Addr) -> (authorized: bool)
    ensures
        authorized == (table.spec_get(caller@) == Some(true)),
{
    match table.get(caller) {
        Some(enabled) => enabled,
        None => false,
    }
}

// ---------------------------------------------------------------------------
// Spec-level outcomes
// ---------------------------------------------------------------------------

/// Outcome of an admin transfer: the new owner, or a refusal.
pub open spec fn set_admin_outcome(owner: Seq<char>, sender: Seq<char>, new_admin: Seq<char>) -> Result<
    Seq<char>,
    ContractError,
> {
    if owner == sender {
        Ok(new_admin)
    } else {
        Err(ContractError::Unauthorized)
    }
}

/// Outcome of a bot-role upsert: permitted, or a refusal.
pub open spec fn set_bot_role_outcome(owner: Seq<char>, sender: Seq<char>) -> Result<
    (),
    ContractError,
> {
    if owner == sender {
        Ok(())
    } else {
        Err(ContractError::Unauthorized)
    }
}

/// Outcome of a fee withdrawal: the new pending fee, or a refusal. A
/// withdrawal must never take the accumulator below zero, so an amount over
/// the current value is refused explicitly rather than wrapped.
pub open spec fn withdraw_fee_outcome(
    owner: Seq<char>,
    pending_fee: u128,
    sender: Seq<char>,
    amount: u128,
) -> Result<u128, ContractError> {
    if owner != sender {
        Err(ContractError::Unauthorized)
    } else if amount > pending_fee {
        Err(ContractError::FeeUnderflow)
    } else {
        Ok((pending_fee - amount) as u128)
    }
}

/// The platform fee charged on a buy: a bips share of the *gross* input
/// amount, rounded down.
pub open spec fn spec_platform_fee(platform_fee_bips: u128, juno_amount: u128) -> int {
    platform_fee_bips * juno_amount / (MAX_BIPS as int)
}

/// The worst-case acceptable swap output: the post-gas amount times the
/// declared rate, reduced by the slippage tolerance, rounded down.
pub open spec fn spec_minimum_output(
    net_amount: int,
    token_amount_per_native: u128,
    slippage_bips: u128,
) -> int {
    net_amount * token_amount_per_native * (MAX_BIPS - slippage_bips) / (MAX_BIPS as int)
}

/// What a successful buy computes.
pub ghost struct BuyComputation {
    /// The fee accrued on this buy.
    pub platform_fee: int,
    /// The fee accumulator after accrual.
    pub new_pending_fee: int,
    /// The minimum output the swap venue must honor.
    pub minimum_output: int,
    /// The amount forwarded to the swap venue, after gas and fee.
    pub spendable_amount: int,
}

/// The full outcome of a buy: each guard in the order the caller sees it,
/// then the arithmetic, every step checked against the unsigned range.
pub open spec fn buy_token_outcome(
    pending_fee: u128,
    role_entry: Option<bool>,
    now: u64,
    juno_amount: u128,
    token_amount_per_native: u128,
    slippage_bips: u128,
    platform_fee_bips: u128,
    gas_estimate: u128,
    deadline: u64,
) -> Result<BuyComputation, ContractError> {
    if role_entry is None {
        Err(ContractError::Unauthorized)
    } else if role_entry == Some(false) {
        Err(ContractError::UnauthorizedRole)
    } else if now > deadline {
        Err(ContractError::Expired)
    } else if slippage_bips > MAX_BIPS {
        Err(ContractError::SlippageOutOfRange)
    } else if gas_estimate > juno_amount {
        Err(ContractError::InsufficientInputForGas)
    } else {
        let net_amount: int = juno_amount - gas_estimate;
        if platform_fee_bips * juno_amount > u128::MAX {
            Err(ContractError::ArithmeticOverflow)
        } else {
            let platform_fee: int = spec_platform_fee(platform_fee_bips, juno_amount);
            if pending_fee + platform_fee > u128::MAX {
                Err(ContractError::ArithmeticOverflow)
            } else if net_amount * token_amount_per_native > u128::MAX {
                Err(ContractError::ArithmeticOverflow)
            } else if net_amount * token_amount_per_native * (MAX_BIPS - slippage_bips)
                > u128::MAX {
                Err(ContractError::ArithmeticOverflow)
            } else if net_amount - platform_fee <= 0 {
                Err(ContractError::InsufficientAmountToSwap)
            } else {
                Ok(
                    BuyComputation {
                        platform_fee,
                        new_pending_fee: pending_fee + platform_fee,
                        minimum_output: spec_minimum_output(
                            net_amount,
                            token_amount_per_native,
                            slippage_bips,
                        ),
                        spendable_amount: net_amount - platform_fee,
                    },
                )
            }
        }
    }
}

// ---------------------------------------------------------------------------
// Operations
// ---------------------------------------------------------------------------

/// Deployment: the deployer becomes the owner and the fee accumulator starts
/// at zero. The payload is not read.
pub fn instantiate(sender: Addr, _msg: InstantiateMsg) -> (state: TreasuryConfig)
    ensures
        state.owner@ == sender@,
        state.pending_platform_fee == 0,
{
    TreasuryConfig { owner: sender, pending_platform_fee: 0 }
}

/// Owner only: replace the owner. Emits one informational attribute naming
/// the new owner.
pub fn try_set_admin(state: &mut TreasuryConfig, sender: &Addr, new_admin: Addr) -> (result:
    Result<Response, ContractError>)
    ensures
        match set_admin_outcome(old(state).owner@, sender@, new_admin@) {
            Ok(new_owner) => result matches Ok(response) && ({
                &&& final(state).owner@ == new_owner
                &&& final(state).pending_platform_fee == old(state).pending_platform_fee
                &&& response.messages@.len() == 0
                &&& response.attributes@.len() == 1
                &&& response.attributes@[0].key@ == "new_admin"@
                &&& response.attributes@[0].value@ == new_admin@
            }),
            Err(refusal) => result == Err::<Response, ContractError>(refusal) && *final(state)
                == *old(state),
        },
{
    if !is_owner(state, sender) {
        return Err(ContractError::Unauthorized);
    }
    let mut response = Response::new();
    response.attributes.push(
        Attribute { key: "new_admin".to_owned(), value: new_admin.as_str().to_owned() },
    );
    state.owner = new_admin;
    Ok(response)
}

/// Owner only: create or overwrite the bot-role entry for `new_bot`.
pub fn try_set_bot_role(
    state: &TreasuryConfig,
    table: &mut BotRoleTable,
    sender: &Addr,
    new_bot: Addr,
    enabled: bool,
) -> (result: Result<Response, ContractError>)
    ensures
        match set_bot_role_outcome(state.owner@, sender@) {
            Ok(_) => result matches Ok(response) && ({
                &&& forall|key: Seq<char>| #[trigger] final(table).spec_get(key) == (if key
                    == new_bot@ {
                    Some(enabled)
                } else {
                    old(table).spec_get(key)
                })
                &&& response.messages@.len() == 0
                &&& response.attributes@.len() == 1
                &&& response.attributes@[0].key@ == "bot added"@
                &&& response.attributes@[0].value@ == "Yes"@
            }),
            Err(refusal) => result == Err::<Response, ContractError>(refusal) && *final(table)
                == *old(table),
        },
{
    if !is_owner(state, sender) {
        return Err(ContractError::Unauthorized);
    }
    table.set(new_bot, enabled);
    let mut response = Response::new();
    response.attributes.push(Attribute { key: "bot added".to_owned(), value: "Yes".to_owned() });
    Ok(response)
}

/// Owner only: pay `amount` of the accrued platform fee out to `to`. The
/// decrease is checked against the current value; an over-large amount is
/// refused whole, never wrapped. Emits one native-transfer message.
pub fn try_withdraw_fee(state: &mut TreasuryConfig, sender: &Addr, to: Addr, amount: u128) -> (result:
    Result<Response, ContractError>)
    ensures
        match withdraw_fee_outcome(old(state).owner@, old(state).pending_platform_fee, sender@, amount) {
            Ok(new_pending_fee) => result matches Ok(response) && ({
                &&& final(state).owner@ == old(state).owner@
                &&& final(state).pending_platform_fee == new_pending_fee
                &&& response.attributes@.len() == 0
                &&& response.messages@.len() == 1
                &&& response.messages@[0] matches OutboundMsg::Transfer {
                    denom,
                    amount: paid,
                    recipient,
                } && denom@ == NATIVE_DENOM@ && paid == amount && recipient@ == to@
            }),
            Err(refusal) => result == Err::<Response, ContractError>(refusal) && *final(state)
                == *old(state),
        },
{
    if !is_owner(state, sender) {
        return Err(ContractError::Unauthorized);
    }
    let new_pending_fee = match state.pending_platform_fee.checked_sub(amount) {
        Some(rest) => rest,
        None => {
            return Err(ContractError::FeeUnderflow);
        },
    };
    state.pending_platform_fee = new_pending_fee;
    let mut response = Response::new();
    response.messages.push(
        OutboundMsg::Transfer { denom: NATIVE_DENOM.to_owned(), amount, recipient: to },
    );
    Ok(response)
}

/// Active bots only: swap `juno_amount` of the native token within the
/// declared guardrails. The caller sees the first violated guard:
/// authorization, then deadline (inclusive boundary), then slippage sanity,
/// then gas-budget sufficiency. The fee is charged on the gross amount; the
/// post-gas remainder, less the fee, must stay strictly positive and is
/// forwarded to the swap venue together with the minimum acceptable output.
/// Every addition and multiplication is checked, never wrapped.
pub fn buy_token(
    state: &mut TreasuryConfig,
    table: &BotRoleTable,
    sender: &Addr,
    now: u64,
    juno_amount: u128,
    token_amount_per_native: u128,
    slippage_bips: u128,
    recipient: Addr,
    pool_address: Addr,
    platform_fee_bips: u128,
    gas_estimate: u128,
    deadline: u64,
) -> (result: Result<Response, ContractError>)
    ensures
        match buy_token_outcome(
            old(state).pending_platform_fee,
            table.spec_get(sender@),
            now,
            juno_amount,
            token_amount_per_native,
            slippage_bips,
            platform_fee_bips,
            gas_estimate,
            deadline,
        ) {
            Ok(computation) => result matches Ok(response) && ({
                &&& final(state).owner@ == old(state).owner@
                &&& final(state).pending_platform_fee == computation.new_pending_fee
                &&& response.attributes@.len() == 0
                &&& response.messages@.len() == 1
                &&& response.messages@[0] matches OutboundMsg::Swap {
                    venue,
                    input_denom,
                    input_amount,
                    minimum_output,
                    recipient: swap_recipient,
                } && venue@ == pool_address@ && input_denom@ == NATIVE_DENOM@ && input_amount
                    == computation.spendable_amount && minimum_output == computation.minimum_output
                    && swap_recipient@ == recipient@
            }),
            Err(refusal) => result == Err::<Response, ContractError>(refusal) && *final(state)
                == *old(state),
        },
{
    let enabled = match table.get(sender) {
        Some(enabled) => enabled,
        None => {
            return Err(ContractError::Unauthorized);
        },
    };
    if !enabled {
        return Err(ContractError::UnauthorizedRole);
    }
    if now > deadline {
        return Err(ContractError::Expired);
    }
    if slippage_bips > MAX_BIPS {
        return Err(ContractError::SlippageOutOfRange);
    }
    if gas_estimate > juno_amount {
        return Err(ContractError::InsufficientInputForGas);
    }
    let net_amount = juno_amount - gas_estimate;

    let platform_fee = match platform_fee_bips.checked_mul(juno_amount) {
        Some(gross_fee) => gross_fee / MAX_BIPS,
        None => {
            return Err(ContractError::ArithmeticOverflow);
        },
    };
    let new_pending_fee = match state.pending_platform_fee.checked_add(platform_fee) {
        Some(total) => total,
        None => {
            return Err(ContractError::ArithmeticOverflow);
        },
    };
    let expected_output = match net_amount.checked_mul(token_amount_per_native) {
        Some(product) => product,
        None => {
            return Err(ContractError::ArithmeticOverflow);
        },
    };
    let minimum_output = match expected_output.checked_mul(MAX_BIPS - slippage_bips) {
        Some(product) => product / MAX_BIPS,
        None => {
            return Err(ContractError::ArithmeticOverflow);
        },
    };
    let spendable_amount = match net_amount.checked_sub(platform_fee) {
        Some(rest) => rest,
        None => {
            return Err(ContractError::InsufficientAmountToSwap);
        },
    };
    if spendable_amount == 0 {
        return Err(ContractError::InsufficientAmountToSwap);
    }

    state.pending_platform_fee = new_pending_fee;
    let mut response = Response::new();
    response.messages.push(
        OutboundMsg::Swap {
            venue: pool_address,
            input_denom: NATIVE_DENOM.to_owned(),
            input_amount: spendable_amount,
            minimum_output,
            recipient,
        },
    );
    Ok(response)
}

/// Dispatch one inbound call: validate, compute, mutate the transient state
/// copy, and return what to emit — or refuse with the first violated guard
/// and leave both state entities untouched.
pub fn execute(
    state: &mut TreasuryConfig,
    table: &mut BotRoleTable,
    sender: Addr,
    now: u64,
    msg: ExecuteMsg,
) -> (result: Result<Response, ContractError>)
    ensures
        match msg {
            ExecuteMsg::SetAdmin { new_admin } => *final(table) == *old(table) && match set_admin_outcome(
                old(state).owner@,
                sender@,
                new_admin@,
            ) {
                Ok(new_owner) => result matches Ok(response) && ({
                    &&& final(state).owner@ == new_owner
                    &&& final(state).pending_platform_fee == old(state).pending_platform_fee
                    &&& response.messages@.len() == 0
                    &&& response.attributes@.len() == 1
                    &&& response.attributes@[0].key@ == "new_admin"@
                    &&& response.attributes@[0].value@ == new_admin@
                }),
                Err(refusal) => result == Err::<Response, ContractError>(refusal) && *final(state)
                    == *old(state),
            },
            ExecuteMsg::SetBotRole { new_bot, enabled } => *final(state) == *old(state)
                && match set_bot_role_outcome(old(state).owner@, sender@) {
                Ok(_) => result matches Ok(response) && ({
                    &&& forall|key: Seq<char>| #[trigger] final(table).spec_get(key) == (if key
                        == new_bot@ {
                        Some(enabled)
                    } else {
                        old(table).spec_get(key)
                    })
                    &&& response.messages@.len() == 0
                    &&& response.attributes@.len() == 1
                    &&& response.attributes@[0].key@ == "bot added"@
                    &&& response.attributes@[0].value@ == "Yes"@
                }),
                Err(refusal) => result == Err::<Response, ContractError>(refusal) && *final(table)
                    == *old(table),
            },
            ExecuteMsg::WithdrawFee { to, amount } => *final(table) == *old(table)
                && match withdraw_fee_outcome(
                old(state).owner@,
                old(state).pending_platform_fee,
                sender@,
                amount,
            ) {
                Ok(new_pending_fee) => result matches Ok(response) && ({
                    &&& final(state).owner@ == old(state).owner@
                    &&& final(state).pending_platform_fee == new_pending_fee
                    &&& response.attributes@.len() == 0
                    &&& response.messages@.len() == 1
                    &&& response.messages@[0] matches OutboundMsg::Transfer {
                        denom,
                        amount: paid,
                        recipient,
                    } && denom@ == NATIVE_DENOM@ && paid == amount && recipient@ == to@
                }),
                Err(refusal) => result == Err::<Response, ContractError>(refusal) && *final(state)
                    == *old(state),
            },
            ExecuteMsg::BuyToken {
                juno_amount,
                token_amount_per_native,
                slippage_bips,
                recipient,
                pool_address,
                platform_fee_bips,
                gas_estimate,
                deadline,
            } => *final(table) == *old(table) && match buy_token_outcome(
                old(state).pending_platform_fee,
                old(table).spec_get(sender@),
                now,
                juno_amount,
                token_amount_per_native,
                slippage_bips,
                platform_fee_bips,
                gas_estimate,
                deadline,
            ) {
                Ok(computation) => result matches Ok(response) && ({
                    &&& final(state).owner@ == old(state).owner@
                    &&& final(state).pending_platform_fee == computation.new_pending_fee
                    &&& response.attributes@.len() == 0
                    &&& response.messages@.len() == 1
                    &&& response.messages@[0] matches OutboundMsg::Swap {
                        venue,
                        input_denom,
                        input_amount,
                        minimum_output,
                        recipient: swap_recipient,
                    } && venue@ == pool_address@ && input_denom@ == NATIVE_DENOM@ && input_amount
                        == computation.spendable_amount && minimum_output
                        == computation.minimum_output && swap_recipient@ == recipient@
                }),
                Err(refusal) => result == Err::<Response, ContractError>(refusal) && *final(state)
                    == *old(state),
            },
        },
{
    match msg {
        ExecuteMsg::SetAdmin { new_admin } => try_set_admin(state, &sender, new_admin),
        ExecuteMsg::SetBotRole { new_bot, enabled } => try_set_bot_role(
            state,
            table,
            &sender,
            new_bot,
            enabled,
        ),
        ExecuteMsg::WithdrawFee { to, amount } => try_withdraw_fee(state, &sender, to, amount),
        ExecuteMsg::BuyToken {
            juno_amount,
            token_amount_per_native,
            slippage_bips,
            recipient,
            pool_address,
            platform_fee_bips,
            gas_estimate,
            deadline,
        } => buy_token(
            state,
            table,
            &sender,
            now,
            juno_amount,
            token_amount_per_native,
            slippage_bips,
            recipient,
            pool_address,
            platform_fee_bips,
            gas_estimate,
            deadline,
        ),
    }
}

/// The read-only query surface: one snapshot of owner, pending fee and
/// chain time. Reads nothing else and mutates nothing.
pub fn query(state: &TreasuryConfig, now: u64, msg: QueryMsg) -> (answer: AdminResponse)
    ensures
        answer.admin@ == state.owner@,
        answer.pending_platform_fee == state.pending_platform_fee,
        answer.blocktime == now,
{
    match msg {
        QueryMsg::GetInfos {  } => query_infos(state, now),
    }
}

/// Build the snapshot the query surface returns.
pub fn query_infos(state: &TreasuryConfig, blocktime: u64) -> (answer: AdminResponse)
    ensures
        answer.admin@ == state.owner@,
        answer.pending_platform_fee == state.pending_platform_fee,
        answer.blocktime == blocktime,
{
    AdminResponse {
        admin: state.owner.clone(),
        pending_platform_fee: state.pending_platform_fee,
        blocktime,
    }
}

} // verus!
