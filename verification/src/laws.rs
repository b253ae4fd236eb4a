//! The engine's general guarantees, stated and proved over the spec-level
//! outcome functions that the operation contracts are written against.

use vstd::prelude::*;

use vstd::arithmetic::div_mod::{lemma_div_is_ordered, lemma_div_pos_is_pos};
use vstd::arithmetic::mul::{lemma_mul_inequality, lemma_mul_is_commutative, lemma_mul_nonnegative};

use crate::contract::{
    buy_token_outcome, set_admin_outcome, set_bot_role_outcome, spec_minimum_output,
    spec_platform_fee, withdraw_fee_outcome, MAX_BIPS,
};
use crate::error::ContractError;

verus! {

/// Only the current owner can change the owner, set bot roles, or withdraw
/// fees: any other caller is refused with `Unauthorized` by every admin
/// operation. (That a refused call leaves the state untouched is part of
/// each operation's own contract.)
pub proof fn lemma_admin_ops_require_owner(
    owner: Seq<char>,
    sender: Seq<char>,
    new_admin: Seq<char>,
    pending_fee: u128,
    amount: u128,
)
    requires
        owner != sender,
    ensures
        set_admin_outcome(owner, sender, new_admin) == Err::<Seq<char>, ContractError>(
            ContractError::Unauthorized,
        ),
        set_bot_role_outcome(owner, sender) == Err::<(), ContractError>(
            ContractError::Unauthorized,
        ),
        withdraw_fee_outcome(owner, pending_fee, sender, amount) == Err::<u128, ContractError>(
            ContractError::Unauthorized,
        ),
{
}

/// A buy never decreases the pending platform fee, the accumulator stays
/// within the unsigned range, and the accrued fee is exactly the bips share
/// of the gross amount, rounded down.
pub proof fn lemma_buy_accrues_fee_monotonically(
    pending_fee: u128,
    role_entry: Option<bool>,
    now: u64,
    juno_amount: u128,
    token_amount_per_native: u128,
    slippage_bips: u128,
    platform_fee_bips: u128,
    gas_estimate: u128,
    deadline: u64,
)
    ensures
        match buy_token_outcome(
            pending_fee,
            role_entry,
            now,
            juno_amount,
            token_amount_per_native,
            slippage_bips,
            platform_fee_bips,
            gas_estimate,
            deadline,
        ) {
            Ok(computation) => {
                &&& computation.platform_fee == spec_platform_fee(platform_fee_bips, juno_amount)
                &&& 0 <= computation.platform_fee
                &&& pending_fee <= computation.new_pending_fee <= u128::MAX
            },
            Err(_) => true,
        },
{
    lemma_mul_nonnegative(platform_fee_bips as int, juno_amount as int);
    lemma_div_pos_is_pos(platform_fee_bips * juno_amount, MAX_BIPS as int);
}

/// A permitted withdrawal decreases the pending fee by exactly the amount
/// asked for, the amount never exceeds what was pending, and the
/// accumulator never goes below zero.
pub proof fn lemma_withdraw_fee_bounded(
    owner: Seq<char>,
    pending_fee: u128,
    sender: Seq<char>,
    amount: u128,
)
    ensures
        match withdraw_fee_outcome(owner, pending_fee, sender, amount) {
            Ok(new_pending_fee) => {
                &&& amount <= pending_fee
                &&& new_pending_fee == pending_fee - amount
                &&& 0 <= new_pending_fee <= pending_fee
            },
            Err(_) => true,
        },
{
}

/// A withdrawal of more than the pending fee is refused with `FeeUnderflow`,
/// even for the owner; the would-be negative balance is never computed.
pub proof fn lemma_overdraw_refused(
    owner: Seq<char>,
    pending_fee: u128,
    sender: Seq<char>,
    amount: u128,
)
    requires
        owner == sender,
        amount > pending_fee,
    ensures
        withdraw_fee_outcome(owner, pending_fee, sender, amount) == Err::<u128, ContractError>(
            ContractError::FeeUnderflow,
        ),
{
}

/// Raising the slippage tolerance never raises the minimum acceptable
/// output: a higher tolerance gives a lower or equal floor.
pub proof fn lemma_minimum_output_antitone(
    net_amount: int,
    token_amount_per_native: u128,
    lower_slippage_bips: u128,
    higher_slippage_bips: u128,
)
    requires
        0 <= net_amount,
        lower_slippage_bips <= higher_slippage_bips <= MAX_BIPS,
    ensures
        spec_minimum_output(net_amount, token_amount_per_native, higher_slippage_bips)
            <= spec_minimum_output(net_amount, token_amount_per_native, lower_slippage_bips),
{
    let rate: int = token_amount_per_native as int;
    let base: int = net_amount * rate;
    let keep_high: int = MAX_BIPS - lower_slippage_bips;
    let keep_low: int = MAX_BIPS - higher_slippage_bips;
    lemma_mul_nonnegative(net_amount, rate);
    lemma_mul_inequality(keep_low, keep_high, base);
    lemma_mul_is_commutative(keep_low, base);
    lemma_mul_is_commutative(keep_high, base);
    lemma_div_is_ordered(base * keep_low, base * keep_high, MAX_BIPS as int);
}

/// The outcome-level reading of the same law: two buys that differ only in
/// the slippage tolerance, both of which pass every guard, compute minimum
/// outputs ordered the other way around from their tolerances.
pub proof fn lemma_buy_minimum_output_antitone(
    pending_fee: u128,
    role_entry: Option<bool>,
    now: u64,
    juno_amount: u128,
    token_amount_per_native: u128,
    lower_slippage_bips: u128,
    higher_slippage_bips: u128,
    platform_fee_bips: u128,
    gas_estimate: u128,
    deadline: u64,
)
    requires
        lower_slippage_bips <= higher_slippage_bips,
    ensures
        match (
            buy_token_outcome(
                pending_fee,
                role_entry,
                now,
                juno_amount,
                token_amount_per_native,
                lower_slippage_bips,
                platform_fee_bips,
                gas_estimate,
                deadline,
            ),
            buy_token_outcome(
                pending_fee,
                role_entry,
                now,
                juno_amount,
                token_amount_per_native,
                higher_slippage_bips,
                platform_fee_bips,
                gas_estimate,
                deadline,
            ),
        ) {
            (Ok(lower_tolerance), Ok(higher_tolerance)) => higher_tolerance.minimum_output
                <= lower_tolerance.minimum_output,
            _ => true,
        },
{
    let lower_outcome = buy_token_outcome(
        pending_fee,
        role_entry,
        now,
        juno_amount,
        token_amount_per_native,
        lower_slippage_bips,
        platform_fee_bips,
        gas_estimate,
        deadline,
    );
    let higher_outcome = buy_token_outcome(
        pending_fee,
        role_entry,
        now,
        juno_amount,
        token_amount_per_native,
        higher_slippage_bips,
        platform_fee_bips,
        gas_estimate,
        deadline,
    );
    if lower_outcome is Ok && higher_outcome is Ok {
        lemma_minimum_output_antitone(
            juno_amount - gas_estimate,
            token_amount_per_native,
            lower_slippage_bips,
            higher_slippage_bips,
        );
    }
}

/// A slippage tolerance over 100% is refused with `SlippageOutOfRange` by
/// every buy that reaches the slippage guard, whatever the other economic
/// parameters. (An unauthorized or expired call is refused earlier, with
/// that guard's own error.)
pub proof fn lemma_slippage_out_of_range(
    pending_fee: u128,
    now: u64,
    juno_amount: u128,
    token_amount_per_native: u128,
    slippage_bips: u128,
    platform_fee_bips: u128,
    gas_estimate: u128,
    deadline: u64,
)
    requires
        now <= deadline,
        slippage_bips > MAX_BIPS,
    ensures
        buy_token_outcome(
            pending_fee,
            Some(true),
            now,
            juno_amount,
            token_amount_per_native,
            slippage_bips,
            platform_fee_bips,
            gas_estimate,
            deadline,
        ) matches Err(refusal) && refusal == ContractError::SlippageOutOfRange,
{
}

/// The deadline boundary is inclusive: an authorized buy one unit past the
/// deadline is refused with `Expired`, while one at or before the deadline
/// is never refused for expiry (later guards may still refuse it for their
/// own reasons).
pub proof fn lemma_deadline_boundary(
    pending_fee: u128,
    now: u64,
    juno_amount: u128,
    token_amount_per_native: u128,
    slippage_bips: u128,
    platform_fee_bips: u128,
    gas_estimate: u128,
    deadline: u64,
)
    ensures
        now > deadline ==> (buy_token_outcome(
            pending_fee,
            Some(true),
            now,
            juno_amount,
            token_amount_per_native,
            slippage_bips,
            platform_fee_bips,
            gas_estimate,
            deadline,
        ) matches Err(refusal) && refusal == ContractError::Expired),
        now <= deadline ==> !(buy_token_outcome(
            pending_fee,
            Some(true),
            now,
            juno_amount,
            token_amount_per_native,
            slippage_bips,
            platform_fee_bips,
            gas_estimate,
            deadline,
        ) matches Err(refusal) && refusal == ContractError::Expired),
{
}

} // verus!
