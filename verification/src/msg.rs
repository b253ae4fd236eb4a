//! The typed operation payloads an inbound call carries, and the answer of
//! the read-only query surface. Amounts are in the treasury's native unit;
//! times are chain time in seconds.

use vstd::prelude::*;

use crate::state::Addr;

verus! {

/// The payload of a deployment call. The engine takes the deployer as the
/// initial owner and reads nothing from this message; the fields are kept
/// for the shape of the inbound interface.
pub struct InstantiateMsg {
    pub arbiter: String,
    pub recipient: String,
    pub end_height: Option<u64>,
    pub end_time: Option<u64>,
}

/// One state-mutating operation.
pub enum ExecuteMsg {
    /// Owner only: pay out `amount` of the accrued platform fee to `to`.
    WithdrawFee { to: Addr, amount: u128 },
    /// Owner only: hand the treasury to `new_admin`.
    SetAdmin { new_admin: Addr },
    /// Owner only: create or overwrite the bot-role entry for `new_bot`.
    SetBotRole { new_bot: Addr, enabled: bool },
    /// Active bots only: swap `juno_amount` of the native token, within the
    /// declared guardrails.
    BuyToken {
        /// Gross input amount.
        juno_amount: u128,
        /// Expected output per unit of native input, as declared by the bot.
        token_amount_per_native: u128,
        /// Maximum tolerated slippage, in basis points (0 - 10000).
        slippage_bips: u128,
        /// Who receives the swap output.
        recipient: Addr,
        /// The swap venue that executes the swap.
        pool_address: Addr,
        /// Platform fee rate, in basis points, charged on the gross amount.
        platform_fee_bips: u128,
        /// Caller-declared gas budget, reserved out of the gross amount.
        gas_estimate: u128,
        /// Absolute deadline in chain time; the boundary is inclusive.
        deadline: u64,
    },
}

/// The read-only query surface.
pub enum QueryMsg {
    /// The owner, the pending fee and the current chain time, as one
    /// snapshot.
    GetInfos {},
}

/// The snapshot a query returns.
pub struct AdminResponse {
    pub admin: Addr,
    pub pending_platform_fee: u128,
    pub blocktime: u64,
}

} // verus!
