//! An access-controlled treasury gateway.
//!
//! A single treasury account holds a native balance, delegates swap execution
//! to a pre-authorized set of automated agents ("bots"), and accrues a
//! platform fee on every swap it performs on a bot's behalf. The owner
//! configures bot permissions and withdraws accrued fees; bots trigger swaps
//! within owner-defined guardrails (slippage, deadline, gas budget).
//!
//! This crate is the authorization-gated execution engine alone: the state
//! transitions for admin transfer, bot role management, fee withdrawal and the
//! buy/swap operation, as pure functions over plain values. The surrounding
//! collaborators — the persistent key-value store, the message transport that
//! delivers calls and carries outbound messages, and the swap venue itself —
//! live outside the engine; a thin shell loads state, invokes the engine, and
//! persists and forwards what the engine hands back.

pub mod contract;
pub mod error;
pub mod laws;
pub mod msg;
pub mod response;
pub mod state;
