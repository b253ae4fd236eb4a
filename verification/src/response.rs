//! What a successful operation hands back to the transport collaborator:
//! informational attributes and outbound messages. The engine only requests
//! these messages; their actual execution happens later, outside the engine,
//! and is not observed by it.

use vstd::prelude::*;

use crate::state::Addr;

verus! {

/// An informational key/value pair, for observability only; no other
/// component uses it for control flow.
#[derive(Debug)]
pub struct Attribute {
    pub key: String,
    pub value: String,
}

/// A message requested from the transport collaborator.
#[derive(Debug)]
pub enum OutboundMsg {
    /// Transfer `amount` of the native token `denom` to `recipient`.
    Transfer { denom: String, amount: u128, recipient: Addr },
    /// Instruct the swap venue at `venue` to swap `input_amount` of
    /// `input_denom`, honoring at least `minimum_output`, for `recipient`.
    Swap {
        venue: Addr,
        input_denom: String,
        input_amount: u128,
        minimum_output: u128,
        recipient: Addr,
    },
}

/// The outcome of one successful operation: zero or more attributes and
/// outbound messages. Nothing is emitted on any failure path.
#[derive(Debug)]
pub struct Response {
    pub attributes: Vec<Attribute>,
    pub messages: Vec<OutboundMsg>,
}

impl Response {
    pub fn new() -> (response: Response)
        ensures
            response.attributes@.len() == 0,
            response.messages@.len() == 0,
    {
        Response { attributes: Vec::new(), messages: Vec::new() }
    }
}

} // verus!
