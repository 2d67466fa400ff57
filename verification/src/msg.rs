//! The messages that the contract understands.

use vstd::prelude::*;

verus! {

/// What a counterparty can ask for in a packet.
#[derive(Clone, Copy, Debug, PartialEq, Eq)]
pub enum PacketMsg {
    /// Raise the counter by one.
    Increment {},
    /// Set the counter to `count`.
    Reset { count: i32 },
}

/// What the contract's own operation on the counter can be asked for.
#[derive(Clone, Copy, Debug, PartialEq, Eq)]
pub enum ExecuteMsg {
    /// Raise the counter by one.
    Increment {},
}

} // verus!
