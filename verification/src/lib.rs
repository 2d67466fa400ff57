//! The inter-blockchain callbacks of a counter contract, as functions on plain
//! values: the handshake checks, the single channel slot, the dispatch of
//! inbound packets and the two observers of outbound deliveries.
//!
//! The host that invokes the callbacks owns storage and transport. Here the
//! stored state comes in as an argument and the state to write goes out in the
//! result, beside the response for the host.

pub mod channel;
pub mod contract;
pub mod error;
pub mod ibc;
pub mod ibc_helpers;
pub mod msg;
pub mod response;
pub mod state;
pub mod theorems;
