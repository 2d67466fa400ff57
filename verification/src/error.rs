//! What a callback answers when it refuses.

use vstd::prelude::*;

verus! {

/// `cosmwasm_std::StdError`, the error of the host's storage and codecs.
/// Nothing is known of a value of it; the callbacks only hand it on.
#[verifier::external_type_specification]
#[verifier::external_body]
pub struct ExStdError(cosmwasm_std::StdError);

/// The ways in which a callback fails.
#[derive(Debug, PartialEq)]
pub enum ContractError {
    /// The stored state could not be read.
    Std(cosmwasm_std::StdError),
    /// The channel is not of the one ordering that is supported.
    OrderMismatch {},
    /// The counterparty speaks another version of the protocol.
    VersionMismatch {},
    /// The channel slot already holds an endpoint.
    AlreadyConnected {},
    /// This side asked to close the channel, which it never may.
    CantCloseChannel {},
}

} // verus!
