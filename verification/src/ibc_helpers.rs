//! What the callbacks share: the handshake check and the acknowledgement.

use crate::channel::{version_view, Channel, ChannelOrder};
use crate::error::ContractError;
use crate::ibc::IBC_VERSION;
use cosmwasm_std::StdError;
use vstd::prelude::*;

verus! {

/// The one ordering of a channel that this contract accepts.
pub open spec fn supported_order() -> ChannelOrder {
    ChannelOrder::Unordered
}

/// What the handshake check answers for a channel of ordering `order` whose
/// counterparty declared `counterparty_version`, if it declared one. The
/// ordering is looked at first.
pub open spec fn validation(order: ChannelOrder, counterparty_version: Option<Seq<char>>) -> Result<
    (),
    ContractError,
> {
    if order != supported_order() {
        Err(ContractError::OrderMismatch {  })
    } else if counterparty_version is Some && counterparty_version->Some_0 != IBC_VERSION@ {
        Err(ContractError::VersionMismatch {  })
    } else {
        Ok(())
    }
}

/// Whether two string slices hold the same characters. They are compared as
/// owned strings, whose equality vstd specifies.
fn same_text(a: &str, b: &str) -> (r: bool)
    ensures
        r == (a@ == b@),
{
    a.to_owned() == b.to_owned()
}

/// Checks that `channel` has the supported ordering and that the counterparty,
/// where it declared a version, declared the supported one.
pub fn validate_order_and_version(channel: &Channel, counterparty_version: Option<&str>) -> (r:
    Result<(), ContractError>)
    ensures
        r == validation(channel@.order, version_view(counterparty_version)),
{
    match channel.order {
        ChannelOrder::Unordered => {},
        ChannelOrder::Ordered => {
            return Err(ContractError::OrderMismatch {  });
        },
    }
    if let Some(version) = counterparty_version {
        if !same_text(version, IBC_VERSION) {
            return Err(ContractError::VersionMismatch {  });
        }
    }
    Ok(())
}

/// The JSON text, in UTF-8, of the string `data`: the characters between
/// double quotes, with the escapes that JSON asks for.
pub uninterp spec fn json_text(data: Seq<char>) -> Seq<u8>;

/// `cosmwasm_std::to_json_vec` on a string slice. It hands the slice to
/// `serde_json_wasm::to_vec`, whose `serialize_str` writes the quoted text
/// into a fresh buffer and ends in `Ok`: for a string there is no failure, and
/// the bytes depend on the characters alone.
#[verifier::external_body]
fn to_json_vec(data: &str) -> (r: Result<Vec<u8>, StdError>)
    ensures
        r is Ok,
        r->Ok_0@ == json_text(data@),
{
    cosmwasm_std::to_json_vec(data)
}

/// What goes back to the sending chain for a packet: that it was processed,
/// with the bytes of a result, or that it was not, with a reason.
#[derive(Clone, Debug, PartialEq, Eq)]
pub enum StdAck {
    /// The packet was processed; the bytes are the result.
    Result(Vec<u8>),
    /// The packet was not processed; the text says why.
    Error(String),
}

/// A [`StdAck`] with its bytes and its text as sequences.
pub enum StdAckView {
    Result(Seq<u8>),
    Error(Seq<char>),
}

impl View for StdAck {
    type V = StdAckView;

    open spec fn view(&self) -> StdAckView {
        match *self {
            StdAck::Result(data) => StdAckView::Result(data@),
            StdAck::Error(reason) => StdAckView::Error(reason@),
        }
    }
}

impl StdAck {
    /// The acknowledgement of success whose result is `data` as JSON text.
    pub fn success(data: &str) -> (r: StdAck)
        ensures
            r@ == StdAckView::Result(json_text(data@)),
    {
        StdAck::Result(to_json_vec(data).unwrap())
    }
}

} // verus!
