//! The six callbacks that the host invokes over the life of a channel, and the
//! two handlers that an inbound packet is dispatched to.
//!
//! A callback that needs the stored state takes what reading it gave, so that
//! a failed read is refused in the place that the order of the checks gives
//! it. A callback that changes the state returns the state to write; nothing
//! is to be written when a callback fails.

use crate::channel::{
    ChannelCloseMsg, ChannelCloseMsgView, ChannelConnectMsg, ChannelConnectMsgView, ChannelOpenMsg,
    ChannelOpenMsgView, EndpointView,
};
use crate::contract::{execute, executed, own_call, own_caller, Env, EnvView};
use crate::error::ContractError;
use crate::ibc_helpers::{json_text, validate_order_and_version, validation, StdAck, StdAckView};
use crate::msg::{ExecuteMsg, PacketMsg};
use crate::response::{
    attribute, BasicResponse, BasicResponseView, OpenResponse, ReceiveResponse, ReceiveResponseView,
};
use crate::state::{stored_view, State, StateView};
use cosmwasm_std::{IbcPacketAckMsg, IbcPacketTimeoutMsg, StdError};
use vstd::prelude::*;

verus! {

/// The one version of the protocol that this contract speaks. It is compared
/// character by character with what the counterparty declares.
pub const IBC_VERSION: &'static str = "counter-1";

/// `cosmwasm_std::IbcPacketAckMsg`, the delivery report of a packet that was
/// acknowledged. Nothing of it is read.
#[verifier::external_type_specification]
#[verifier::external_body]
pub struct ExIbcPacketAckMsg(IbcPacketAckMsg);

/// `cosmwasm_std::IbcPacketTimeoutMsg`, the delivery report of a packet that
/// timed out. Nothing of it is read.
#[verifier::external_type_specification]
#[verifier::external_body]
pub struct ExIbcPacketTimeoutMsg(IbcPacketTimeoutMsg);

/// What opening answers: the version that this side asks for, once the
/// proposed channel has passed the handshake check.
pub open spec fn opened(msg: ChannelOpenMsgView) -> Result<Option<Seq<char>>, ContractError> {
    match validation(msg.channel().order, msg.counterparty_version()) {
        Err(e) => Err(e),
        Ok(_) => Ok(Some(IBC_VERSION@)),
    }
}

/// The attributes that report a completed handshake on the channel that this
/// side knows by `endpoint`.
pub open spec fn connect_response(endpoint: EndpointView) -> BasicResponseView {
    BasicResponseView {
        attributes: seq![
            attribute("method"@, "ibc_channel_connect"@),
            attribute("channel"@, endpoint.channel_id),
            attribute("port"@, endpoint.port_id),
        ],
    }
}

/// What connecting answers. The handshake check comes first, then the read of
/// the state, then the channel slot, which must be empty. On success the
/// state to write has the counterparty's endpoint in the slot, and the
/// attributes name the channel by this side's endpoint.
pub open spec fn connected(stored: Result<StateView, StdError>, msg: ChannelConnectMsgView) -> Result<
    (StateView, BasicResponseView),
    ContractError,
> {
    match validation(msg.channel().order, msg.counterparty_version()) {
        Err(e) => Err(e),
        Ok(_) => match stored {
            Err(e) => Err(ContractError::Std(e)),
            Ok(state) => if state.is_bound() {
                Err(ContractError::AlreadyConnected {  })
            } else {
                Ok(
                    (
                        state.bind(msg.channel().counterparty_endpoint),
                        connect_response(msg.channel().endpoint),
                    ),
                )
            },
        },
    }
}

/// What closing answers: a refusal to this side, and an empty response to a
/// counterparty that has closed already.
pub open spec fn closed(msg: ChannelCloseMsgView) -> Result<BasicResponseView, ContractError> {
    match msg {
        ChannelCloseMsgView::CloseInit { .. } => Err(ContractError::CantCloseChannel {  }),
        ChannelCloseMsgView::CloseConfirm { .. } => Ok(
            BasicResponseView { attributes: Seq::empty() },
        ),
    }
}

/// The response to a packet that was processed: one attribute, and the
/// acknowledgement of success with the placeholder `"0"` as its result.
pub open spec fn receive_response() -> ReceiveResponseView {
    ReceiveResponseView {
        acknowledgement: Some(StdAckView::Result(json_text("0"@))),
        attributes: seq![attribute("method"@, "ibc_packet_receive"@)],
    }
}

/// What receiving `packet` answers in the contract of `env`: the state to
/// write, if any, and the response. A request to raise the counter runs the
/// contract's own operation once, called in the contract's own name without
/// funds. A request to reset reads and writes nothing, whatever its count.
pub open spec fn received(
    stored: Result<StateView, StdError>,
    env: EnvView,
    packet: PacketMsg,
) -> Result<(Option<StateView>, ReceiveResponseView), ContractError> {
    match packet {
        PacketMsg::Increment {  } => match executed(
            stored,
            own_caller(env),
            ExecuteMsg::Increment {  },
        ) {
            Err(e) => Err(e),
            Ok(next) => Ok((Some(next), receive_response())),
        },
        PacketMsg::Reset { .. } => Ok((None, receive_response())),
    }
}

/// The response of an observer: the one attribute that names the `action`.
pub open spec fn observed(action: Seq<char>) -> BasicResponseView {
    BasicResponseView { attributes: seq![attribute("action"@, action)] }
}

/// Checks the proposed channel and answers with the version that this side
/// asks for, which the host negotiates if the counterparty proposed another.
pub fn ibc_channel_open(msg: &ChannelOpenMsg) -> (r: Result<Option<OpenResponse>, ContractError>)
    ensures
        match opened(msg@) {
            Ok(version) => r matches Ok(Some(response)) && Some(response.version@) == version,
            Err(e) => r matches Err(x) && x == e,
        },
{
    validate_order_and_version(msg.channel(), msg.counterparty_version())?;
    Ok(Some(OpenResponse { version: IBC_VERSION.to_owned() }))
}

/// Checks the channel and binds the contract to its counterparty: the first
/// connect on an empty slot records the counterparty's endpoint, and every
/// later one is refused.
pub fn ibc_channel_connect(stored: Result<State, StdError>, msg: &ChannelConnectMsg) -> (r: Result<
    (State, BasicResponse),
    ContractError,
>)
    ensures
        match connected(stored_view(stored), msg@) {
            Ok((next, response)) => r matches Ok((state, out)) && state@ == next && out@
                =~= response,
            Err(e) => r matches Err(x) && x == e,
        },
{
    validate_order_and_version(msg.channel(), msg.counterparty_version())?;
    let state = match stored {
        Ok(state) => state,
        Err(e) => {
            return Err(ContractError::Std(e));
        },
    };
    if state.endpoint.is_some() {
        return Err(ContractError::AlreadyConnected {  });
    }
    let channel = msg.channel();
    let endpoint = &channel.endpoint;
    let next = State { count: state.count, endpoint: Some(channel.counterparty_endpoint.clone()) };
    let response = BasicResponse::new().add_attribute("method", "ibc_channel_connect").add_attribute(
        "channel",
        endpoint.channel_id.as_str(),
    ).add_attribute("port", endpoint.port_id.as_str());
    assert(response@.attributes =~= connect_response(msg@.channel().endpoint).attributes);
    Ok((next, response))
}

/// Refuses a close that this side asks for and lets through one that the
/// counterparty has made already. It reads no state and returns none to write.
pub fn ibc_channel_close(msg: &ChannelCloseMsg) -> (r: Result<BasicResponse, ContractError>)
    ensures
        match closed(msg@) {
            Ok(response) => r matches Ok(out) && out@ =~= response,
            Err(e) => r matches Err(x) && x == e,
        },
{
    match msg {
        ChannelCloseMsg::CloseInit { .. } => Err(ContractError::CantCloseChannel {  }),
        ChannelCloseMsg::CloseConfirm { .. } => Ok(BasicResponse::new()),
    }
}

/// Dispatches a decoded packet to its handler. The first part of the result
/// is the state to write; `None` means that the store stays as it is.
pub fn ibc_packet_receive(stored: Result<State, StdError>, env: &Env, packet: PacketMsg) -> (r:
    Result<(Option<State>, ReceiveResponse), ContractError>)
    requires
        packet is Increment && stored is Ok ==> stored->Ok_0.count < i32::MAX,
    ensures
        match received(stored_view(stored), env@, packet) {
            Ok((next, response)) => r matches Ok((write, out)) && out@ =~= response && match next {
                Some(state) => write matches Some(w) && w@ == state,
                None => write is None,
            },
            Err(e) => r matches Err(x) && x == e,
        },
{
    match packet {
        PacketMsg::Increment {  } => {
            let (state, response) = increment(stored, env)?;
            Ok((Some(state), response))
        },
        PacketMsg::Reset { count } => {
            let response = reset(count)?;
            Ok((None, response))
        },
    }
}

/// Raises the counter by one through the contract's own operation, called in
/// the contract's own name without funds, and acknowledges success. The state
/// to write is the one that this call returns.
pub fn increment(stored: Result<State, StdError>, env: &Env) -> (r: Result<
    (State, ReceiveResponse),
    ContractError,
>)
    requires
        stored matches Ok(state) ==> state.count < i32::MAX,
    ensures
        match executed(stored_view(stored), own_caller(env@), ExecuteMsg::Increment {  }) {
            Ok(next) => r matches Ok((state, out)) && state@ == next && out@ =~= receive_response(),
            Err(e) => r matches Err(x) && x == e,
        },
{
    let info = own_call(env);
    let state = execute(stored, env, info, ExecuteMsg::Increment {  })?;
    let response = ReceiveResponse::new().add_attribute("method", "ibc_packet_receive").set_ack(
        StdAck::success("0"),
    );
    Ok((state, response))
}

/// Acknowledges success and leaves the counter alone: the count that the
/// packet asks for is not applied.
pub fn reset(_count: i32) -> (r: Result<ReceiveResponse, ContractError>)
    ensures
        r matches Ok(out) && out@ =~= receive_response(),
{
    let response = ReceiveResponse::new().add_attribute("method", "ibc_packet_receive").set_ack(
        StdAck::success("0"),
    );
    Ok(response)
}

/// Takes note that a packet of this contract was acknowledged, whatever the
/// acknowledgement says.
pub fn ibc_packet_ack(_msg: &IbcPacketAckMsg) -> (r: Result<BasicResponse, ContractError>)
    ensures
        r matches Ok(out) && out@ =~= observed("ibc_packet_ack"@),
{
    Ok(BasicResponse::new().add_attribute("action", "ibc_packet_ack"))
}

/// Takes note that a packet of this contract timed out.
pub fn ibc_packet_timeout(_msg: &IbcPacketTimeoutMsg) -> (r: Result<BasicResponse, StdError>)
    ensures
        r matches Ok(out) && out@ =~= observed("ibc_packet_timeout"@),
{
    Ok(BasicResponse::new().add_attribute("action", "ibc_packet_timeout"))
}

} // verus!
