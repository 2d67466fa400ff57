//! What holds of the callbacks on every input and over the whole life of the
//! contract, proved from their definitions.

use crate::channel::{ChannelCloseMsgView, ChannelConnectMsgView, ChannelOpenMsgView, ChannelView};
use crate::contract::{executed, own_caller, EnvView, MessageInfoView};
use crate::error::ContractError;
use crate::ibc::{closed, connected, opened, receive_response, received, IBC_VERSION};
use crate::ibc_helpers::{supported_order, validation};
use crate::msg::{ExecuteMsg, PacketMsg};
use crate::response::{BasicResponseView, ReceiveResponseView};
use crate::state::StateView;
use cosmwasm_std::StdError;
use vstd::prelude::*;

verus! {

/// One invocation of the contract by the host.
pub enum Callback {
    Open(ChannelOpenMsgView),
    Connect(ChannelConnectMsgView),
    Close(ChannelCloseMsgView),
    Receive(EnvView, PacketMsg),
    Ack,
    Timeout,
}

/// What a store that held `state` holds once `callback` has run and the host
/// has written what it returned: the state to write where there is one, and
/// `state` where the callback failed or returned none.
pub open spec fn store_after(state: StateView, callback: Callback) -> StateView {
    match callback {
        Callback::Connect(msg) => match connected(Ok(state), msg) {
            Ok((next, _)) => next,
            Err(_) => state,
        },
        Callback::Receive(env, packet) => match received(Ok(state), env, packet) {
            Ok((Some(next), _)) => next,
            _ => state,
        },
        _ => state,
    }
}

/// What a store that held `state` holds once the callbacks of `history` have
/// run, the first of them first.
pub open spec fn store_after_all(state: StateView, history: Seq<Callback>) -> StateView
    decreases history.len(),
{
    if history.len() == 0 {
        state
    } else {
        store_after(store_after_all(state, history.drop_last()), history.last())
    }
}

/// The number of packets in `history` that ask to raise the counter.
pub open spec fn increments_in(history: Seq<Callback>) -> nat
    decreases history.len(),
{
    if history.len() == 0 {
        0
    } else {
        let earlier = increments_in(history.drop_last());
        if history.last() matches Callback::Receive(_, PacketMsg::Increment {  }) {
            earlier + 1
        } else {
            earlier
        }
    }
}

/// Opening a channel of another ordering than the supported one fails with
/// `OrderMismatch`, whatever version the counterparty declared.
pub proof fn open_refuses_other_order(msg: ChannelOpenMsgView)
    requires
        msg.channel().order != supported_order(),
    ensures
        opened(msg) == Err::<Option<Seq<char>>, ContractError>(ContractError::OrderMismatch {  }),
{
}

/// Connecting a channel of another ordering than the supported one fails with
/// `OrderMismatch`, whatever version the counterparty declared and whatever
/// the store holds.
pub proof fn connect_refuses_other_order(
    stored: Result<StateView, StdError>,
    msg: ChannelConnectMsgView,
)
    requires
        msg.channel().order != supported_order(),
    ensures
        connected(stored, msg) == Err::<(StateView, BasicResponseView), ContractError>(
            ContractError::OrderMismatch {  },
        ),
{
}

/// Opening a channel of the supported ordering whose counterparty declared
/// another version than the supported one fails with `VersionMismatch`.
pub proof fn open_refuses_other_version(msg: ChannelOpenMsgView)
    requires
        msg.channel().order == supported_order(),
        msg.counterparty_version() is Some,
        msg.counterparty_version()->Some_0 != IBC_VERSION@,
    ensures
        opened(msg) == Err::<Option<Seq<char>>, ContractError>(
            ContractError::VersionMismatch {  },
        ),
{
}

/// Connecting a channel of the supported ordering whose counterparty declared
/// another version than the supported one fails with `VersionMismatch`,
/// whatever the store holds.
pub proof fn connect_refuses_other_version(
    stored: Result<StateView, StdError>,
    msg: ChannelConnectMsgView,
)
    requires
        msg.channel().order == supported_order(),
        msg.counterparty_version() is Some,
        msg.counterparty_version()->Some_0 != IBC_VERSION@,
    ensures
        connected(stored, msg) == Err::<(StateView, BasicResponseView), ContractError>(
            ContractError::VersionMismatch {  },
        ),
{
}

/// Opening a channel that passes the handshake check answers with the
/// supported version, whichever version the counterparty declared or whether
/// it declared one.
pub proof fn open_answers_supported_version(msg: ChannelOpenMsgView)
    requires
        validation(msg.channel().order, msg.counterparty_version()) is Ok,
    ensures
        opened(msg) == Ok::<Option<Seq<char>>, ContractError>(Some(IBC_VERSION@)),
{
}

/// Of two connects that pass the handshake check, the second is refused with
/// `AlreadyConnected`, and the store holds after it what it held before it.
/// Between the two the slot is filled: with the counterparty's endpoint of
/// the first channel if the slot was empty, and with what it held otherwise.
pub proof fn connect_binds_once(
    state: StateView,
    first: ChannelConnectMsgView,
    second: ChannelConnectMsgView,
)
    requires
        validation(first.channel().order, first.counterparty_version()) is Ok,
        validation(second.channel().order, second.counterparty_version()) is Ok,
    ensures
        ({
            let held = store_after(state, Callback::Connect(first));
            &&& held.count == state.count
            &&& held.endpoint == if state.is_bound() {
                state.endpoint
            } else {
                Some(first.channel().counterparty_endpoint)
            }
            &&& connected(Ok(held), second) == Err::<
                (StateView, BasicResponseView),
                ContractError,
            >(ContractError::AlreadyConnected {  })
            &&& store_after(held, Callback::Connect(second)) == held
        }),
{
}

/// A connect that passes the handshake check succeeds on an empty slot and
/// fails with `AlreadyConnected` on a filled one, whichever endpoint the slot
/// holds.
pub proof fn connect_succeeds_on_empty_slot_only(state: StateView, msg: ChannelConnectMsgView)
    requires
        validation(msg.channel().order, msg.counterparty_version()) is Ok,
    ensures
        !state.is_bound() ==> connected(Ok(state), msg) is Ok,
        state.is_bound() ==> connected(Ok(state), msg) == Err::<
            (StateView, BasicResponseView),
            ContractError,
        >(ContractError::AlreadyConnected {  }),
{
}

/// A close that this side asks for always fails with `CantCloseChannel`, and
/// the store stays as it is.
pub proof fn close_init_is_refused(state: StateView, channel: ChannelView)
    ensures
        closed(ChannelCloseMsgView::CloseInit { channel }) == Err::<
            BasicResponseView,
            ContractError,
        >(ContractError::CantCloseChannel {  }),
        store_after(state, Callback::Close(ChannelCloseMsgView::CloseInit { channel })) == state,
{
}

/// A close that the counterparty has made already always succeeds, with a
/// response that holds nothing, and the store stays as it is.
pub proof fn close_confirm_succeeds(state: StateView, channel: ChannelView)
    ensures
        closed(ChannelCloseMsgView::CloseConfirm { channel }) == Ok::<
            BasicResponseView,
            ContractError,
        >(BasicResponseView { attributes: Seq::empty() }),
        store_after(state, Callback::Close(ChannelCloseMsgView::CloseConfirm { channel }))
            == state,
{
}

/// A packet that asks to raise the counter is acknowledged with success, and
/// the state to write is the one that a direct call of the contract's own
/// operation gives when the contract itself is the sender and no funds are
/// attached: the counter is higher by exactly one and the channel slot is as
/// it was.
pub proof fn increment_packet_raises_by_one(state: StateView, env: EnvView)
    ensures
        own_caller(env).sender == env.contract_address,
        own_caller(env).funds.len() == 0,
        executed(Ok(state), own_caller(env), ExecuteMsg::Increment {  }) == Ok::<
            StateView,
            ContractError,
        >(state.increment()),
        received(Ok(state), env, PacketMsg::Increment {  }) == Ok::<
            (Option<StateView>, ReceiveResponseView),
            ContractError,
        >((Some(state.increment()), receive_response())),
        state.increment().count == state.count + 1,
        state.increment().endpoint == state.endpoint,
        store_after(state, Callback::Receive(env, PacketMsg::Increment {  })) == state.increment(),
        receive_response().acknowledgement is Some,
        receive_response().acknowledgement->Some_0 is Result,
{
}

/// The contract's own operation raises the counter by exactly one for every
/// caller: what a packet does to the state is what any direct call does.
pub proof fn direct_increment_raises_by_one(state: StateView, info: MessageInfoView)
    ensures
        executed(Ok(state), info, ExecuteMsg::Increment {  }) == Ok::<StateView, ContractError>(
            state.increment(),
        ),
{
}

/// A packet that asks to reset the counter is acknowledged with success and
/// gives no state to write, whatever count it names and whatever the store
/// holds: the counter stays as it is.
pub proof fn reset_packet_writes_nothing(
    stored: Result<StateView, StdError>,
    state: StateView,
    env: EnvView,
    count: i32,
)
    ensures
        received(stored, env, PacketMsg::Reset { count }) == Ok::<
            (Option<StateView>, ReceiveResponseView),
            ContractError,
        >((None, receive_response())),
        store_after(state, Callback::Receive(env, PacketMsg::Reset { count })) == state,
        receive_response().acknowledgement is Some,
        receive_response().acknowledgement->Some_0 is Result,
{
}

/// Only a connect on an empty slot changes the slot, and it fills it with
/// the counterparty's endpoint of its channel: no callback empties a filled
/// slot or puts another endpoint in it.
pub proof fn slot_changes_only_by_binding(state: StateView, callback: Callback)
    ensures
        store_after(state, callback).endpoint == state.endpoint || (!state.is_bound()
            && callback is Connect && store_after(state, callback).endpoint == Some(
            callback->Connect_0.channel().counterparty_endpoint,
        )),
        state.is_bound() ==> store_after(state, callback).endpoint == state.endpoint,
{
}

/// A slot that is filled keeps its endpoint for the life of the contract,
/// whatever callbacks the host invokes.
pub proof fn bound_endpoint_is_kept(state: StateView, history: Seq<Callback>)
    requires
        state.is_bound(),
    ensures
        store_after_all(state, history).endpoint == state.endpoint,
    decreases history.len(),
{
    if history.len() > 0 {
        bound_endpoint_is_kept(state, history.drop_last());
        slot_changes_only_by_binding(
            store_after_all(state, history.drop_last()),
            history.last(),
        );
    }
}

/// The counter moves by the packets that ask to raise it and by nothing else:
/// after any callbacks it is higher by the number of those packets.
pub proof fn counter_counts_increment_packets(state: StateView, history: Seq<Callback>)
    ensures
        store_after_all(state, history).count == state.count + increments_in(history),
    decreases history.len(),
{
    if history.len() > 0 {
        counter_counts_increment_packets(state, history.drop_last());
    }
}

} // verus!
