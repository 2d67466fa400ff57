use ibc_counter::channel::{
    Channel, ChannelCloseMsg, ChannelConnectMsg, ChannelOpenMsg, ChannelOrder, Endpoint,
};
use ibc_counter::contract::Env;
use ibc_counter::error::ContractError;
use ibc_counter::ibc::{
    ibc_channel_close, ibc_channel_connect, ibc_channel_open, ibc_packet_receive,
};
use ibc_counter::msg::PacketMsg;
use ibc_counter::state::State;

fn channel(id: &str) -> Channel {
    Channel {
        endpoint: Endpoint { port_id: "wasm.counter".to_string(), channel_id: id.to_string() },
        counterparty_endpoint: Endpoint {
            port_id: "wasm.remote".to_string(),
            channel_id: format!("remote-{id}"),
        },
        order: ChannelOrder::Unordered,
    }
}

fn env() -> Env {
    Env { contract_address: "cosmos2contract".to_string() }
}

/// The store as the host keeps it: it takes what a callback returns to write.
fn receive(store: &mut State, packet: PacketMsg) {
    let (write, _) = ibc_packet_receive(Ok(store.clone()), &env(), packet).unwrap();
    if let Some(state) = write {
        *store = state;
    }
}

#[test]
fn a_bound_contract_keeps_its_endpoint_and_counts_increments() {
    let mut store = State { count: 10, endpoint: None };

    let open = ChannelOpenMsg::OpenInit { channel: channel("channel-7") };
    assert!(ibc_channel_open(&open).is_ok());
    assert_eq!(store, State { count: 10, endpoint: None });

    let connect = ChannelConnectMsg::OpenAck {
        channel: channel("channel-7"),
        counterparty_version: "counter-1".to_string(),
    };
    let (bound, _) = ibc_channel_connect(Ok(store.clone()), &connect).unwrap();
    store = bound;
    let endpoint = Some(Endpoint {
        port_id: "wasm.remote".to_string(),
        channel_id: "remote-channel-7".to_string(),
    });
    assert_eq!(store, State { count: 10, endpoint: endpoint.clone() });

    receive(&mut store, PacketMsg::Increment {});
    receive(&mut store, PacketMsg::Reset { count: 0 });
    receive(&mut store, PacketMsg::Increment {});
    receive(&mut store, PacketMsg::Increment {});
    assert_eq!(store, State { count: 13, endpoint: endpoint.clone() });

    let other = ChannelConnectMsg::OpenConfirm { channel: channel("channel-8") };
    assert_eq!(
        ibc_channel_connect(Ok(store.clone()), &other),
        Err(ContractError::AlreadyConnected {})
    );

    let confirm = ChannelCloseMsg::CloseConfirm { channel: channel("channel-7") };
    assert!(ibc_channel_close(&confirm).is_ok());
    let init = ChannelCloseMsg::CloseInit { channel: channel("channel-7") };
    assert_eq!(ibc_channel_close(&init), Err(ContractError::CantCloseChannel {}));

    assert_eq!(
        ibc_channel_connect(Ok(store.clone()), &connect),
        Err(ContractError::AlreadyConnected {})
    );
    receive(&mut store, PacketMsg::Increment {});
    assert_eq!(store, State { count: 14, endpoint });
}
