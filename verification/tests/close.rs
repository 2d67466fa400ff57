use ibc_counter::channel::{Channel, ChannelCloseMsg, ChannelOrder, Endpoint};
use ibc_counter::error::ContractError;
use ibc_counter::ibc::ibc_channel_close;
use ibc_counter::response::BasicResponse;

fn channel(order: ChannelOrder) -> Channel {
    Channel {
        endpoint: Endpoint { port_id: "wasm.counter".to_string(), channel_id: "channel-7".to_string() },
        counterparty_endpoint: Endpoint {
            port_id: "wasm.remote".to_string(),
            channel_id: "channel-3".to_string(),
        },
        order,
    }
}

#[test]
fn close_init_fails_with_cant_close_channel() {
    for order in [ChannelOrder::Unordered, ChannelOrder::Ordered] {
        let msg = ChannelCloseMsg::CloseInit { channel: channel(order) };
        assert_eq!(ibc_channel_close(&msg), Err(ContractError::CantCloseChannel {}));
    }
}

#[test]
fn close_confirm_succeeds_with_empty_response() {
    for order in [ChannelOrder::Unordered, ChannelOrder::Ordered] {
        let msg = ChannelCloseMsg::CloseConfirm { channel: channel(order) };
        assert_eq!(ibc_channel_close(&msg), Ok(BasicResponse { attributes: vec![] }));
    }
}
