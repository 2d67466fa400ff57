use cosmwasm_std::StdError;
use ibc_counter::channel::{
    Channel, ChannelConnectMsg, ChannelOpenMsg, ChannelOrder, Endpoint,
};
use ibc_counter::error::ContractError;
use ibc_counter::ibc::{ibc_channel_connect, ibc_channel_open, IBC_VERSION};
use ibc_counter::ibc_helpers::validate_order_and_version;
use ibc_counter::response::{Attribute, BasicResponse, OpenResponse};
use ibc_counter::state::State;

fn endpoint(port: &str, channel: &str) -> Endpoint {
    Endpoint { port_id: port.to_string(), channel_id: channel.to_string() }
}

fn channel(order: ChannelOrder) -> Channel {
    Channel {
        endpoint: endpoint("wasm.counter", "channel-7"),
        counterparty_endpoint: endpoint("wasm.remote", "channel-3"),
        order,
    }
}

fn open_try(order: ChannelOrder, version: &str) -> ChannelOpenMsg {
    ChannelOpenMsg::OpenTry { channel: channel(order), counterparty_version: version.to_string() }
}

fn open_ack(order: ChannelOrder, version: &str) -> ChannelConnectMsg {
    ChannelConnectMsg::OpenAck { channel: channel(order), counterparty_version: version.to_string() }
}

fn attribute(key: &str, value: &str) -> Attribute {
    Attribute { key: key.to_string(), value: value.to_string() }
}

fn fresh() -> State {
    State { count: 0, endpoint: None }
}

#[test]
fn supported_version_is_counter_1() {
    assert_eq!(IBC_VERSION, "counter-1");
}

#[test]
fn validate_accepts_unordered_without_counterparty_version() {
    assert_eq!(validate_order_and_version(&channel(ChannelOrder::Unordered), None), Ok(()));
}

#[test]
fn validate_accepts_unordered_with_supported_version() {
    assert_eq!(
        validate_order_and_version(&channel(ChannelOrder::Unordered), Some("counter-1")),
        Ok(())
    );
}

#[test]
fn validate_refuses_ordered_channel() {
    let ordered = channel(ChannelOrder::Ordered);
    assert_eq!(validate_order_and_version(&ordered, None), Err(ContractError::OrderMismatch {}));
    assert_eq!(
        validate_order_and_version(&ordered, Some("counter-1")),
        Err(ContractError::OrderMismatch {})
    );
}

#[test]
fn validate_looks_at_the_order_before_the_version() {
    assert_eq!(
        validate_order_and_version(&channel(ChannelOrder::Ordered), Some("counter-2")),
        Err(ContractError::OrderMismatch {})
    );
}

#[test]
fn validate_refuses_other_versions() {
    let unordered = channel(ChannelOrder::Unordered);
    for version in ["counter-2", "counter-", "counter-10", "Counter-1", " counter-1", ""] {
        assert_eq!(
            validate_order_and_version(&unordered, Some(version)),
            Err(ContractError::VersionMismatch {})
        );
    }
}

#[test]
fn open_try_with_supported_version_returns_version() {
    assert_eq!(
        ibc_channel_open(&open_try(ChannelOrder::Unordered, "counter-1")),
        Ok(Some(OpenResponse { version: "counter-1".to_string() }))
    );
}

#[test]
fn open_init_returns_version() {
    let msg = ChannelOpenMsg::OpenInit { channel: channel(ChannelOrder::Unordered) };
    assert_eq!(
        ibc_channel_open(&msg),
        Ok(Some(OpenResponse { version: "counter-1".to_string() }))
    );
}

#[test]
fn open_may_be_repeated() {
    let msg = open_try(ChannelOrder::Unordered, "counter-1");
    assert_eq!(ibc_channel_open(&msg), ibc_channel_open(&msg));
}

#[test]
fn open_refuses_ordered_channel_whatever_the_version() {
    let init = ChannelOpenMsg::OpenInit { channel: channel(ChannelOrder::Ordered) };
    assert_eq!(ibc_channel_open(&init), Err(ContractError::OrderMismatch {}));
    for version in ["counter-1", "counter-2", ""] {
        assert_eq!(
            ibc_channel_open(&open_try(ChannelOrder::Ordered, version)),
            Err(ContractError::OrderMismatch {})
        );
    }
}

#[test]
fn open_refuses_other_version() {
    assert_eq!(
        ibc_channel_open(&open_try(ChannelOrder::Unordered, "counter-2")),
        Err(ContractError::VersionMismatch {})
    );
}

#[test]
fn open_msg_accessors() {
    let init = ChannelOpenMsg::OpenInit { channel: channel(ChannelOrder::Ordered) };
    assert_eq!(init.channel(), &channel(ChannelOrder::Ordered));
    assert_eq!(init.counterparty_version(), None);
    let tried = open_try(ChannelOrder::Unordered, "v");
    assert_eq!(tried.channel(), &channel(ChannelOrder::Unordered));
    assert_eq!(tried.counterparty_version(), Some("v"));
}

#[test]
fn connect_msg_accessors() {
    let ack = open_ack(ChannelOrder::Unordered, "v");
    assert_eq!(ack.channel(), &channel(ChannelOrder::Unordered));
    assert_eq!(ack.counterparty_version(), Some("v"));
    let confirm = ChannelConnectMsg::OpenConfirm { channel: channel(ChannelOrder::Ordered) };
    assert_eq!(confirm.channel(), &channel(ChannelOrder::Ordered));
    assert_eq!(confirm.counterparty_version(), None);
}

#[test]
fn connect_on_fresh_state_binds_endpoint_and_emits_attributes() {
    let msg = open_ack(ChannelOrder::Unordered, "counter-1");
    let (state, response) = ibc_channel_connect(Ok(fresh()), &msg).unwrap();
    assert_eq!(state, State { count: 0, endpoint: Some(endpoint("wasm.remote", "channel-3")) });
    assert_eq!(
        response,
        BasicResponse {
            attributes: vec![
                attribute("method", "ibc_channel_connect"),
                attribute("channel", "channel-7"),
                attribute("port", "wasm.counter"),
            ],
        }
    );
}

#[test]
fn connect_open_confirm_binds_endpoint() {
    let msg = ChannelConnectMsg::OpenConfirm { channel: channel(ChannelOrder::Unordered) };
    let (state, _) = ibc_channel_connect(Ok(fresh()), &msg).unwrap();
    assert_eq!(state.endpoint, Some(endpoint("wasm.remote", "channel-3")));
}

#[test]
fn connect_records_the_counterparty_and_reports_this_side() {
    let msg = ChannelConnectMsg::OpenConfirm {
        channel: Channel {
            endpoint: endpoint("local-port", "local-channel"),
            counterparty_endpoint: endpoint("remote-port", "remote-channel"),
            order: ChannelOrder::Unordered,
        },
    };
    let (state, response) = ibc_channel_connect(Ok(fresh()), &msg).unwrap();
    assert_eq!(state.endpoint, Some(endpoint("remote-port", "remote-channel")));
    assert_eq!(
        response.attributes,
        vec![
            attribute("method", "ibc_channel_connect"),
            attribute("channel", "local-channel"),
            attribute("port", "local-port"),
        ]
    );
}

#[test]
fn connect_keeps_the_counter() {
    let msg = open_ack(ChannelOrder::Unordered, "counter-1");
    let (state, _) = ibc_channel_connect(Ok(State { count: -12, endpoint: None }), &msg).unwrap();
    assert_eq!(state.count, -12);
}

#[test]
fn second_connect_fails_with_already_connected() {
    let msg = open_ack(ChannelOrder::Unordered, "counter-1");
    let (bound, _) = ibc_channel_connect(Ok(fresh()), &msg).unwrap();
    let kept = bound.clone();
    assert_eq!(ibc_channel_connect(Ok(bound), &msg), Err(ContractError::AlreadyConnected {}));
    assert_eq!(kept.endpoint, Some(endpoint("wasm.remote", "channel-3")));
}

#[test]
fn connect_of_another_channel_on_bound_state_fails() {
    let bound = State { count: 3, endpoint: Some(endpoint("wasm.remote", "channel-1")) };
    let msg = open_ack(ChannelOrder::Unordered, "counter-1");
    assert_eq!(ibc_channel_connect(Ok(bound), &msg), Err(ContractError::AlreadyConnected {}));
}

#[test]
fn connect_refuses_ordered_channel_whatever_the_version_and_the_state() {
    let bound = State { count: 3, endpoint: Some(endpoint("wasm.remote", "channel-1")) };
    for version in ["counter-1", "counter-2"] {
        let msg = open_ack(ChannelOrder::Ordered, version);
        assert_eq!(ibc_channel_connect(Ok(fresh()), &msg), Err(ContractError::OrderMismatch {}));
        assert_eq!(
            ibc_channel_connect(Ok(bound.clone()), &msg),
            Err(ContractError::OrderMismatch {})
        );
        assert_eq!(
            ibc_channel_connect(Err(StdError::generic_err("no state")), &msg),
            Err(ContractError::OrderMismatch {})
        );
    }
    let confirm = ChannelConnectMsg::OpenConfirm { channel: channel(ChannelOrder::Ordered) };
    assert_eq!(ibc_channel_connect(Ok(fresh()), &confirm), Err(ContractError::OrderMismatch {}));
}

#[test]
fn connect_refuses_other_version() {
    let msg = open_ack(ChannelOrder::Unordered, "counter-2");
    assert_eq!(ibc_channel_connect(Ok(fresh()), &msg), Err(ContractError::VersionMismatch {}));
    assert_eq!(
        ibc_channel_connect(Err(StdError::generic_err("no state")), &msg),
        Err(ContractError::VersionMismatch {})
    );
}

#[test]
fn connect_hands_on_the_error_of_the_read() {
    let msg = open_ack(ChannelOrder::Unordered, "counter-1");
    assert_eq!(
        ibc_channel_connect(Err(StdError::not_found("State")), &msg),
        Err(ContractError::Std(StdError::not_found("State")))
    );
}

#[test]
fn handshake_from_open_to_second_connect() {
    assert_eq!(
        ibc_channel_open(&open_try(ChannelOrder::Unordered, "counter-1")),
        Ok(Some(OpenResponse { version: "counter-1".to_string() }))
    );
    let msg = open_ack(ChannelOrder::Unordered, "counter-1");
    let (state, response) = ibc_channel_connect(Ok(fresh()), &msg).unwrap();
    assert!(state.endpoint.is_some());
    assert_eq!(response.attributes.len(), 3);
    assert_eq!(ibc_channel_connect(Ok(state), &msg), Err(ContractError::AlreadyConnected {}));
}
