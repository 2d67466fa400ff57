//! The channel as the callbacks of the handshake read it, in plain values.

use vstd::prelude::*;

verus! {

/// Whether packets on a channel arrive in the order in which they were sent.
#[derive(Clone, Copy, Debug, PartialEq, Eq)]
pub enum ChannelOrder {
    Unordered,
    Ordered,
}

/// What identifies a channel on one side of it: the port, and the channel on
/// that port.
#[derive(Debug, PartialEq, Eq)]
pub struct Endpoint {
    pub port_id: String,
    pub channel_id: String,
}

/// An [`Endpoint`] with its strings as sequences of characters.
pub struct EndpointView {
    pub port_id: Seq<char>,
    pub channel_id: Seq<char>,
}

impl View for Endpoint {
    type V = EndpointView;

    open spec fn view(&self) -> EndpointView {
        EndpointView { port_id: self.port_id@, channel_id: self.channel_id@ }
    }
}

impl Clone for Endpoint {
    fn clone(&self) -> (r: Endpoint)
        ensures
            r@ == self@,
    {
        Endpoint { port_id: self.port_id.clone(), channel_id: self.channel_id.clone() }
    }
}

/// A channel as far as the contract looks at it: its two ends and its
/// ordering.
#[derive(Clone, Debug, PartialEq, Eq)]
pub struct Channel {
    /// The end of the channel on this contract's side.
    pub endpoint: Endpoint,
    /// The end of the channel on the counterparty's side.
    pub counterparty_endpoint: Endpoint,
    pub order: ChannelOrder,
}

/// A [`Channel`] with its endpoints by their views.
pub struct ChannelView {
    pub endpoint: EndpointView,
    pub counterparty_endpoint: EndpointView,
    pub order: ChannelOrder,
}

impl View for Channel {
    type V = ChannelView;

    open spec fn view(&self) -> ChannelView {
        ChannelView {
            endpoint: self.endpoint@,
            counterparty_endpoint: self.counterparty_endpoint@,
            order: self.order,
        }
    }
}

/// The first two steps of the handshake, in which a channel is proposed.
#[derive(Clone, Debug, PartialEq, Eq)]
pub enum ChannelOpenMsg {
    /// This side proposes; the counterparty has not spoken yet.
    OpenInit { channel: Channel },
    /// The counterparty proposed, with the version it speaks.
    OpenTry { channel: Channel, counterparty_version: String },
}

/// A [`ChannelOpenMsg`] with its strings as sequences of characters.
pub enum ChannelOpenMsgView {
    OpenInit { channel: ChannelView },
    OpenTry { channel: ChannelView, counterparty_version: Seq<char> },
}

impl ChannelOpenMsgView {
    /// The channel that the step is about.
    pub open spec fn channel(self) -> ChannelView {
        match self {
            ChannelOpenMsgView::OpenInit { channel } => channel,
            ChannelOpenMsgView::OpenTry { channel, .. } => channel,
        }
    }

    /// The version that the counterparty declared, where the step carries one.
    pub open spec fn counterparty_version(self) -> Option<Seq<char>> {
        match self {
            ChannelOpenMsgView::OpenInit { .. } => None,
            ChannelOpenMsgView::OpenTry { counterparty_version, .. } => Some(counterparty_version),
        }
    }
}

impl View for ChannelOpenMsg {
    type V = ChannelOpenMsgView;

    open spec fn view(&self) -> ChannelOpenMsgView {
        match *self {
            ChannelOpenMsg::OpenInit { channel } => ChannelOpenMsgView::OpenInit {
                channel: channel@,
            },
            ChannelOpenMsg::OpenTry { channel, counterparty_version } => ChannelOpenMsgView::OpenTry {
                channel: channel@,
                counterparty_version: counterparty_version@,
            },
        }
    }
}

impl ChannelOpenMsg {
    /// The channel that the step is about.
    pub fn channel(&self) -> (r: &Channel)
        ensures
            r@ == self@.channel(),
    {
        match self {
            ChannelOpenMsg::OpenInit { channel } => channel,
            ChannelOpenMsg::OpenTry { channel, .. } => channel,
        }
    }

    /// The version that the counterparty declared, where the step carries one.
    pub fn counterparty_version(&self) -> (r: Option<&str>)
        ensures
            version_view(r) == self@.counterparty_version(),
    {
        match self {
            ChannelOpenMsg::OpenInit { .. } => None,
            ChannelOpenMsg::OpenTry { counterparty_version, .. } => Some(
                counterparty_version.as_str(),
            ),
        }
    }
}

/// The last two steps of the handshake, in which the channel is established.
#[derive(Clone, Debug, PartialEq, Eq)]
pub enum ChannelConnectMsg {
    /// The counterparty accepted, with the version it speaks.
    OpenAck { channel: Channel, counterparty_version: String },
    /// The counterparty confirmed.
    OpenConfirm { channel: Channel },
}

/// A [`ChannelConnectMsg`] with its strings as sequences of characters.
pub enum ChannelConnectMsgView {
    OpenAck { channel: ChannelView, counterparty_version: Seq<char> },
    OpenConfirm { channel: ChannelView },
}

impl ChannelConnectMsgView {
    /// The channel that the step is about.
    pub open spec fn channel(self) -> ChannelView {
        match self {
            ChannelConnectMsgView::OpenAck { channel, .. } => channel,
            ChannelConnectMsgView::OpenConfirm { channel } => channel,
        }
    }

    /// The version that the counterparty declared, where the step carries one.
    pub open spec fn counterparty_version(self) -> Option<Seq<char>> {
        match self {
            ChannelConnectMsgView::OpenAck { counterparty_version, .. } => Some(
                counterparty_version,
            ),
            ChannelConnectMsgView::OpenConfirm { .. } => None,
        }
    }
}

impl View for ChannelConnectMsg {
    type V = ChannelConnectMsgView;

    open spec fn view(&self) -> ChannelConnectMsgView {
        match *self {
            ChannelConnectMsg::OpenAck { channel, counterparty_version } => ChannelConnectMsgView::OpenAck {
                channel: channel@,
                counterparty_version: counterparty_version@,
            },
            ChannelConnectMsg::OpenConfirm { channel } => ChannelConnectMsgView::OpenConfirm {
                channel: channel@,
            },
        }
    }
}

impl ChannelConnectMsg {
    /// The channel that the step is about.
    pub fn channel(&self) -> (r: &Channel)
        ensures
            r@ == self@.channel(),
    {
        match self {
            ChannelConnectMsg::OpenAck { channel, .. } => channel,
            ChannelConnectMsg::OpenConfirm { channel } => channel,
        }
    }

    /// The version that the counterparty declared, where the step carries one.
    pub fn counterparty_version(&self) -> (r: Option<&str>)
        ensures
            version_view(r) == self@.counterparty_version(),
    {
        match self {
            ChannelConnectMsg::OpenAck { counterparty_version, .. } => Some(
                counterparty_version.as_str(),
            ),
            ChannelConnectMsg::OpenConfirm { .. } => None,
        }
    }
}

/// A request to close the channel, by the side that makes it.
#[derive(Clone, Debug, PartialEq, Eq)]
pub enum ChannelCloseMsg {
    /// This side asks to close.
    CloseInit { channel: Channel },
    /// The counterparty has closed already.
    CloseConfirm { channel: Channel },
}

/// A [`ChannelCloseMsg`] with its strings as sequences of characters.
pub enum ChannelCloseMsgView {
    CloseInit { channel: ChannelView },
    CloseConfirm { channel: ChannelView },
}

impl View for ChannelCloseMsg {
    type V = ChannelCloseMsgView;

    open spec fn view(&self) -> ChannelCloseMsgView {
        match *self {
            ChannelCloseMsg::CloseInit { channel } => ChannelCloseMsgView::CloseInit {
                channel: channel@,
            },
            ChannelCloseMsg::CloseConfirm { channel } => ChannelCloseMsgView::CloseConfirm {
                channel: channel@,
            },
        }
    }
}

/// An optional version string as an optional sequence of characters.
pub open spec fn version_view(version: Option<&str>) -> Option<Seq<char>> {
    match version {
        Some(v) => Some(v@),
        None => None,
    }
}

} // verus!
