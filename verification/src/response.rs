//! What a callback hands back to the host.

use crate::ibc_helpers::{StdAck, StdAckView};
use vstd::prelude::*;

verus! {

/// A key and a value, emitted with the event of the callback.
#[derive(Clone, Debug, PartialEq, Eq)]
pub struct Attribute {
    pub key: String,
    pub value: String,
}

/// An [`Attribute`] with its strings as sequences of characters.
pub struct AttributeView {
    pub key: Seq<char>,
    pub value: Seq<char>,
}

impl View for Attribute {
    type V = AttributeView;

    open spec fn view(&self) -> AttributeView {
        AttributeView { key: self.key@, value: self.value@ }
    }
}

/// The attribute with key `key` and value `value`.
pub open spec fn attribute(key: Seq<char>, value: Seq<char>) -> AttributeView {
    AttributeView { key, value }
}

/// The views of `attributes`, in their order.
pub open spec fn attribute_views(attributes: Seq<Attribute>) -> Seq<AttributeView> {
    attributes.map_values(|a: Attribute| a@)
}

/// The answer to the opening of a channel: the version that this side asks for.
#[derive(Clone, Debug, PartialEq, Eq)]
pub struct OpenResponse {
    pub version: String,
}

/// The answer of the callbacks that have nothing to return but attributes.
#[derive(Clone, Debug, PartialEq, Eq)]
pub struct BasicResponse {
    pub attributes: Vec<Attribute>,
}

/// A [`BasicResponse`] as the sequence of its attributes.
pub struct BasicResponseView {
    pub attributes: Seq<AttributeView>,
}

impl View for BasicResponse {
    type V = BasicResponseView;

    open spec fn view(&self) -> BasicResponseView {
        BasicResponseView { attributes: attribute_views(self.attributes@) }
    }
}

impl BasicResponse {
    /// The response without attributes.
    pub fn new() -> (r: BasicResponse)
        ensures
            r@.attributes == Seq::<AttributeView>::empty(),
    {
        BasicResponse { attributes: Vec::new() }
    }

    /// This response with one more attribute at the end.
    pub fn add_attribute(self, key: &str, value: &str) -> (r: BasicResponse)
        ensures
            r@.attributes == self@.attributes.push(attribute(key@, value@)),
    {
        let mut attributes = self.attributes;
        attributes.push(Attribute { key: key.to_owned(), value: value.to_owned() });
        BasicResponse { attributes }
    }
}

/// The answer to an inbound packet: attributes, and the acknowledgement that
/// goes back to the sender.
#[derive(Clone, Debug, PartialEq, Eq)]
pub struct ReceiveResponse {
    pub acknowledgement: Option<StdAck>,
    pub attributes: Vec<Attribute>,
}

/// A [`ReceiveResponse`] by the views of its parts.
pub struct ReceiveResponseView {
    pub acknowledgement: Option<StdAckView>,
    pub attributes: Seq<AttributeView>,
}

impl View for ReceiveResponse {
    type V = ReceiveResponseView;

    open spec fn view(&self) -> ReceiveResponseView {
        ReceiveResponseView {
            acknowledgement: match self.acknowledgement {
                Some(ack) => Some(ack@),
                None => None,
            },
            attributes: attribute_views(self.attributes@),
        }
    }
}

impl ReceiveResponse {
    /// The response without attributes and without an acknowledgement.
    pub fn new() -> (r: ReceiveResponse)
        ensures
            r@.acknowledgement is None,
            r@.attributes == Seq::<AttributeView>::empty(),
    {
        ReceiveResponse { acknowledgement: None, attributes: Vec::new() }
    }

    /// This response with one more attribute at the end.
    pub fn add_attribute(self, key: &str, value: &str) -> (r: ReceiveResponse)
        ensures
            r@.acknowledgement == self@.acknowledgement,
            r@.attributes == self@.attributes.push(attribute(key@, value@)),
    {
        let mut attributes = self.attributes;
        attributes.push(Attribute { key: key.to_owned(), value: value.to_owned() });
        ReceiveResponse { acknowledgement: self.acknowledgement, attributes }
    }

    /// This response with `ack` as its acknowledgement.
    pub fn set_ack(self, ack: StdAck) -> (r: ReceiveResponse)
        ensures
            r@.acknowledgement == Some(ack@),
            r@.attributes == self@.attributes,
    {
        ReceiveResponse { acknowledgement: Some(ack), attributes: self.attributes }
    }
}

} // verus!
