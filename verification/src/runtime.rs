//! Values that the contract exchanges with the chain that runs it: what it is
//! told about a call, and what it answers.

use vstd::prelude::*;
use cosmwasm_std::{CosmosMsg, IbcOrder, ReplyOn};
use crate::error::StdError;
use crate::msg::{Acknowledgement, AcknowledgementView, PacketMsg, PacketMsgView};

verus! {

/// `cosmwasm_std::ReplyOn`: on which outcomes of a sub-message a reply comes.
#[verifier::external_type_specification]
pub struct ExReplyOn(cosmwasm_std::ReplyOn);

/// `cosmwasm_std::Empty`: the custom message of a chain that has none.
#[verifier::external_type_specification]
pub struct ExEmpty(cosmwasm_std::Empty);

/// `cosmwasm_std::CosmosMsg`: a message for the chain to run. The tunnel
/// carries such a message from a controller to an account and never looks
/// into it.
#[verifier::external_type_specification]
#[verifier::external_body]
#[verifier::reject_recursive_types(T)]
pub struct ExCosmosMsg<T>(cosmwasm_std::CosmosMsg<T>);

/// A key and a value that describe what a call did.
#[derive(Clone, Debug, PartialEq, Eq)]
pub struct Attribute {
    pub key: String,
    pub value: String,
}

/// An `Attribute` over sequences of characters.
pub struct AttributeView {
    pub key: Seq<char>,
    pub value: Seq<char>,
}

impl DeepView for Attribute {
    type V = AttributeView;

    open spec fn deep_view(&self) -> AttributeView {
        AttributeView { key: self.key@, value: self.value@ }
    }
}

impl Attribute {
    /// The attribute with this key and value.
    pub fn new(key: &str, value: &str) -> (attribute: Attribute)
        ensures
            attribute.deep_view() == (AttributeView { key: key@, value: value@ }),
    {
        Attribute { key: key.to_owned(), value: value.to_owned() }
    }
}

/// A named group of attributes.
#[derive(Clone, Debug, PartialEq, Eq)]
pub struct Event {
    pub ty: String,
    pub attributes: Vec<Attribute>,
}

/// An `Event` over sequences.
pub struct EventView {
    pub ty: Seq<char>,
    pub attributes: Seq<AttributeView>,
}

impl DeepView for Event {
    type V = EventView;

    open spec fn deep_view(&self) -> EventView {
        EventView { ty: self.ty@, attributes: self.attributes.deep_view() }
    }
}

/// The event with this name and these attributes.
pub(crate) fn event(ty: &str, attributes: Vec<Attribute>) -> (event: Event)
    ensures
        event.deep_view() == (EventView { ty: ty@, attributes: attributes.deep_view() }),
{
    Event { ty: ty.to_owned(), attributes }
}

/// The list of this one event.
pub(crate) fn one_event(event: Event) -> (events: Vec<Event>)
    ensures
        events.deep_view() == seq![event.deep_view()],
{
    let ghost view = event.deep_view();
    let mut events: Vec<Event> = Vec::new();
    events.push(event);
    assert(events.deep_view() =~= seq![view]);
    events
}

/// The list of these two attributes.
pub(crate) fn two_attributes(first: Attribute, second: Attribute) -> (attributes: Vec<Attribute>)
    ensures
        attributes.deep_view() == seq![first.deep_view(), second.deep_view()],
{
    let ghost views = seq![first.deep_view(), second.deep_view()];
    let mut attributes: Vec<Attribute> = Vec::new();
    attributes.push(first);
    attributes.push(second);
    assert(attributes.deep_view() =~= views);
    attributes
}

/// What a sub-message that succeeded gave back.
#[derive(Clone, Debug, PartialEq, Eq)]
pub struct SubMsgResponse {
    pub events: Vec<Event>,
    pub data: Option<Vec<u8>>,
}

/// A `SubMsgResponse` over sequences.
pub struct SubMsgResponseView {
    pub events: Seq<EventView>,
    pub data: Option<Seq<u8>>,
}

impl DeepView for SubMsgResponse {
    type V = SubMsgResponseView;

    open spec fn deep_view(&self) -> SubMsgResponseView {
        SubMsgResponseView {
            events: self.events.deep_view(),
            data: match self.data {
                Some(bytes) => Some(bytes@),
                None => None,
            },
        }
    }
}

/// How a sub-message ended.
#[derive(Clone, Debug, PartialEq, Eq)]
pub enum SubMsgResult {
    /// The sub-message succeeded.
    Success(SubMsgResponse),
    /// The sub-message failed, with this text.
    Failure(String),
}

/// A `SubMsgResult` over sequences.
pub enum SubMsgResultView {
    Success(SubMsgResponseView),
    Failure(Seq<char>),
}

impl DeepView for SubMsgResult {
    type V = SubMsgResultView;

    open spec fn deep_view(&self) -> SubMsgResultView {
        match self {
            SubMsgResult::Success(response) => SubMsgResultView::Success(response.deep_view()),
            SubMsgResult::Failure(text) => SubMsgResultView::Failure(text@),
        }
    }
}

/// The outcome of a sub-message, handed to the contract under the id that the
/// sub-message was sent with.
#[derive(Clone, Debug, PartialEq, Eq)]
pub struct Reply {
    pub id: u64,
    pub result: SubMsgResult,
}

/// A call of another contract. No funds go with any of them.
#[derive(Debug, PartialEq)]
pub enum WasmMsg {
    /// Creates a contract from the code `code_id`.
    Instantiate { admin: Option<String>, code_id: u64, msg: CosmosMsg, label: String },
    /// Moves the contract `contract_addr` to the code `new_code_id`.
    Migrate { contract_addr: String, new_code_id: u64, msg: CosmosMsg },
    /// Runs `msg` on the contract `contract_addr`.
    Execute { contract_addr: String, msg: CosmosMsg },
}

/// A `WasmMsg` over sequences of characters.
pub enum WasmMsgView {
    Instantiate { admin: Option<Seq<char>>, code_id: u64, msg: CosmosMsg, label: Seq<char> },
    Migrate { contract_addr: Seq<char>, new_code_id: u64, msg: CosmosMsg },
    Execute { contract_addr: Seq<char>, msg: CosmosMsg },
}

impl DeepView for WasmMsg {
    type V = WasmMsgView;

    open spec fn deep_view(&self) -> WasmMsgView {
        match self {
            WasmMsg::Instantiate { admin, code_id, msg, label } => WasmMsgView::Instantiate {
                admin: admin.deep_view(),
                code_id: *code_id,
                msg: *msg,
                label: label@,
            },
            WasmMsg::Migrate { contract_addr, new_code_id, msg } => WasmMsgView::Migrate {
                contract_addr: contract_addr@,
                new_code_id: *new_code_id,
                msg: *msg,
            },
            WasmMsg::Execute { contract_addr, msg } => WasmMsgView::Execute {
                contract_addr: contract_addr@,
                msg: *msg,
            },
        }
    }
}

/// A call whose outcome comes back as a `Reply` with the same id, on the
/// outcomes that `reply_on` selects.
#[derive(Debug, PartialEq)]
pub struct SubMsg {
    pub id: u64,
    pub msg: WasmMsg,
    pub reply_on: ReplyOn,
}

/// A `SubMsg` over sequences of characters.
pub struct SubMsgView {
    pub id: u64,
    pub msg: WasmMsgView,
    pub reply_on: ReplyOn,
}

impl DeepView for SubMsg {
    type V = SubMsgView;

    open spec fn deep_view(&self) -> SubMsgView {
        SubMsgView { id: self.id, msg: self.msg.deep_view(), reply_on: self.reply_on }
    }
}

/// The answer to a received packet.
#[derive(Debug, PartialEq)]
pub struct IbcReceiveResponse {
    /// The acknowledgement, unless it is left to the reply of a sub-message.
    pub acknowledgement: Option<Acknowledgement>,
    pub messages: Vec<SubMsg>,
    pub attributes: Vec<Attribute>,
}

/// An `IbcReceiveResponse` over sequences.
pub struct IbcReceiveResponseView {
    pub acknowledgement: Option<AcknowledgementView>,
    pub messages: Seq<SubMsgView>,
    pub attributes: Seq<AttributeView>,
}

impl DeepView for IbcReceiveResponse {
    type V = IbcReceiveResponseView;

    open spec fn deep_view(&self) -> IbcReceiveResponseView {
        IbcReceiveResponseView {
            acknowledgement: self.acknowledgement.deep_view(),
            messages: self.messages.deep_view(),
            attributes: self.attributes.deep_view(),
        }
    }
}

/// A packet to send over a channel, to time out at `timeout` nanoseconds.
#[derive(Debug, PartialEq)]
pub struct IbcMsg {
    pub channel_id: String,
    pub data: PacketMsg,
    pub timeout: u64,
}

/// An `IbcMsg` over sequences of characters.
pub struct IbcMsgView {
    pub channel_id: Seq<char>,
    pub data: PacketMsgView,
    pub timeout: u64,
}

impl DeepView for IbcMsg {
    type V = IbcMsgView;

    open spec fn deep_view(&self) -> IbcMsgView {
        IbcMsgView {
            channel_id: self.channel_id@,
            data: self.data.deep_view(),
            timeout: self.timeout,
        }
    }
}

/// The answer to an instantiation, an execution or a reply.
#[derive(Debug, PartialEq)]
pub struct Response {
    pub messages: Vec<IbcMsg>,
    pub events: Vec<Event>,
    /// The acknowledgement of the packet that a reply completes.
    pub data: Option<Acknowledgement>,
}

/// A `Response` over sequences.
pub struct ResponseView {
    pub messages: Seq<IbcMsgView>,
    pub events: Seq<EventView>,
    pub data: Option<AcknowledgementView>,
}

impl DeepView for Response {
    type V = ResponseView;

    open spec fn deep_view(&self) -> ResponseView {
        ResponseView {
            messages: self.messages.deep_view(),
            events: self.events.deep_view(),
            data: self.data.deep_view(),
        }
    }
}

/// The answer to a call of the channel's life cycle.
#[derive(Clone, Debug, PartialEq, Eq)]
pub struct IbcBasicResponse {
    pub attributes: Vec<Attribute>,
    pub events: Vec<Event>,
}

/// An `IbcBasicResponse` over sequences.
pub struct IbcBasicResponseView {
    pub attributes: Seq<AttributeView>,
    pub events: Seq<EventView>,
}

impl DeepView for IbcBasicResponse {
    type V = IbcBasicResponseView;

    open spec fn deep_view(&self) -> IbcBasicResponseView {
        IbcBasicResponseView {
            attributes: self.attributes.deep_view(),
            events: self.events.deep_view(),
        }
    }
}

/// What a call is told of the chain: the block's time in nanoseconds and the
/// contract's own address.
#[derive(Clone, Debug, PartialEq, Eq)]
pub struct Env {
    pub block_time: u64,
    pub contract_address: String,
}

/// Who made a call.
#[derive(Clone, Debug, PartialEq, Eq)]
pub struct MessageInfo {
    pub sender: String,
}

/// The channel that a handshake proposes.
#[derive(Debug, PartialEq, Eq)]
pub struct IbcChannelOpenMsg {
    pub order: IbcOrder,
    /// The version that the counterparty announced, if it has done so yet.
    pub counterparty_version: Option<String>,
}

/// A channel that was connected or closed.
#[derive(Clone, Debug, PartialEq, Eq)]
pub struct IbcChannel {
    pub connection_id: String,
    pub counterparty_port_id: String,
    pub channel_id: String,
}

/// A packet that arrived, with what the chain knows of its channel.
#[derive(Debug, PartialEq)]
pub struct IbcPacketReceiveMsg {
    /// The packet's data, decoded, or why it could not be decoded.
    pub data: Result<PacketMsg, StdError>,
    /// The connection of the channel that the packet arrived on, as the chain
    /// answers the query for it: none where the channel is unknown.
    pub channel: Result<Option<String>, StdError>,
    /// The port that the packet was sent from.
    pub src_port_id: String,
}

} // verus!
