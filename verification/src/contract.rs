//! Setting the contract up, and the life cycle of its channels.

use vstd::prelude::*;
use vstd::string::*;
use crate::checks::{check_order, check_version, ChannelError, APP_ORDER, IBC_APP_VERSION};
use crate::error::{ContractError, StdError};
use crate::runtime::{
    event, one_event, Attribute, AttributeView, EventView, IbcBasicResponse, IbcBasicResponseView,
    IbcChannel, IbcChannelOpenMsg, Response, ResponseView,
};

verus! {

/// The version that this end of a channel requires.
#[derive(Clone, Debug, PartialEq, Eq)]
pub struct Ibc3ChannelOpenResponse {
    pub version: String,
}

/// The response to the setting up of the contract: one event, nothing else.
pub open spec fn set_up() -> ResponseView {
    ResponseView {
        messages: seq![],
        events: seq![EventView { ty: "ica-tunnel.V1.MsgInstantiated"@, attributes: seq![] }],
        data: None,
    }
}

/// Sets the contract up. It holds no state of its own at the start.
pub fn instantiate() -> (answer: Result<Response, StdError>)
    ensures
        answer matches Ok(response) && response.deep_view() == set_up(),
{
    let attributes: Vec<Attribute> = Vec::new();
    assert(attributes.deep_view() =~= seq![]);
    let events = one_event(event("ica-tunnel.V1.MsgInstantiated", attributes));
    let response = Response { messages: Vec::new(), events, data: None };
    assert(response.messages.deep_view() =~= seq![]);
    Ok(response)
}

/// Whether a proposed channel is acceptable: it is unordered, and the
/// counterparty, where it has announced a version, speaks this one.
pub open spec fn acceptable(msg: IbcChannelOpenMsg) -> bool {
    &&& msg.order == APP_ORDER
    &&& msg.counterparty_version matches Some(version) ==> version@ == IBC_APP_VERSION@
}

/// Opens a channel that is acceptable, and answers with the version that
/// this end requires. A channel with another ordering is refused for its
/// ordering; an unordered one whose counterparty speaks another version, for
/// the version.
pub fn ibc_channel_open(msg: IbcChannelOpenMsg) -> (answer: Result<
    Option<Ibc3ChannelOpenResponse>,
    ContractError,
>)
    ensures
        acceptable(msg) ==> (answer matches Ok(Some(response)) && response.version@
            == IBC_APP_VERSION@),
        msg.order != APP_ORDER ==> answer == Err::<
            Option<Ibc3ChannelOpenResponse>,
            ContractError,
        >(ContractError::ChannelError(ChannelError::InvalidChannelOrder)),
        msg.order == APP_ORDER && !acceptable(msg) ==> (answer matches Err(
            ContractError::ChannelError(ChannelError::InvalidChannelVersion(expected)),
        ) && expected@ == IBC_APP_VERSION@),
{
    match check_order(&msg.order) {
        Ok(()) => {},
        Err(e) => {
            return Err(ContractError::ChannelError(e));
        },
    }
    match msg.counterparty_version {
        Some(version) => match check_version(version.as_str()) {
            Ok(()) => {},
            Err(e) => {
                return Err(ContractError::ChannelError(e));
            },
        },
        None => {},
    }
    Ok(Some(Ibc3ChannelOpenResponse { version: IBC_APP_VERSION.to_owned() }))
}

/// The response that describes a channel: what was done to it, the
/// counterparty's client and port, and the channel's own id.
pub open spec fn described(
    channel: IbcChannel,
    action: Seq<char>,
    outcome: Seq<char>,
) -> IbcBasicResponseView {
    IbcBasicResponseView {
        attributes: seq![
            AttributeView { key: "action"@, value: action },
            AttributeView { key: "counterparty client id"@, value: channel.connection_id@ },
            AttributeView { key: "counterparty port"@, value: channel.counterparty_port_id@ },
            AttributeView { key: "current channel"@, value: channel.channel_id@ },
        ],
        events: seq![
            EventView {
                ty: "ibc"@,
                attributes: seq![AttributeView { key: "channel"@, value: outcome }],
            },
        ],
    }
}

/// Describes a channel in a response.
fn describe(channel: &IbcChannel, action: &str, outcome: &str) -> (response: IbcBasicResponse)
    ensures
        response.deep_view() == described(*channel, action@, outcome@),
{
    let mut attributes: Vec<Attribute> = Vec::new();
    attributes.push(Attribute::new("action", action));
    attributes.push(Attribute::new("counterparty client id", channel.connection_id.as_str()));
    attributes.push(Attribute::new("counterparty port", channel.counterparty_port_id.as_str()));
    attributes.push(Attribute::new("current channel", channel.channel_id.as_str()));
    let mut noted: Vec<Attribute> = Vec::new();
    noted.push(Attribute::new("channel", outcome));
    assert(noted.deep_view() =~= seq![AttributeView { key: "channel"@, value: outcome@ }]);
    let events = one_event(event("ibc", noted));
    assert(attributes.deep_view() =~= described(*channel, action@, outcome@).attributes);
    IbcBasicResponse { attributes, events }
}

/// Notes that a channel was connected. The state stays as it is.
pub fn ibc_channel_connect(channel: &IbcChannel) -> (answer: Result<IbcBasicResponse, StdError>)
    ensures
        answer matches Ok(response) && response.deep_view() == described(
            *channel,
            "ibc channel connect"@,
            "connect"@,
        ),
{
    Ok(describe(channel, "ibc channel connect", "connect"))
}

/// Notes that a channel was closed. The state stays as it is.
pub fn ibc_channel_close(channel: &IbcChannel) -> (answer: Result<IbcBasicResponse, StdError>)
    ensures
        answer matches Ok(response) && response.deep_view() == described(
            *channel,
            "ibc channel close "@,
            "close"@,
        ),
{
    Ok(describe(channel, "ibc channel close ", "close"))
}

} // verus!
