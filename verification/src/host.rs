//! The host side of the tunnel: it sends the requests of the controllers
//! that live on its chain to the remote side.

use vstd::prelude::*;
use vstd::string::*;
use cosmwasm_std::CosmosMsg;
use crate::checks::PACKET_LIFETIME;
use crate::error::{ContractError, StdError};
use crate::msg::{ExecuteMsg, PacketMsg, PacketMsgView};
use crate::runtime::{
    event, one_event, two_attributes, Attribute, AttributeView, Env, EventView, IbcBasicResponse,
    IbcBasicResponseView, IbcMsg, IbcMsgView, MessageInfo, Response, ResponseView,
};

verus! {

/// Nanoseconds in a second.
pub const NANOS_PER_SECOND: u64 = 1_000_000_000;

/// Whether a packet sent at this time times out at a time that can be told.
pub open spec fn lifetime_fits(block_time: u64) -> bool {
    block_time + PACKET_LIFETIME * NANOS_PER_SECOND <= u64::MAX
}

/// The time at which a packet sent at this time times out, in nanoseconds.
pub open spec fn timeout_at(block_time: u64) -> u64 {
    (block_time + PACKET_LIFETIME * NANOS_PER_SECOND) as u64
}

/// `cosmwasm_std::Timestamp::plus_seconds`: the time so many seconds later,
/// both in nanoseconds. The function stops where the later time cannot be
/// told in 64 bits, so such times are left out.
#[verifier::external_body]
fn plus_seconds(nanos: u64, seconds: u64) -> (later: u64)
    requires
        nanos + seconds * NANOS_PER_SECOND <= u64::MAX,
    ensures
        later == nanos + seconds * NANOS_PER_SECOND,
{
    cosmwasm_std::Timestamp::from_nanos(nanos).plus_seconds(seconds).nanos()
}

/// How a job id reads in an event.
pub uninterp spec fn job_id_text(job_id: Option<Seq<char>>) -> Seq<char>;

/// `std::fmt::Debug` of an optional text, as `format!` writes it.
#[verifier::external_body]
fn format_job_id(job_id: &Option<String>) -> (text: String)
    ensures
        text@ == job_id_text(job_id.deep_view()),
{
    format!("{job_id:?}")
}

/// The message that sends a packet over a channel, to time out one packet
/// lifetime after the block's time.
pub open spec fn packet_sent(channel_id: Seq<char>, data: PacketMsgView, block_time: u64) -> IbcMsgView {
    IbcMsgView { channel_id, data, timeout: timeout_at(block_time) }
}

/// The response that sends a packet and notes the request in an event with
/// the channel and one more attribute.
pub open spec fn requested(
    channel_id: Seq<char>,
    data: PacketMsgView,
    block_time: u64,
    event: Seq<char>,
    noted: AttributeView,
) -> ResponseView {
    ResponseView {
        messages: seq![packet_sent(channel_id, data, block_time)],
        events: seq![
            EventView {
                ty: event,
                attributes: seq![AttributeView { key: "channel_id"@, value: channel_id }, noted],
            },
        ],
        data: None,
    }
}

/// The attribute that notes a job id.
pub open spec fn job_noted(job_id: Option<Seq<char>>) -> AttributeView {
    AttributeView { key: "job_id"@, value: job_id_text(job_id) }
}

/// The response to a request of a controller: the packet that stands for
/// the request, sent in the controller's name, and the event that notes it.
pub open spec fn executed(env: Env, info: MessageInfo, msg: ExecuteMsg) -> ResponseView {
    let controller = info.sender@;
    match msg {
        ExecuteMsg::RemoteInstantiate { inst_msg, job_id, code_id, channel_id } => requested(
            channel_id@,
            PacketMsgView::Instantiate { controller, inst_msg, job_id: job_id.deep_view(), code_id },
            env.block_time,
            "ica-tunnel.V1.HostMsg.InstantiationRequested"@,
            job_noted(job_id.deep_view()),
        ),
        ExecuteMsg::RemoteMigrate { migrate_msg, job_id, new_code_id, channel_id } => requested(
            channel_id@,
            PacketMsgView::Migrate {
                controller,
                migration_msg: migrate_msg,
                new_code_id,
                job_id: job_id.deep_view(),
            },
            env.block_time,
            "ica-tunnel.V1.HostMsg.MigrationRequested"@,
            job_noted(job_id.deep_view()),
        ),
        ExecuteMsg::RemoteDispatch { dispatch_msg, job_id, channel_id } => requested(
            channel_id@,
            PacketMsgView::Dispatch { controller, msg: dispatch_msg, job_id: job_id.deep_view() },
            env.block_time,
            "ica-tunnel.V1.HostMsg.DispatchRequested"@,
            job_noted(job_id.deep_view()),
        ),
        ExecuteMsg::QueryRemoteAddr { channel_id } => requested(
            channel_id@,
            PacketMsgView::WhoAmI { controller },
            env.block_time,
            "ica-tunnel.V1.HostMsg.RemoteAddrRequested"@,
            AttributeView { key: "controller"@, value: controller },
        ),
    }
}

/// Sends the request of a controller to the remote side.
pub fn execute(env: Env, info: MessageInfo, msg: ExecuteMsg) -> (answer: Result<
    Response,
    ContractError,
>)
    requires
        lifetime_fits(env.block_time),
    ensures
        answer matches Ok(response) && response.deep_view() == executed(env, info, msg),
{
    match msg {
        ExecuteMsg::RemoteInstantiate { inst_msg, code_id, job_id, channel_id } => {
            execute_remote_instantiate(info, env, inst_msg, code_id, job_id, channel_id)
        },
        ExecuteMsg::RemoteMigrate { migrate_msg, job_id, new_code_id, channel_id } => {
            execute_remote_migrate(info, env, migrate_msg, new_code_id, job_id, channel_id)
        },
        ExecuteMsg::RemoteDispatch { dispatch_msg, job_id, channel_id } => {
            execute_remote_dispatch(info, env, dispatch_msg, job_id, channel_id)
        },
        ExecuteMsg::QueryRemoteAddr { channel_id } => execute_remote_query(info, env, channel_id),
    }
}

/// The message that sends a packet over a channel, to time out one packet
/// lifetime after the block's time.
fn create_ibc_msg(channel_id: String, data: PacketMsg, env: Env) -> (msg: Result<
    IbcMsg,
    ContractError,
>)
    requires
        lifetime_fits(env.block_time),
    ensures
        msg matches Ok(sent) && sent.deep_view() == packet_sent(
            channel_id@,
            data.deep_view(),
            env.block_time,
        ),
{
    Ok(IbcMsg { channel_id, data, timeout: plus_seconds(env.block_time, PACKET_LIFETIME) })
}

/// The response that sends a message and notes the request in an event
/// with this name, the channel and one more attribute.
pub fn request(msg: IbcMsg, name: &str, channel_id: String, noted: Attribute) -> (response: Response)
    ensures
        response.deep_view() == (ResponseView {
            messages: seq![msg.deep_view()],
            events: seq![
                EventView {
                    ty: name@,
                    attributes: seq![
                        AttributeView { key: "channel_id"@, value: channel_id@ },
                        noted.deep_view(),
                    ],
                },
            ],
            data: None,
        }),
{
    let attributes = two_attributes(Attribute::new("channel_id", channel_id.as_str()), noted);
    let events = one_event(event(name, attributes));
    let ghost view = msg.deep_view();
    let mut messages: Vec<IbcMsg> = Vec::new();
    messages.push(msg);
    assert(messages.deep_view() =~= seq![view]);
    Response { messages, events, data: None }
}

/// Asks the remote side to create the sender's account from the code `code_id`.
pub fn execute_remote_instantiate(
    info: MessageInfo,
    env: Env,
    inst_msg: CosmosMsg,
    code_id: u64,
    job_id: Option<String>,
    channel_id: String,
) -> (answer: Result<Response, ContractError>)
    requires
        lifetime_fits(env.block_time),
    ensures
        answer matches Ok(response) && response.deep_view() == requested(
            channel_id@,
            PacketMsgView::Instantiate {
                controller: info.sender@,
                inst_msg,
                job_id: job_id.deep_view(),
                code_id,
            },
            env.block_time,
            "ica-tunnel.V1.HostMsg.InstantiationRequested"@,
            job_noted(job_id.deep_view()),
        ),
{
    let noted = Attribute::new("job_id", format_job_id(&job_id).as_str());
    let packet = PacketMsg::Instantiate { controller: info.sender, inst_msg, code_id, job_id };
    let msg = match create_ibc_msg(channel_id.clone(), packet, env) {
        Ok(msg) => msg,
        Err(e) => {
            return Err(e);
        },
    };
    Ok(request(msg, "ica-tunnel.V1.HostMsg.InstantiationRequested", channel_id, noted))
}

/// Asks the remote side to move the sender's account to the code `new_code_id`.
pub fn execute_remote_migrate(
    info: MessageInfo,
    env: Env,
    migration_msg: CosmosMsg,
    new_code_id: u64,
    job_id: Option<String>,
    channel_id: String,
) -> (answer: Result<Response, ContractError>)
    requires
        lifetime_fits(env.block_time),
    ensures
        answer matches Ok(response) && response.deep_view() == requested(
            channel_id@,
            PacketMsgView::Migrate {
                controller: info.sender@,
                migration_msg,
                new_code_id,
                job_id: job_id.deep_view(),
            },
            env.block_time,
            "ica-tunnel.V1.HostMsg.MigrationRequested"@,
            job_noted(job_id.deep_view()),
        ),
{
    let noted = Attribute::new("job_id", format_job_id(&job_id).as_str());
    let packet = PacketMsg::Migrate { controller: info.sender, migration_msg, job_id, new_code_id };
    let msg = match create_ibc_msg(channel_id.clone(), packet, env) {
        Ok(msg) => msg,
        Err(e) => {
            return Err(e);
        },
    };
    Ok(request(msg, "ica-tunnel.V1.HostMsg.MigrationRequested", channel_id, noted))
}

/// Asks the remote side to run a message on the sender's account.
pub fn execute_remote_dispatch(
    info: MessageInfo,
    env: Env,
    msg: CosmosMsg,
    job_id: Option<String>,
    channel_id: String,
) -> (answer: Result<Response, ContractError>)
    requires
        lifetime_fits(env.block_time),
    ensures
        answer matches Ok(response) && response.deep_view() == requested(
            channel_id@,
            PacketMsgView::Dispatch { controller: info.sender@, msg, job_id: job_id.deep_view() },
            env.block_time,
            "ica-tunnel.V1.HostMsg.DispatchRequested"@,
            job_noted(job_id.deep_view()),
        ),
{
    let noted = Attribute::new("job_id", format_job_id(&job_id).as_str());
    let packet = PacketMsg::Dispatch { controller: info.sender, msg, job_id };
    let msg = match create_ibc_msg(channel_id.clone(), packet, env) {
        Ok(msg) => msg,
        Err(e) => {
            return Err(e);
        },
    };
    Ok(request(msg, "ica-tunnel.V1.HostMsg.DispatchRequested", channel_id, noted))
}

/// Asks the remote side for the sender's account.
pub fn execute_remote_query(info: MessageInfo, env: Env, channel_id: String) -> (answer: Result<
    Response,
    ContractError,
>)
    requires
        lifetime_fits(env.block_time),
    ensures
        answer matches Ok(response) && response.deep_view() == requested(
            channel_id@,
            PacketMsgView::WhoAmI { controller: info.sender@ },
            env.block_time,
            "ica-tunnel.V1.HostMsg.RemoteAddrRequested"@,
            AttributeView { key: "controller"@, value: info.sender@ },
        ),
{
    let noted = Attribute::new("controller", info.sender.as_str());
    let packet = PacketMsg::WhoAmI { controller: info.sender };
    let msg = match create_ibc_msg(channel_id.clone(), packet, env) {
        Ok(msg) => msg,
        Err(e) => {
            return Err(e);
        },
    };
    Ok(request(msg, "ica-tunnel.V1.HostMsg.RemoteAddrRequested", channel_id, noted))
}

/// The response that notes an action and nothing else.
pub open spec fn noted_action(action: Seq<char>) -> IbcBasicResponseView {
    IbcBasicResponseView {
        attributes: seq![AttributeView { key: "action"@, value: action }],
        events: seq![],
    }
}

/// The response that notes an action and nothing else.
fn note_action(action: &str) -> (response: IbcBasicResponse)
    ensures
        response.deep_view() == noted_action(action@),
{
    let mut attributes: Vec<Attribute> = Vec::new();
    attributes.push(Attribute::new("action", action));
    assert(attributes.deep_view() =~= seq![AttributeView { key: "action"@, value: action@ }]);
    let response = IbcBasicResponse { attributes, events: Vec::new() };
    assert(response.events.deep_view() =~= seq![]);
    response
}

/// Notes that a packet was acknowledged. The host side keeps no state of a
/// request, so there is nothing to do.
pub fn ibc_packet_ack() -> (answer: Result<IbcBasicResponse, StdError>)
    ensures
        answer matches Ok(response) && response.deep_view() == noted_action("ibc_packet_ack"@),
{
    Ok(note_action("ibc_packet_ack"))
}

/// Notes that a packet timed out. The host side keeps no state of a
/// request, so there is nothing to do.
pub fn ibc_packet_timeout() -> (answer: Result<IbcBasicResponse, StdError>)
    ensures
        answer matches Ok(response) && response.deep_view() == noted_action(
            "ibc_packet_timeout"@,
        ),
{
    Ok(note_action("ibc_packet_timeout"))
}

} // verus!
