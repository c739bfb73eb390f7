use cosmwasm_std::{coins, BankMsg, CosmosMsg};
use cosmwasm_tunnel::host::{
    execute, execute_remote_dispatch, execute_remote_instantiate, execute_remote_migrate,
    execute_remote_query, ibc_packet_ack, ibc_packet_timeout, NANOS_PER_SECOND,
};
use cosmwasm_tunnel::msg::{ExecuteMsg, PacketMsg};
use cosmwasm_tunnel::runtime::{Attribute, Env, Event, IbcMsg, MessageInfo, Response};

fn env() -> Env {
    Env { block_time: 1_700_000_000_000_000_000, contract_address: "tunnel".to_string() }
}

fn info() -> MessageInfo {
    MessageInfo { sender: "alice".to_string() }
}

fn payload() -> CosmosMsg {
    CosmosMsg::Bank(BankMsg::Send { to_address: "recipient".to_string(), amount: coins(5, "uatom") })
}

fn attribute(key: &str, value: &str) -> Attribute {
    Attribute { key: key.to_string(), value: value.to_string() }
}

fn sent(data: PacketMsg, event: &str, noted: Attribute) -> Response {
    Response {
        messages: vec![IbcMsg {
            channel_id: "channel-3".to_string(),
            data,
            timeout: 1_700_003_600_000_000_000,
        }],
        events: vec![Event {
            ty: event.to_string(),
            attributes: vec![attribute("channel_id", "channel-3"), noted],
        }],
        data: None,
    }
}

#[test]
fn a_second_has_a_billion_nanoseconds() {
    assert_eq!(NANOS_PER_SECOND, 1_000_000_000);
}

#[test]
fn remote_instantiate_sends_the_packet_in_the_senders_name() {
    let response = execute_remote_instantiate(
        info(),
        env(),
        payload(),
        7,
        Some("job-1".to_string()),
        "channel-3".to_string(),
    );
    assert_eq!(
        response,
        Ok(sent(
            PacketMsg::Instantiate {
                controller: "alice".to_string(),
                inst_msg: payload(),
                job_id: Some("job-1".to_string()),
                code_id: 7,
            },
            "ica-tunnel.V1.HostMsg.InstantiationRequested",
            attribute("job_id", "Some(\"job-1\")"),
        ))
    );
}

#[test]
fn remote_migrate_sends_the_packet_in_the_senders_name() {
    let response =
        execute_remote_migrate(info(), env(), payload(), 8, None, "channel-3".to_string());
    assert_eq!(
        response,
        Ok(sent(
            PacketMsg::Migrate {
                controller: "alice".to_string(),
                migration_msg: payload(),
                new_code_id: 8,
                job_id: None,
            },
            "ica-tunnel.V1.HostMsg.MigrationRequested",
            attribute("job_id", "None"),
        ))
    );
}

#[test]
fn remote_dispatch_sends_the_packet_in_the_senders_name() {
    let response = execute_remote_dispatch(
        info(),
        env(),
        payload(),
        Some("a \"b\"".to_string()),
        "channel-3".to_string(),
    );
    assert_eq!(
        response,
        Ok(sent(
            PacketMsg::Dispatch {
                controller: "alice".to_string(),
                msg: payload(),
                job_id: Some("a \"b\"".to_string()),
            },
            "ica-tunnel.V1.HostMsg.DispatchRequested",
            attribute("job_id", "Some(\"a \\\"b\\\"\")"),
        ))
    );
}

#[test]
fn remote_query_sends_the_packet_in_the_senders_name() {
    let response = execute_remote_query(info(), env(), "channel-3".to_string());
    assert_eq!(
        response,
        Ok(sent(
            PacketMsg::WhoAmI { controller: "alice".to_string() },
            "ica-tunnel.V1.HostMsg.RemoteAddrRequested",
            attribute("controller", "alice"),
        ))
    );
}

#[test]
fn execute_routes_by_message() {
    assert_eq!(
        execute(
            env(),
            info(),
            ExecuteMsg::RemoteInstantiate {
                inst_msg: payload(),
                job_id: None,
                code_id: 7,
                channel_id: "channel-3".to_string(),
            }
        ),
        execute_remote_instantiate(info(), env(), payload(), 7, None, "channel-3".to_string())
    );
    assert_eq!(
        execute(
            env(),
            info(),
            ExecuteMsg::RemoteMigrate {
                migrate_msg: payload(),
                job_id: None,
                new_code_id: 8,
                channel_id: "channel-3".to_string(),
            }
        ),
        execute_remote_migrate(info(), env(), payload(), 8, None, "channel-3".to_string())
    );
    assert_eq!(
        execute(
            env(),
            info(),
            ExecuteMsg::RemoteDispatch {
                dispatch_msg: payload(),
                job_id: Some("j".to_string()),
                channel_id: "channel-3".to_string(),
            }
        ),
        execute_remote_dispatch(info(), env(), payload(), Some("j".to_string()), "channel-3".to_string())
    );
    assert_eq!(
        execute(env(), info(), ExecuteMsg::QueryRemoteAddr { channel_id: "channel-3".to_string() }),
        execute_remote_query(info(), env(), "channel-3".to_string())
    );
}

#[test]
fn timeout_is_one_hour_after_the_block() {
    let env = Env { block_time: 0, contract_address: "tunnel".to_string() };
    let response = execute_remote_query(info(), env, "channel-3".to_string()).unwrap();
    assert_eq!(response.messages[0].timeout, 3_600_000_000_000);
    let env = Env { block_time: u64::MAX - 3_600_000_000_000, contract_address: "tunnel".to_string() };
    let response = execute_remote_query(info(), env, "channel-3".to_string()).unwrap();
    assert_eq!(response.messages[0].timeout, u64::MAX);
}

#[test]
fn packet_ack_notes_the_action() {
    let response = ibc_packet_ack().unwrap();
    assert_eq!(response.attributes, vec![attribute("action", "ibc_packet_ack")]);
    assert!(response.events.is_empty());
}

#[test]
fn packet_timeout_notes_the_action() {
    let response = ibc_packet_timeout().unwrap();
    assert_eq!(response.attributes, vec![attribute("action", "ibc_packet_timeout")]);
    assert!(response.events.is_empty());
}

#[test]
fn request_sends_the_message_and_notes_it() {
    let msg = IbcMsg {
        channel_id: "channel-3".to_string(),
        data: PacketMsg::WhoAmI { controller: "alice".to_string() },
        timeout: 1_700_003_600_000_000_000,
    };
    let response = cosmwasm_tunnel::host::request(
        msg,
        "ica-tunnel.V1.HostMsg.RemoteAddrRequested",
        "channel-3".to_string(),
        attribute("controller", "alice"),
    );
    assert_eq!(
        response,
        sent(
            PacketMsg::WhoAmI { controller: "alice".to_string() },
            "ica-tunnel.V1.HostMsg.RemoteAddrRequested",
            attribute("controller", "alice"),
        )
    );
}
