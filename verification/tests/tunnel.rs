use cosmwasm_std::{coins, BankMsg, CosmosMsg, ReplyOn};
use cosmwasm_tunnel::error::{ContractError, ParseReplyError, StdError};
use cosmwasm_tunnel::msg::{
    AckData, Acknowledgement, DispatchMigrateResponse, InstantiateResponse, PacketMsg, WhoAmIResponse,
};
use cosmwasm_tunnel::remote::{
    complete_instantiation, failure_ack, ibc_packet_receive, instantiated_contract, reply,
    reply_dispatch_callback, reply_init_callback, reply_migrate_callback,
};
use cosmwasm_tunnel::runtime::{
    Attribute, Env, Event, IbcPacketReceiveMsg, IbcReceiveResponse, Reply, SubMsg, SubMsgResponse,
    SubMsgResult, WasmMsg,
};
use cosmwasm_tunnel::state::{SenderInfo, Store};

fn env() -> Env {
    Env { block_time: 1_000, contract_address: "tunnel".to_string() }
}

fn payload() -> CosmosMsg {
    CosmosMsg::Bank(BankMsg::Send { to_address: "recipient".to_string(), amount: coins(5, "uatom") })
}

fn packet(data: PacketMsg) -> IbcPacketReceiveMsg {
    IbcPacketReceiveMsg {
        data: Ok(data),
        channel: Ok(Some("conn-0".to_string())),
        src_port_id: "wasm.port".to_string(),
    }
}

fn instantiate_packet(controller: &str, job_id: Option<&str>) -> IbcPacketReceiveMsg {
    packet(PacketMsg::Instantiate {
        controller: controller.to_string(),
        inst_msg: payload(),
        job_id: job_id.map(str::to_string),
        code_id: 7,
    })
}

fn attribute(key: &str, value: &str) -> Attribute {
    Attribute { key: key.to_string(), value: value.to_string() }
}

/// The data of a reply to an instantiation that created `address`.
fn instantiated(address: &str) -> Vec<u8> {
    let mut data = vec![0x0a, address.len() as u8];
    data.extend_from_slice(address.as_bytes());
    data
}

fn success(data: Option<Vec<u8>>) -> SubMsgResult {
    SubMsgResult::Success(SubMsgResponse { events: vec![], data })
}

fn receive(store: &mut Store, msg: IbcPacketReceiveMsg) -> IbcReceiveResponse {
    ibc_packet_receive(store, &env(), msg).unwrap()
}

fn failure(response: &IbcReceiveResponse) -> String {
    match &response.acknowledgement {
        Some(Acknowledgement::Failure(text)) => text.clone(),
        other => panic!("no failure: {other:?}"),
    }
}

/// A store in which alice on ("conn-0", "wasm.port") has the account "addr1".
fn registered() -> Store {
    let mut store = Store::new();
    receive(&mut store, instantiate_packet("alice", Some("job-1")));
    reply(&mut store, Reply { id: 7890, result: success(Some(instantiated("addr1"))) }).unwrap();
    store
}

#[test]
fn instantiate_for_alice_registers_the_new_address() {
    let mut store = Store::new();
    let response = receive(&mut store, instantiate_packet("alice", Some("job-1")));
    assert_eq!(response.acknowledgement, None);
    assert_eq!(response.attributes, vec![attribute("action", "recieve_instantiate")]);
    assert_eq!(
        response.messages,
        vec![SubMsg {
            id: 7890,
            msg: WasmMsg::Instantiate {
                admin: Some("tunnel".to_string()),
                code_id: 7,
                msg: payload(),
                label: "cosmwasm-ica-conn-0-wasm.port-alice".to_string(),
            },
            reply_on: ReplyOn::Success,
        }]
    );
    assert!(store.list(&None, usize::MAX).is_empty());

    let answer =
        reply(&mut store, Reply { id: 7890, result: success(Some(instantiated("addr1"))) }).unwrap();
    assert!(answer.messages.is_empty());
    assert_eq!(
        answer.data,
        Some(Acknowledgement::Success(AckData::Instantiate(InstantiateResponse {
            contract_address: "addr1".to_string(),
            job_id: Some("job-1".to_string()),
        })))
    );
    assert_eq!(
        answer.events,
        vec![Event {
            ty: "ica-tunnel.V1.MsgICAInstantiated".to_string(),
            attributes: vec![
                attribute("contract_addr", "addr1"),
                attribute("Controller", "conn-0-wasm.port-alice"),
            ],
        }]
    );
    let records = store.list(&None, usize::MAX);
    assert_eq!(records.len(), 1);
    assert_eq!(records[0].connection, "conn-0");
    assert_eq!(records[0].port, "wasm.port");
    assert_eq!(records[0].controller, "alice");
    assert_eq!(records[0].account, "addr1");
    assert_eq!(store.get("conn-0", "wasm.port", "alice"), Some("addr1".to_string()));
}

#[test]
fn second_instantiate_for_the_same_sender_is_refused() {
    let mut store = registered();
    let response = receive(&mut store, instantiate_packet("alice", Some("job-2")));
    assert_eq!(response.acknowledgement, None);
    let answer = reply(&mut store, Reply { id: 7890, result: success(Some(instantiated("addr2"))) });
    assert_eq!(answer, Err(ContractError::ChannelAlreadyRegistered));
    match failure_ack(&ContractError::ChannelAlreadyRegistered) {
        Acknowledgement::Failure(text) => assert!(text.contains("already registered")),
        other => panic!("no failure: {other:?}"),
    }
    assert_eq!(store.list(&None, usize::MAX).len(), 1);
    assert_eq!(store.get("conn-0", "wasm.port", "alice"), Some("addr1".to_string()));
}

#[test]
fn failed_dispatch_is_acknowledged_as_a_success_that_carries_the_failure() {
    let mut store = registered();
    let response = receive(
        &mut store,
        packet(PacketMsg::Dispatch {
            controller: "alice".to_string(),
            msg: payload(),
            job_id: Some("job-9".to_string()),
        }),
    );
    assert_eq!(response.acknowledgement, None);
    assert_eq!(response.attributes, vec![attribute("action", "receive_dispatch")]);
    assert_eq!(
        response.messages,
        vec![SubMsg {
            id: 1234,
            msg: WasmMsg::Execute { contract_addr: "addr1".to_string(), msg: payload() },
            reply_on: ReplyOn::Always,
        }]
    );
    let result = SubMsgResult::Failure("insufficient funds".to_string());
    let answer = reply(&mut store, Reply { id: 1234, result: result.clone() }).unwrap();
    assert_eq!(
        answer.data,
        Some(Acknowledgement::Success(AckData::DispatchMigrate(DispatchMigrateResponse {
            result,
            job_id: Some("job-9".to_string()),
        })))
    );
    assert!(answer.events.is_empty());
    assert!(answer.messages.is_empty());
}

#[test]
fn dispatch_reply_carries_events_and_data_of_a_success() {
    let mut store = registered();
    receive(
        &mut store,
        packet(PacketMsg::Dispatch { controller: "alice".to_string(), msg: payload(), job_id: None }),
    );
    let result = SubMsgResult::Success(SubMsgResponse {
        events: vec![Event { ty: "wasm".to_string(), attributes: vec![attribute("k", "v")] }],
        data: Some(vec![1, 2, 3]),
    });
    let answer = reply_dispatch_callback(&mut store, Reply { id: 1234, result: result.clone() }).unwrap();
    assert_eq!(
        answer.data,
        Some(Acknowledgement::Success(AckData::DispatchMigrate(DispatchMigrateResponse {
            result,
            job_id: None,
        })))
    );
}

#[test]
fn migrate_sends_the_call_and_its_reply_clears_the_slot() {
    let mut store = registered();
    let response = receive(
        &mut store,
        packet(PacketMsg::Migrate {
            controller: "alice".to_string(),
            migration_msg: payload(),
            new_code_id: 8,
            job_id: Some("job-3".to_string()),
        }),
    );
    assert_eq!(response.acknowledgement, None);
    assert_eq!(response.attributes, vec![attribute("action", "recieve_migrate")]);
    assert_eq!(
        response.messages,
        vec![SubMsg {
            id: 7899,
            msg: WasmMsg::Migrate { contract_addr: "addr1".to_string(), new_code_id: 8, msg: payload() },
            reply_on: ReplyOn::Always,
        }]
    );
    let answer = reply(&mut store, Reply { id: 7899, result: success(None) }).unwrap();
    assert_eq!(
        answer.data,
        Some(Acknowledgement::Success(AckData::DispatchMigrate(DispatchMigrateResponse {
            result: success(None),
            job_id: Some("job-3".to_string()),
        })))
    );
    assert!(matches!(store.take_pending(), Err(StdError::NotFound { .. })));
    assert_eq!(store.get("conn-0", "wasm.port", "alice"), Some("addr1".to_string()));
}

#[test]
fn who_am_i_answers_at_once() {
    let mut store = registered();
    let response = receive(&mut store, packet(PacketMsg::WhoAmI { controller: "alice".to_string() }));
    assert_eq!(
        response.acknowledgement,
        Some(Acknowledgement::Success(AckData::WhoAmI(WhoAmIResponse { account: "addr1".to_string() })))
    );
    assert!(response.messages.is_empty());
    assert_eq!(response.attributes, vec![attribute("action", "receive_who_am_i")]);
    assert!(matches!(store.take_pending(), Err(StdError::NotFound { .. })));
}

#[test]
fn who_am_i_of_an_unregistered_sender_fails_and_creates_nothing() {
    let mut store = registered();
    let response = receive(&mut store, packet(PacketMsg::WhoAmI { controller: "bob".to_string() }));
    let text = failure(&response);
    assert!(text.starts_with("IBC Packet Error: "));
    assert!(text.ends_with(" not found"));
    assert!(response.messages.is_empty());
    assert!(response.attributes.is_empty());
    assert_eq!(store.list(&None, usize::MAX).len(), 1);
    assert!(matches!(store.take_pending(), Err(StdError::NotFound { .. })));
}

#[test]
fn who_am_i_is_scoped_by_connection_and_port() {
    let mut store = registered();
    let mut msg = packet(PacketMsg::WhoAmI { controller: "alice".to_string() });
    msg.channel = Ok(Some("conn-1".to_string()));
    assert!(failure(&receive(&mut store, msg)).ends_with(" not found"));
    let mut msg = packet(PacketMsg::WhoAmI { controller: "alice".to_string() });
    msg.src_port_id = "other.port".to_string();
    assert!(failure(&receive(&mut store, msg)).ends_with(" not found"));
}

#[test]
fn migrate_of_an_unregistered_sender_fails_before_any_call() {
    let mut store = Store::new();
    let response = receive(
        &mut store,
        packet(PacketMsg::Migrate {
            controller: "alice".to_string(),
            migration_msg: payload(),
            new_code_id: 8,
            job_id: None,
        }),
    );
    let text = failure(&response);
    assert!(text.starts_with("IBC Packet Error: "));
    assert!(text.ends_with(" not found"));
    assert!(response.messages.is_empty());
    assert!(matches!(store.take_pending(), Err(StdError::NotFound { .. })));
}

#[test]
fn dispatch_of_an_unregistered_sender_fails_before_any_call() {
    let mut store = Store::new();
    let response = receive(
        &mut store,
        packet(PacketMsg::Dispatch { controller: "alice".to_string(), msg: payload(), job_id: None }),
    );
    let text = failure(&response);
    assert!(text.starts_with("IBC Packet Error: "));
    assert!(text.ends_with(" not found"));
    assert!(response.messages.is_empty());
    assert!(matches!(store.take_pending(), Err(StdError::NotFound { .. })));
}

#[test]
fn refused_request_leaves_the_pending_sender_in_place() {
    let mut store = Store::new();
    receive(&mut store, instantiate_packet("alice", Some("job-1")));
    receive(&mut store, packet(PacketMsg::WhoAmI { controller: "bob".to_string() }));
    assert_eq!(
        store.take_pending(),
        Ok(SenderInfo {
            connection_id: "conn-0".to_string(),
            port_id: "wasm.port".to_string(),
            controller: "alice".to_string(),
            job_id: Some("job-1".to_string()),
        })
    );
}

#[test]
fn undecoded_packet_is_acknowledged_as_a_failure() {
    let mut store = Store::new();
    let msg = IbcPacketReceiveMsg {
        data: Err(StdError::Other { message: "Error parsing into type PacketMsg: EOF".to_string() }),
        channel: Ok(Some("conn-0".to_string())),
        src_port_id: "wasm.port".to_string(),
    };
    let response = receive(&mut store, msg);
    assert_eq!(
        response.acknowledgement,
        Some(Acknowledgement::Failure(
            "IBC Packet Error: Error parsing into type PacketMsg: EOF".to_string()
        ))
    );
    assert!(response.messages.is_empty());
    assert!(response.attributes.is_empty());
}

#[test]
fn unknown_channel_is_acknowledged_as_a_failure() {
    let mut store = Store::new();
    let mut msg = instantiate_packet("alice", None);
    msg.channel = Ok(None);
    let response = receive(&mut store, msg);
    assert_eq!(
        response.acknowledgement,
        Some(Acknowledgement::Failure("IBC Packet Error: Invalid Connection Id".to_string()))
    );
    assert!(response.messages.is_empty());
    assert!(matches!(store.take_pending(), Err(StdError::NotFound { .. })));
}

#[test]
fn failed_channel_query_is_acknowledged_as_a_failure() {
    let mut store = Store::new();
    let mut msg = instantiate_packet("alice", None);
    msg.channel = Err(StdError::Other { message: "Generic error: no such port".to_string() });
    let response = receive(&mut store, msg);
    assert_eq!(
        response.acknowledgement,
        Some(Acknowledgement::Failure("IBC Packet Error: Generic error: no such port".to_string()))
    );
}

#[test]
fn failure_ack_prefixes_the_text_of_the_error() {
    assert_eq!(
        failure_ack(&ContractError::InvalidReplyId),
        Acknowledgement::Failure("IBC Packet Error: Invalid reply id".to_string())
    );
    assert_eq!(
        failure_ack(&ContractError::Std(StdError::NotFound { kind: "Addr".to_string() })),
        Acknowledgement::Failure("IBC Packet Error: Addr not found".to_string())
    );
}

#[test]
fn reply_with_an_unknown_id_fails_and_changes_nothing() {
    let mut store = Store::new();
    receive(&mut store, instantiate_packet("alice", None));
    let answer = reply(&mut store, Reply { id: 1, result: success(Some(instantiated("addr1"))) });
    assert_eq!(answer, Err(ContractError::InvalidReplyId));
    assert!(store.list(&None, usize::MAX).is_empty());
    assert!(store.take_pending().is_ok());
}

#[test]
fn reply_without_a_pending_sender_fails() {
    let mut store = Store::new();
    for id in [7890, 1234, 7899] {
        let answer = reply(&mut store, Reply { id, result: success(Some(instantiated("addr1"))) });
        assert!(matches!(answer, Err(ContractError::Std(StdError::NotFound { .. }))));
    }
    assert!(store.list(&None, usize::MAX).is_empty());
}

#[test]
fn instantiate_reply_without_data_fails_and_registers_nothing() {
    let mut store = Store::new();
    receive(&mut store, instantiate_packet("alice", None));
    let answer = reply_init_callback(&mut store, Reply { id: 7890, result: success(None) });
    assert_eq!(
        answer,
        Err(ContractError::ParseReply(ParseReplyError::ParseFailure("Missing reply data".to_string())))
    );
    assert!(store.list(&None, usize::MAX).is_empty());
    assert!(matches!(store.take_pending(), Err(StdError::NotFound { .. })));
}

#[test]
fn instantiate_reply_of_a_failed_call_fails_with_its_text() {
    let mut store = Store::new();
    receive(&mut store, instantiate_packet("alice", None));
    let answer = reply_init_callback(
        &mut store,
        Reply { id: 7890, result: SubMsgResult::Failure("no such code".to_string()) },
    );
    assert_eq!(
        answer,
        Err(ContractError::ParseReply(ParseReplyError::SubMsgFailure("no such code".to_string())))
    );
    assert!(store.list(&None, usize::MAX).is_empty());
}

#[test]
fn instantiated_contract_reads_the_address_from_the_data() {
    let reply = Reply { id: 7890, result: success(Some(instantiated("addr1"))) };
    assert_eq!(instantiated_contract(&reply), Ok("addr1".to_string()));
    let mut data = instantiated("wasm1contract");
    data.extend_from_slice(&[0x12, 2, 0xca, 0xfe]);
    let reply = Reply { id: 7890, result: success(Some(data)) };
    assert_eq!(instantiated_contract(&reply), Ok("wasm1contract".to_string()));
}

#[test]
fn instantiated_contract_refuses_malformed_data() {
    let reply = Reply { id: 7890, result: success(Some(vec![0x0a, 9, b'a'])) };
    assert!(matches!(instantiated_contract(&reply), Err(ParseReplyError::ParseFailure(_))));
    let reply = Reply { id: 7890, result: success(Some(vec![0x0a, 2, 0xff, 0xfe])) };
    assert_eq!(instantiated_contract(&reply), Err(ParseReplyError::BrokenUtf8));
}

#[test]
fn completion_passes_on_the_error_that_it_is_given() {
    let mut store = Store::new();
    receive(&mut store, instantiate_packet("alice", None));
    let answer = complete_instantiation(&mut store, Err(ContractError::Unauthorized));
    assert_eq!(answer, Err(ContractError::Unauthorized));
    assert!(store.list(&None, usize::MAX).is_empty());
    assert!(matches!(store.take_pending(), Err(StdError::NotFound { .. })));
}

#[test]
fn completion_registers_the_address_that_it_is_given() {
    let mut store = Store::new();
    receive(&mut store, instantiate_packet("bob", None));
    let answer = complete_instantiation(&mut store, Ok("addr7".to_string())).unwrap();
    assert_eq!(
        answer.data,
        Some(Acknowledgement::Success(AckData::Instantiate(InstantiateResponse {
            contract_address: "addr7".to_string(),
            job_id: None,
        })))
    );
    assert_eq!(store.get("conn-0", "wasm.port", "bob"), Some("addr7".to_string()));
}

#[test]
fn migrate_reply_takes_the_pending_sender() {
    let mut store = registered();
    receive(
        &mut store,
        packet(PacketMsg::Migrate {
            controller: "alice".to_string(),
            migration_msg: payload(),
            new_code_id: 8,
            job_id: None,
        }),
    );
    assert!(reply_migrate_callback(&mut store, Reply { id: 7899, result: success(None) }).is_ok());
    assert!(matches!(
        reply_migrate_callback(&mut store, Reply { id: 7899, result: success(None) }),
        Err(ContractError::Std(StdError::NotFound { .. }))
    ));
}
