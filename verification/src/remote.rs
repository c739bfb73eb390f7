//! The remote side of the tunnel: it receives the packets of controllers,
//! runs what they ask for on accounts of its own chain, and acknowledges.

use vstd::prelude::*;
use vstd::string::*;
use cosmwasm_std::{CosmosMsg, ReplyOn};
use crate::error::{
    ContractError, ContractErrorView, ParseReplyError, ParseReplyErrorView, StdError,
};
use crate::msg::{
    AccountResponse, AckData, AckDataView, Acknowledgement, AcknowledgementView,
    DispatchMigrateResponse, DispatchMigrateResponseView, InstantiateResponse,
    InstantiateResponseView, ListAccountsResponse, PacketMsg, PacketMsgView, QueryMsg,
    QueryResponse, WhoAmIResponse, WhoAmIResponseView,
};
use crate::order::AccountKey;
use crate::page::{cursor_key, is_page};
use crate::runtime::{
    Attribute, AttributeView, Env, Event, EventView, IbcPacketReceiveMsg, IbcReceiveResponse,
    IbcReceiveResponseView, Reply, Response, ResponseView, SubMsg, SubMsgResult,
    SubMsgResultView, SubMsgView, WasmMsg, WasmMsgView,
};
use crate::state::{
    key_part_fits, SenderInfo, SenderInfoView, Store, DEFAULT_LIMIT, INIT_CALLBACK_ID, MAX_LIMIT,
    MIGRATE_CALLBACK_ID, RECEIVE_DISPATCH_ID,
};

verus! {

/// The length of the page that a query asks for: the default where it names
/// none, and never more than the maximum.
pub open spec fn page_limit(limit: Option<u64>) -> nat {
    let asked = match limit {
        Some(n) => n,
        None => DEFAULT_LIMIT,
    };
    if asked <= MAX_LIMIT {
        asked as nat
    } else {
        MAX_LIMIT as nat
    }
}

/// Whether a query can be answered: the key parts of an account query must fit.
pub open spec fn query_fits(msg: QueryMsg) -> bool {
    msg matches QueryMsg::Account { connection_id, port_id, .. } ==> key_part_fits(connection_id@)
        && key_part_fits(port_id@)
}

/// Answers a query from the state.
pub fn query(store: &Store, msg: QueryMsg) -> (answer: Result<QueryResponse, StdError>)
    requires
        query_fits(msg),
    ensures
        match msg {
            QueryMsg::Account { connection_id, port_id, controller } => {
                let key = (connection_id@, port_id@, controller@);
                if store.accounts().contains_key(key) {
                    answer matches Ok(QueryResponse::Account(response))
                        && response.account.deep_view() == Some(store.accounts()[key])
                } else {
                    answer matches Err(e) && e is NotFound
                }
            },
            QueryMsg::ListAccounts { start_after, limit } => {
                answer matches Ok(QueryResponse::ListAccounts(response)) && is_page(
                    store.accounts(),
                    cursor_key(start_after),
                    page_limit(limit),
                    response.accounts.deep_view(),
                )
            },
        },
{
    match msg {
        QueryMsg::Account { connection_id, port_id, controller } => {
            match query_account(store, connection_id, port_id, controller) {
                Ok(response) => Ok(QueryResponse::Account(response)),
                Err(e) => Err(e),
            }
        },
        QueryMsg::ListAccounts { start_after, limit } => {
            match query_list_accounts(store, start_after, limit) {
                Ok(response) => Ok(QueryResponse::ListAccounts(response)),
                Err(e) => Err(e),
            }
        },
    }
}

/// The account of a controller, or the error that none is found.
pub fn query_account(store: &Store, connection: String, port: String, controller: String) -> (answer:
    Result<AccountResponse, StdError>)
    requires
        key_part_fits(connection@),
        key_part_fits(port@),
    ensures
        store.accounts().contains_key((connection@, port@, controller@)) ==> (answer matches Ok(
            response,
        ) && response.account.deep_view() == Some(
            store.accounts()[(connection@, port@, controller@)],
        )),
        !store.accounts().contains_key((connection@, port@, controller@)) ==> (answer matches Err(e)
            && e is NotFound),
{
    match store.load(connection.as_str(), port.as_str(), controller.as_str()) {
        Ok(account) => Ok(AccountResponse { account: Some(account) }),
        Err(e) => Err(e),
    }
}

/// A page of the accounts in the order of their keys: at most `limit` of
/// them, or the default number, and never more than the maximum; behind the
/// key `start_after`, or from the first where none is given.
pub fn query_list_accounts(
    store: &Store,
    start_after: Option<(String, String, String)>,
    limit: Option<u64>,
) -> (answer: Result<ListAccountsResponse, StdError>)
    ensures
        answer matches Ok(response) && is_page(
            store.accounts(),
            cursor_key(start_after),
            page_limit(limit),
            response.accounts.deep_view(),
        ),
{
    let asked = match limit {
        Some(n) => n,
        None => DEFAULT_LIMIT,
    };
    let limit: usize = if asked <= MAX_LIMIT {
        asked as usize
    } else {
        MAX_LIMIT as usize
    };
    let accounts = store.list(&start_after, limit);
    Ok(ListAccountsResponse { accounts })
}

/// The sender of a request.
pub open spec fn sender(key: AccountKey, job_id: Option<Seq<char>>) -> SenderInfoView {
    SenderInfoView { connection_id: key.0, port_id: key.1, controller: key.2, job_id }
}

/// The label of the account that is created for a sender.
pub open spec fn account_label(key: AccountKey) -> Seq<char> {
    "cosmwasm-ica-"@ + key.0 + "-"@ + key.1 + "-"@ + key.2
}

/// The call that creates the account of a sender, with this contract as its
/// admin; it replies where it succeeds.
pub open spec fn instantiate_call(
    admin: Seq<char>,
    key: AccountKey,
    inst_msg: CosmosMsg,
    code_id: u64,
) -> SubMsgView {
    SubMsgView {
        id: INIT_CALLBACK_ID,
        msg: WasmMsgView::Instantiate {
            admin: Some(admin),
            code_id,
            msg: inst_msg,
            label: account_label(key),
        },
        reply_on: ReplyOn::Success,
    }
}

/// The call that moves an account to new code; it replies however it ends.
pub open spec fn migrate_call(account: Seq<char>, migrate_msg: CosmosMsg, new_code_id: u64) -> SubMsgView {
    SubMsgView {
        id: MIGRATE_CALLBACK_ID,
        msg: WasmMsgView::Migrate { contract_addr: account, new_code_id, msg: migrate_msg },
        reply_on: ReplyOn::Always,
    }
}

/// The call that runs a message on an account; it replies however it ends.
pub open spec fn dispatch_call(account: Seq<char>, msg: CosmosMsg) -> SubMsgView {
    SubMsgView {
        id: RECEIVE_DISPATCH_ID,
        msg: WasmMsgView::Execute { contract_addr: account, msg },
        reply_on: ReplyOn::Always,
    }
}

/// The response that sends one call and leaves the acknowledgement to its reply.
pub open spec fn deferred(call: SubMsgView, action: Seq<char>) -> IbcReceiveResponseView {
    IbcReceiveResponseView {
        acknowledgement: None,
        messages: seq![call],
        attributes: seq![AttributeView { key: "action"@, value: action }],
    }
}

/// The response that acknowledges at once with the caller's account.
pub open spec fn answered(account: Seq<char>) -> IbcReceiveResponseView {
    IbcReceiveResponseView {
        acknowledgement: Some(
            AcknowledgementView::Success(AckDataView::WhoAmI(WhoAmIResponseView { account })),
        ),
        messages: seq![],
        attributes: seq![AttributeView { key: "action"@, value: "receive_who_am_i"@ }],
    }
}

/// The acknowledgement that the tunnel failed, with the text of the error.
pub open spec fn failure(error_text: Seq<char>) -> AcknowledgementView {
    AcknowledgementView::Failure("IBC Packet Error: "@ + error_text)
}

/// The response that acknowledges at once that the tunnel failed.
pub open spec fn failed(error_text: Seq<char>) -> IbcReceiveResponseView {
    IbcReceiveResponseView {
        acknowledgement: Some(failure(error_text)),
        messages: seq![],
        attributes: seq![],
    }
}

/// The response that acknowledges at once that something of this kind is not found.
pub open spec fn not_found(kind: Seq<char>) -> IbcReceiveResponseView {
    failed(kind + " not found"@)
}

/// Whether a response acknowledges at once that something is not found.
pub open spec fn fails_not_found(response: IbcReceiveResponseView) -> bool {
    exists|kind: Seq<char>| response == #[trigger] not_found(kind)
}

/// What a decoded packet does that arrived over the connection `connection`
/// from the port `port`: the state after it and the response. It never
/// changes the registry. A request to create an account, or one of a sender
/// with an account, notes the sender as pending and sends the one call that
/// the request stands for; the question for an account is answered at once.
/// A sender without an account is told at once that nothing is found, and
/// the pending slot stays as it was.
pub open spec fn routed(
    before: Store,
    after: Store,
    admin: Seq<char>,
    connection: Seq<char>,
    port: Seq<char>,
    packet: PacketMsgView,
    response: IbcReceiveResponseView,
) -> bool {
    let accounts = before.accounts();
    &&& after.accounts() == accounts
    &&& match packet {
        PacketMsgView::Instantiate { controller, inst_msg, job_id, code_id } => {
            let key = (connection, port, controller);
            &&& after.pending() == Some(sender(key, job_id))
            &&& response == deferred(
                instantiate_call(admin, key, inst_msg, code_id),
                "recieve_instantiate"@,
            )
        },
        PacketMsgView::Migrate { controller, migration_msg, new_code_id, job_id } => {
            let key = (connection, port, controller);
            if accounts.contains_key(key) {
                &&& after.pending() == Some(sender(key, job_id))
                &&& response == deferred(
                    migrate_call(accounts[key], migration_msg, new_code_id),
                    "recieve_migrate"@,
                )
            } else {
                &&& after.pending() == before.pending()
                &&& fails_not_found(response)
            }
        },
        PacketMsgView::Dispatch { controller, msg, job_id } => {
            let key = (connection, port, controller);
            if accounts.contains_key(key) {
                &&& after.pending() == Some(sender(key, job_id))
                &&& response == deferred(dispatch_call(accounts[key], msg), "receive_dispatch"@)
            } else {
                &&& after.pending() == before.pending()
                &&& fails_not_found(response)
            }
        },
        PacketMsgView::WhoAmI { controller } => {
            let key = (connection, port, controller);
            &&& after.pending() == before.pending()
            &&& if accounts.contains_key(key) {
                response == answered(accounts[key])
            } else {
                fails_not_found(response)
            }
        },
    }
}

/// What the receipt of a packet does: the state after it and the response.
/// A packet that cannot be decoded, or whose channel cannot be resolved,
/// changes nothing and is acknowledged as a failure.
pub open spec fn received(
    before: Store,
    after: Store,
    env: Env,
    msg: IbcPacketReceiveMsg,
    response: IbcReceiveResponseView,
) -> bool {
    match msg.data {
        Err(e) => {
            &&& after.accounts() == before.accounts()
            &&& after.pending() == before.pending()
            &&& response == failed(e.message_text())
        },
        Ok(packet) => match msg.channel {
            Err(e) => {
                &&& after.accounts() == before.accounts()
                &&& after.pending() == before.pending()
                &&& response == failed(e.message_text())
            },
            Ok(None) => {
                &&& after.accounts() == before.accounts()
                &&& after.pending() == before.pending()
                &&& response == failed(ContractError::InvalidConnectionId.message_text())
            },
            Ok(Some(connection)) => routed(
                before,
                after,
                env.contract_address@,
                connection@,
                msg.src_port_id@,
                packet.deep_view(),
                response,
            ),
        },
    }
}

/// Whether the channel of a packet can stand in a key of the registry.
pub open spec fn packet_fits(msg: IbcPacketReceiveMsg) -> bool {
    &&& key_part_fits(msg.src_port_id@)
    &&& msg.channel matches Ok(Some(connection)) ==> key_part_fits(connection@)
}

/// The acknowledgement that the tunnel failed with this error.
pub fn failure_ack(error: &ContractError) -> (ack: Acknowledgement)
    ensures
        ack.deep_view() == failure(error.message_text()),
{
    let text = error.message();
    Acknowledgement::Failure("IBC Packet Error: ".to_owned().concat(text.as_str()))
}

/// The list with the one attribute that names an action.
fn action(name: &str) -> (attributes: Vec<Attribute>)
    ensures
        attributes.deep_view() == seq![AttributeView { key: "action"@, value: name@ }],
{
    let mut attributes: Vec<Attribute> = Vec::new();
    attributes.push(Attribute::new("action", name));
    assert(attributes.deep_view() =~= seq![AttributeView { key: "action"@, value: name@ }]);
    attributes
}

/// The response that sends one call and leaves the acknowledgement to its reply.
fn defer(call: SubMsg, name: &str) -> (response: IbcReceiveResponse)
    ensures
        response.deep_view() == deferred(call.deep_view(), name@),
{
    let mut messages: Vec<SubMsg> = Vec::new();
    let ghost view = call.deep_view();
    messages.push(call);
    assert(messages.deep_view() =~= seq![view]);
    IbcReceiveResponse { acknowledgement: None, messages, attributes: action(name) }
}

/// Receives a packet: resolves the sender from what the chain says of the
/// channel, and routes the request that the packet's data decoded to.
/// Whatever fails on the way is acknowledged as a failure and changes
/// nothing.
pub fn ibc_packet_receive(store: &mut Store, env: &Env, msg: IbcPacketReceiveMsg) -> (answer: Result<
    IbcReceiveResponse,
    ContractError,
>)
    requires
        packet_fits(msg),
    ensures
        answer matches Ok(response) && received(
            *old(store),
            *final(store),
            *env,
            msg,
            response.deep_view(),
        ),
{
    let routed = match msg.data {
        Err(e) => Err(ContractError::Std(e)),
        Ok(packet) => match get_connection_id_from_channel(msg.channel) {
            Err(e) => Err(e),
            Ok(connection_id) => {
                let port_id = msg.src_port_id;
                match packet {
                    PacketMsg::Instantiate { controller, inst_msg, job_id, code_id } => {
                        receieve_instantiate(
                            store,
                            env,
                            connection_id,
                            port_id,
                            controller,
                            inst_msg,
                            job_id,
                            code_id,
                        )
                    },
                    PacketMsg::Migrate { controller, migration_msg, new_code_id, job_id } => {
                        receieve_migrate(
                            store,
                            connection_id,
                            port_id,
                            controller,
                            migration_msg,
                            job_id,
                            new_code_id,
                        )
                    },
                    PacketMsg::Dispatch { controller, msg, job_id } => {
                        receive_dispatch(store, connection_id, port_id, controller, msg, job_id)
                    },
                    PacketMsg::WhoAmI { controller } => {
                        receive_who_am_i(store, connection_id, port_id, controller)
                    },
                }
            },
        },
    };
    match routed {
        Ok(response) => Ok(response),
        Err(e) => {
            let response = IbcReceiveResponse {
                acknowledgement: Some(failure_ack(&e)),
                messages: Vec::new(),
                attributes: Vec::new(),
            };
            proof {
                assert(response.messages.deep_view() =~= seq![]);
                assert(response.attributes.deep_view() =~= seq![]);
                assert(response.deep_view() == failed(e.message_text()));
                if let ContractError::Std(StdError::NotFound { kind }) = e {
                    assert(response.deep_view() == not_found(kind@));
                }
            }
            Ok(response)
        },
    }
}

/// Starts the creation of the sender's account, and notes the sender for the reply.
fn receieve_instantiate(
    store: &mut Store,
    env: &Env,
    connection_id: String,
    port_id: String,
    controller: String,
    inst_msg: CosmosMsg,
    job_id: Option<String>,
    code_id: u64,
) -> (answer: Result<IbcReceiveResponse, ContractError>)
    requires
        key_part_fits(connection_id@),
        key_part_fits(port_id@),
    ensures
        final(store).accounts() == old(store).accounts(),
        final(store).pending() == Some(
            sender((connection_id@, port_id@, controller@), job_id.deep_view()),
        ),
        answer matches Ok(response) && response.deep_view() == deferred(
            instantiate_call(
                env.contract_address@,
                (connection_id@, port_id@, controller@),
                inst_msg,
                code_id,
            ),
            "recieve_instantiate"@,
        ),
{
    let label = "cosmwasm-ica-".to_owned().concat(connection_id.as_str()).concat("-").concat(
        port_id.as_str(),
    ).concat("-").concat(controller.as_str());
    let msg = WasmMsg::Instantiate {
        admin: Some(env.contract_address.clone()),
        code_id,
        msg: inst_msg,
        label,
    };
    let call = SubMsg { id: INIT_CALLBACK_ID, msg, reply_on: ReplyOn::Success };
    let info = SenderInfo { connection_id, port_id, controller, job_id };
    match store.set_pending(&info) {
        Ok(()) => Ok(defer(call, "recieve_instantiate")),
        Err(e) => Err(ContractError::Std(e)),
    }
}

/// Starts the migration of the sender's account, and notes the sender for
/// the reply. A sender without an account is refused.
fn receieve_migrate(
    store: &mut Store,
    connection_id: String,
    port_id: String,
    controller: String,
    migrate_msg: CosmosMsg,
    job_id: Option<String>,
    new_code_id: u64,
) -> (answer: Result<IbcReceiveResponse, ContractError>)
    requires
        key_part_fits(connection_id@),
        key_part_fits(port_id@),
    ensures
        final(store).accounts() == old(store).accounts(),
        old(store).accounts().contains_key((connection_id@, port_id@, controller@)) ==> {
            &&& final(store).pending() == Some(
                sender((connection_id@, port_id@, controller@), job_id.deep_view()),
            )
            &&& answer matches Ok(response) && response.deep_view() == deferred(
                migrate_call(
                    old(store).accounts()[(connection_id@, port_id@, controller@)],
                    migrate_msg,
                    new_code_id,
                ),
                "recieve_migrate"@,
            )
        },
        !old(store).accounts().contains_key((connection_id@, port_id@, controller@)) ==> {
            &&& final(store).pending() == old(store).pending()
            &&& answer matches Err(ContractError::Std(e)) && e is NotFound
        },
{
    let account = match store.load(connection_id.as_str(), port_id.as_str(), controller.as_str()) {
        Ok(account) => account,
        Err(e) => {
            return Err(ContractError::Std(e));
        },
    };
    let msg = WasmMsg::Migrate { contract_addr: account, new_code_id, msg: migrate_msg };
    let call = SubMsg { id: MIGRATE_CALLBACK_ID, msg, reply_on: ReplyOn::Always };
    let info = SenderInfo { connection_id, port_id, controller, job_id };
    match store.set_pending(&info) {
        Ok(()) => Ok(defer(call, "recieve_migrate")),
        Err(e) => Err(ContractError::Std(e)),
    }
}

/// Starts a call on the sender's account, and notes the sender for the
/// reply. A sender without an account is refused.
fn receive_dispatch(
    store: &mut Store,
    connection_id: String,
    port_id: String,
    controller: String,
    msg: CosmosMsg,
    job_id: Option<String>,
) -> (answer: Result<IbcReceiveResponse, ContractError>)
    requires
        key_part_fits(connection_id@),
        key_part_fits(port_id@),
    ensures
        final(store).accounts() == old(store).accounts(),
        old(store).accounts().contains_key((connection_id@, port_id@, controller@)) ==> {
            &&& final(store).pending() == Some(
                sender((connection_id@, port_id@, controller@), job_id.deep_view()),
            )
            &&& answer matches Ok(response) && response.deep_view() == deferred(
                dispatch_call(old(store).accounts()[(connection_id@, port_id@, controller@)], msg),
                "receive_dispatch"@,
            )
        },
        !old(store).accounts().contains_key((connection_id@, port_id@, controller@)) ==> {
            &&& final(store).pending() == old(store).pending()
            &&& answer matches Err(ContractError::Std(e)) && e is NotFound
        },
{
    let account = match store.load(connection_id.as_str(), port_id.as_str(), controller.as_str()) {
        Ok(account) => account,
        Err(e) => {
            return Err(ContractError::Std(e));
        },
    };
    let wasm_msg = WasmMsg::Execute { contract_addr: account, msg };
    let call = SubMsg { id: RECEIVE_DISPATCH_ID, msg: wasm_msg, reply_on: ReplyOn::Always };
    let info = SenderInfo { connection_id, port_id, controller, job_id };
    match store.set_pending(&info) {
        Ok(()) => Ok(defer(call, "receive_dispatch")),
        Err(e) => Err(ContractError::Std(e)),
    }
}

/// Answers with the sender's account. A sender without an account is refused.
fn receive_who_am_i(store: &mut Store, connection: String, port: String, controller: String) -> (answer:
    Result<IbcReceiveResponse, ContractError>)
    requires
        key_part_fits(connection@),
        key_part_fits(port@),
    ensures
        final(store).accounts() == old(store).accounts(),
        final(store).pending() == old(store).pending(),
        old(store).accounts().contains_key((connection@, port@, controller@)) ==> (answer matches Ok(
            response,
        ) && response.deep_view() == answered(
            old(store).accounts()[(connection@, port@, controller@)],
        )),
        !old(store).accounts().contains_key((connection@, port@, controller@)) ==> (
        answer matches Err(ContractError::Std(e)) && e is NotFound),
{
    let account = match store.load(connection.as_str(), port.as_str(), controller.as_str()) {
        Ok(account) => account,
        Err(e) => {
            return Err(ContractError::Std(e));
        },
    };
    let response = WhoAmIResponse { account };
    let acknowledgement = Acknowledgement::Success(AckData::WhoAmI(response));
    let answer = IbcReceiveResponse {
        acknowledgement: Some(acknowledgement),
        messages: Vec::new(),
        attributes: action("receive_who_am_i"),
    };
    assert(answer.messages.deep_view() =~= seq![]);
    Ok(answer)
}

/// The connection that a channel runs over, out of the chain's answer to
/// the query for the channel.
fn get_connection_id_from_channel(channel: Result<Option<String>, StdError>) -> (connection: Result<
    String,
    ContractError,
>)
    ensures
        match channel {
            Ok(Some(id)) => connection == Ok::<String, ContractError>(id),
            Ok(None) => connection == Err::<String, ContractError>(
                ContractError::InvalidConnectionId,
            ),
            Err(e) => connection == Err::<String, ContractError>(ContractError::Std(e)),
        },
{
    match channel {
        Ok(Some(id)) => Ok(id),
        Ok(None) => Err(ContractError::InvalidConnectionId),
        Err(e) => Err(ContractError::Std(e)),
    }
}

/// The address of the contract that a reply's data announces as created, or
/// why the data does not say.
pub uninterp spec fn instantiate_data_address(data: Seq<u8>) -> Result<Seq<char>, ParseReplyErrorView>;

/// The data that a sub-message gave back, if it succeeded and gave any.
pub open spec fn reply_data(result: SubMsgResultView) -> Option<Seq<u8>> {
    match result {
        SubMsgResultView::Failure(_) => None,
        SubMsgResultView::Success(response) => response.data,
    }
}

/// Why a reply without data names no contract: the sub-message failed, or
/// it succeeded and gave no data.
pub open spec fn no_reply_data(result: SubMsgResultView) -> ParseReplyErrorView {
    match result {
        SubMsgResultView::Failure(text) => ParseReplyErrorView::SubMsgFailure(text),
        SubMsgResultView::Success(_) => ParseReplyErrorView::ParseFailure("Missing reply data"@),
    }
}

/// The address of the contract that an instantiation created, out of how the
/// instantiation ended: a failure has none, nor has a success without data.
pub open spec fn instantiated_address(result: SubMsgResultView) -> Result<
    Seq<char>,
    ParseReplyErrorView,
> {
    match reply_data(result) {
        None => Err(no_reply_data(result)),
        Some(data) => instantiate_data_address(data),
    }
}

/// An address or an error over sequences of characters.
pub open spec fn address_view(address: Result<String, ParseReplyError>) -> Result<
    Seq<char>,
    ParseReplyErrorView,
> {
    match address {
        Ok(text) => Ok(text@),
        Err(e) => Err(e.deep_view()),
    }
}

/// `cw_utils::parse_reply_instantiate_data`: the address of the created
/// contract, read from the data of a successful reply; the sub-message's own
/// error where it failed, and a parse failure where the reply has no data.
/// The events of the reply, which the function does not read, are not handed
/// to it.
#[verifier::external_body]
fn parse_reply_instantiate_data(id: u64, result: &SubMsgResult) -> (address: Result<
    String,
    ParseReplyError,
>)
    ensures
        reply_data(result.deep_view()) is Some ==> address_view(address)
            == instantiate_data_address(reply_data(result.deep_view())->Some_0),
        reply_data(result.deep_view()) is None ==> address is Err && address->Err_0.deep_view()
            == no_reply_data(result.deep_view()),
{
    let result = match result {
        SubMsgResult::Success(r) => cosmwasm_std::SubMsgResult::Ok(
            cosmwasm_std::SubMsgResponse {
                events: vec![],
                data: r.data.clone().map(cosmwasm_std::Binary),
            },
        ),
        SubMsgResult::Failure(text) => cosmwasm_std::SubMsgResult::Err(text.clone()),
    };
    match cw_utils::parse_reply_instantiate_data(cosmwasm_std::Reply { id, result }) {
        Ok(response) => Ok(response.contract_address),
        Err(cw_utils::ParseReplyError::SubMsgFailure(text)) => Err(ParseReplyError::SubMsgFailure(text)),
        Err(cw_utils::ParseReplyError::ParseFailure(text)) => Err(ParseReplyError::ParseFailure(text)),
        Err(cw_utils::ParseReplyError::BrokenUtf8(_)) => Err(ParseReplyError::BrokenUtf8),
    }
}

/// The text that names a sender in an event.
pub open spec fn sender_tag(key: AccountKey) -> Seq<char> {
    key.0 + "-"@ + key.1 + "-"@ + key.2
}

/// The response that completes an instantiation: the event of the new
/// account, and the acknowledgement with its address and the sender's job.
pub open spec fn instantiated(address: Seq<char>, info: SenderInfoView) -> ResponseView {
    ResponseView {
        messages: seq![],
        events: seq![
            EventView {
                ty: "ica-tunnel.V1.MsgICAInstantiated"@,
                attributes: seq![
                    AttributeView { key: "contract_addr"@, value: address },
                    AttributeView { key: "Controller"@, value: sender_tag(info.key()) },
                ],
            },
        ],
        data: Some(
            AcknowledgementView::Success(
                AckDataView::Instantiate(
                    InstantiateResponseView { contract_address: address, job_id: info.job_id },
                ),
            ),
        ),
    }
}

/// The response that completes a dispatch or a migration: the
/// acknowledgement with how the call on the account ended, whether well or
/// not, and the sender's job.
pub open spec fn relayed(result: SubMsgResultView, job_id: Option<Seq<char>>) -> ResponseView {
    ResponseView {
        messages: seq![],
        events: seq![],
        data: Some(
            AcknowledgementView::Success(
                AckDataView::DispatchMigrate(DispatchMigrateResponseView { result, job_id }),
            ),
        ),
    }
}

/// An address or an error over sequences of characters.
pub open spec fn given_address(address: Result<String, ContractError>) -> Result<
    Seq<char>,
    ContractErrorView,
> {
    match address {
        Ok(text) => Ok(text@),
        Err(e) => Err(e.deep_view()),
    }
}

/// What the completion of an instantiation does, given the address of the
/// created contract or the reason why there is none. It empties the pending
/// slot. With nothing pending it fails. With a reason in place of an address
/// it fails for that reason. With an address and a sender that has an
/// account, it fails because one is registered. In all these cases the
/// registry stays as it was. With an address and a sender that has no
/// account, it registers the address and acknowledges it.
pub open spec fn instantiation_completed(
    before: Store,
    after: Store,
    address: Result<Seq<char>, ContractErrorView>,
    answer: Result<Response, ContractError>,
) -> bool {
    &&& after.pending() is None
    &&& match before.pending() {
        None => {
            &&& after.accounts() == before.accounts()
            &&& answer matches Err(ContractError::Std(e)) && e is NotFound
        },
        Some(info) => match address {
            Err(reason) => {
                &&& after.accounts() == before.accounts()
                &&& answer matches Err(e) && e.deep_view() == reason
            },
            Ok(account) => if before.accounts().contains_key(info.key()) {
                &&& after.accounts() == before.accounts()
                &&& answer == Err::<Response, ContractError>(
                    ContractError::ChannelAlreadyRegistered,
                )
            } else {
                &&& after.accounts() == before.accounts().insert(info.key(), account)
                &&& answer matches Ok(response) && response.deep_view() == instantiated(
                    account,
                    info,
                )
            },
        },
    }
}

/// The address that a reply announces, or the error that it announces none.
pub open spec fn announced_address(result: SubMsgResultView) -> Result<
    Seq<char>,
    ContractErrorView,
> {
    match instantiated_address(result) {
        Ok(account) => Ok(account),
        Err(error) => Err(ContractErrorView::ParseReply(error)),
    }
}

/// What the reply to an instantiation does: what its completion does with
/// the address that the reply announces.
pub open spec fn instantiation_replied(
    before: Store,
    after: Store,
    result: SubMsgResultView,
    answer: Result<Response, ContractError>,
) -> bool {
    instantiation_completed(before, after, announced_address(result), answer)
}

/// What the reply to a dispatch or to a migration does. It empties the
/// pending slot and leaves the registry as it was. With nothing pending it
/// fails. Otherwise it acknowledges with how the call ended.
pub open spec fn call_replied(
    before: Store,
    after: Store,
    result: SubMsgResultView,
    answer: Result<Response, ContractError>,
) -> bool {
    &&& after.pending() is None
    &&& after.accounts() == before.accounts()
    &&& match before.pending() {
        None => answer matches Err(ContractError::Std(e)) && e is NotFound,
        Some(info) => answer matches Ok(response) && response.deep_view() == relayed(
            result,
            info.job_id,
        ),
    }
}

/// What a reply does, by its id. A reply with an id that no request uses
/// fails and changes nothing.
pub open spec fn replied(
    before: Store,
    after: Store,
    reply: Reply,
    answer: Result<Response, ContractError>,
) -> bool {
    if reply.id == INIT_CALLBACK_ID {
        instantiation_replied(before, after, reply.result.deep_view(), answer)
    } else if reply.id == RECEIVE_DISPATCH_ID || reply.id == MIGRATE_CALLBACK_ID {
        call_replied(before, after, reply.result.deep_view(), answer)
    } else {
        &&& after.accounts() == before.accounts()
        &&& after.pending() == before.pending()
        &&& answer == Err::<Response, ContractError>(ContractError::InvalidReplyId)
    }
}

/// Completes the request in flight with the outcome of its sub-message.
/// An error here fails the whole unit of work: the chain then undoes what
/// the request did so far, the call on the account included, so that no
/// account stays behind unregistered. `failure_ack` gives the
/// acknowledgement that stands for such an error.
pub fn reply(store: &mut Store, msg: Reply) -> (answer: Result<Response, ContractError>)
    ensures
        replied(*old(store), *final(store), msg, answer),
{
    if msg.id == INIT_CALLBACK_ID {
        reply_init_callback(store, msg)
    } else if msg.id == RECEIVE_DISPATCH_ID {
        reply_dispatch_callback(store, msg)
    } else if msg.id == MIGRATE_CALLBACK_ID {
        reply_migrate_callback(store, msg)
    } else {
        Err(ContractError::InvalidReplyId)
    }
}

/// The address of the contract that the instantiation behind a reply created.
pub fn instantiated_contract(reply: &Reply) -> (address: Result<String, ParseReplyError>)
    ensures
        address_view(address) == instantiated_address(reply.result.deep_view()),
{
    parse_reply_instantiate_data(reply.id, &reply.result)
}

/// Completes an instantiation with what its reply announces.
pub fn reply_init_callback(store: &mut Store, reply: Reply) -> (answer: Result<
    Response,
    ContractError,
>)
    ensures
        instantiation_replied(*old(store), *final(store), reply.result.deep_view(), answer),
{
    let address = match instantiated_contract(&reply) {
        Ok(account) => Ok(account),
        Err(e) => Err(ContractError::ParseReply(e)),
    };
    complete_instantiation(store, address)
}

/// Completes an instantiation, given the address of the created contract or
/// the reason why there is none.
pub fn complete_instantiation(store: &mut Store, address: Result<String, ContractError>) -> (answer:
    Result<Response, ContractError>)
    ensures
        instantiation_completed(*old(store), *final(store), given_address(address), answer),
{
    let info = match store.take_pending() {
        Ok(info) => info,
        Err(e) => {
            return Err(ContractError::Std(e));
        },
    };
    let account = match address {
        Ok(account) => account,
        Err(e) => {
            return Err(e);
        },
    };
    match store.insert_if_absent(
        info.connection_id.as_str(),
        info.port_id.as_str(),
        info.controller.as_str(),
        account.as_str(),
    ) {
        Ok(()) => {},
        Err(e) => {
            return Err(e);
        },
    }
    let tag = info.connection_id.clone().concat("-").concat(info.port_id.as_str()).concat(
        "-",
    ).concat(info.controller.as_str());
    let mut attributes: Vec<Attribute> = Vec::new();
    attributes.push(Attribute::new("contract_addr", account.as_str()));
    attributes.push(Attribute::new("Controller", tag.as_str()));
    let event = Event { ty: "ica-tunnel.V1.MsgICAInstantiated".to_owned(), attributes };
    let mut events: Vec<Event> = Vec::new();
    let ghost event_view = event.deep_view();
    events.push(event);
    let data = Acknowledgement::Success(
        AckData::Instantiate(InstantiateResponse { contract_address: account, job_id: info.job_id }),
    );
    let response = Response { messages: Vec::new(), events, data: Some(data) };
    proof {
        assert(event_view.attributes =~= seq![
            AttributeView { key: "contract_addr"@, value: account@ },
            AttributeView { key: "Controller"@, value: sender_tag(info.deep_view().key()) },
        ]);
        assert(response.events.deep_view() =~= seq![event_view]);
        assert(response.messages.deep_view() =~= seq![]);
    }
    Ok(response)
}

/// Completes a dispatch with how the call on the account ended.
pub fn reply_dispatch_callback(store: &mut Store, reply: Reply) -> (answer: Result<
    Response,
    ContractError,
>)
    ensures
        call_replied(*old(store), *final(store), reply.result.deep_view(), answer),
{
    relay(store, reply)
}

/// Completes a migration with how the call on the account ended.
pub fn reply_migrate_callback(store: &mut Store, reply: Reply) -> (answer: Result<
    Response,
    ContractError,
>)
    ensures
        call_replied(*old(store), *final(store), reply.result.deep_view(), answer),
{
    relay(store, reply)
}

/// Takes the sender out of the pending slot and acknowledges with how the
/// sub-message ended.
fn relay(store: &mut Store, reply: Reply) -> (answer: Result<Response, ContractError>)
    ensures
        call_replied(*old(store), *final(store), reply.result.deep_view(), answer),
{
    let info = match store.take_pending() {
        Ok(info) => info,
        Err(e) => {
            return Err(ContractError::Std(e));
        },
    };
    let data = Acknowledgement::Success(
        AckData::DispatchMigrate(DispatchMigrateResponse { result: reply.result, job_id: info.job_id }),
    );
    let response = Response { messages: Vec::new(), events: Vec::new(), data: Some(data) };
    proof {
        assert(response.events.deep_view() =~= seq![]);
        assert(response.messages.deep_view() =~= seq![]);
    }
    Ok(response)
}

/// Whether every account of `before` is an account of `after`, under the
/// same key and with the same address.
pub open spec fn keeps_accounts(before: Store, after: Store) -> bool {
    forall|key: AccountKey| #[trigger]
        before.accounts().contains_key(key) ==> after.accounts().contains_key(key)
            && after.accounts()[key] == before.accounts()[key]
}

/// The receipt of a packet leaves the registry as it is: an account is
/// registered only when an instantiation completes.
pub proof fn lemma_receipt_keeps_registry(
    before: Store,
    after: Store,
    env: Env,
    msg: IbcPacketReceiveMsg,
    response: IbcReceiveResponseView,
)
    requires
        received(before, after, env, msg, response),
    ensures
        after.accounts() == before.accounts(),
{
}

/// A reply never changes nor removes an account: the registry only grows.
pub proof fn lemma_reply_keeps_accounts(
    before: Store,
    after: Store,
    msg: Reply,
    answer: Result<Response, ContractError>,
)
    requires
        replied(before, after, msg, answer),
    ensures
        keeps_accounts(before, after),
{
}

/// The completion of an instantiation never changes nor removes an account.
pub proof fn lemma_completion_keeps_accounts(
    before: Store,
    after: Store,
    address: Result<Seq<char>, ContractErrorView>,
    answer: Result<Response, ContractError>,
)
    requires
        instantiation_completed(before, after, address, answer),
    ensures
        keeps_accounts(before, after),
{
}

/// The completion of an instantiation for a sender that has an account
/// fails with the error that one is registered, and leaves the registry as
/// it is.
pub proof fn lemma_registered_sender_is_refused(
    before: Store,
    after: Store,
    account: Seq<char>,
    answer: Result<Response, ContractError>,
)
    requires
        instantiation_completed(before, after, Ok(account), answer),
        before.pending() matches Some(info) && before.accounts().contains_key(info.key()),
    ensures
        answer == Err::<Response, ContractError>(ContractError::ChannelAlreadyRegistered),
        after.accounts() == before.accounts(),
{
}

/// After an instantiation has completed well for a sender, one that
/// completes for the same sender is refused, whatever was received or
/// replied in between, and the sender keeps the first account.
pub proof fn lemma_second_instantiation_is_refused(
    start: Store,
    registered: Store,
    later: Store,
    end: Store,
    first: Seq<char>,
    first_answer: Result<Response, ContractError>,
    second: Seq<char>,
    second_answer: Result<Response, ContractError>,
)
    requires
        instantiation_completed(start, registered, Ok(first), first_answer),
        first_answer is Ok,
        keeps_accounts(registered, later),
        later.pending() matches Some(info) && info.key() == start.pending()->Some_0.key(),
        instantiation_completed(later, end, Ok(second), second_answer),
    ensures
        second_answer == Err::<Response, ContractError>(ContractError::ChannelAlreadyRegistered),
        end.accounts() == later.accounts(),
        end.accounts()[start.pending()->Some_0.key()] == first,
{
    let key = start.pending()->Some_0.key();
    assert(registered.accounts().contains_key(key));
}

/// Where an instantiation completes well, the address that it acknowledges
/// is the address that the registry holds for the sender afterwards.
pub proof fn lemma_acknowledged_address_is_registered(
    before: Store,
    after: Store,
    address: Result<Seq<char>, ContractErrorView>,
    answer: Result<Response, ContractError>,
)
    requires
        instantiation_completed(before, after, address, answer),
        answer is Ok,
    ensures
        before.pending() is Some,
        address is Ok,
        after.accounts().contains_key(before.pending()->Some_0.key()),
        answer->Ok_0.deep_view().data == Some(
            AcknowledgementView::Success(
                AckDataView::Instantiate(
                    InstantiateResponseView {
                        contract_address: after.accounts()[before.pending()->Some_0.key()],
                        job_id: before.pending()->Some_0.job_id,
                    },
                ),
            ),
        ),
{
}

/// The controller that a packet speaks for.
pub open spec fn controller_of(packet: PacketMsgView) -> Seq<char> {
    match packet {
        PacketMsgView::Instantiate { controller, .. } => controller,
        PacketMsgView::Migrate { controller, .. } => controller,
        PacketMsgView::Dispatch { controller, .. } => controller,
        PacketMsgView::WhoAmI { controller } => controller,
    }
}

/// A packet that asks for the account of a sender without one, or for a
/// migration or a dispatch on it, is acknowledged at once as a failure, with
/// the error that nothing is found; it sends no call and changes no state.
pub proof fn lemma_unregistered_sender_is_refused(
    before: Store,
    after: Store,
    env: Env,
    msg: IbcPacketReceiveMsg,
    response: IbcReceiveResponseView,
)
    requires
        received(before, after, env, msg, response),
        msg.data matches Ok(packet) && !(packet is Instantiate),
        msg.channel matches Ok(Some(connection)) && !before.accounts().contains_key(
            (connection@, msg.src_port_id@, controller_of(msg.data->Ok_0.deep_view())),
        ),
    ensures
        fails_not_found(response),
        response.acknowledgement matches Some(AcknowledgementView::Failure(_)),
        response.messages.len() == 0,
        after.accounts() == before.accounts(),
        after.pending() == before.pending(),
{
    let kind = choose|kind: Seq<char>| response == #[trigger] not_found(kind);
    assert(response == not_found(kind));
}

/// A received packet is acknowledged once: at once, and then no call is
/// sent, or by the reply to the one call that is sent.
pub proof fn lemma_receipt_acknowledges_once(
    before: Store,
    after: Store,
    env: Env,
    msg: IbcPacketReceiveMsg,
    response: IbcReceiveResponseView,
)
    requires
        received(before, after, env, msg, response),
    ensures
        response.acknowledgement is Some ==> response.messages.len() == 0 && after.pending()
            == before.pending(),
        response.acknowledgement is None ==> response.messages.len() == 1 && after.pending() is Some,
{
    if fails_not_found(response) {
        let kind = choose|kind: Seq<char>| response == #[trigger] not_found(kind);
        assert(response == not_found(kind));
    }
}

/// A reply that succeeds carries the acknowledgement of the request that it
/// completes, and leaves nothing pending.
pub proof fn lemma_reply_acknowledges(
    before: Store,
    after: Store,
    msg: Reply,
    answer: Result<Response, ContractError>,
)
    requires
        replied(before, after, msg, answer),
        answer is Ok,
    ensures
        answer->Ok_0.deep_view().data is Some,
        before.pending() is Some,
        after.pending() is None,
{
}

} // verus!
