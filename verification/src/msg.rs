//! Messages of the tunnel: what callers send to the contract, what travels in
//! a packet, and what comes back in an acknowledgement.

use vstd::prelude::*;
use cosmwasm_std::CosmosMsg;
use crate::runtime::{SubMsgResult, SubMsgResultView};

verus! {

/// Sets the contract up.
#[derive(Clone, Debug, PartialEq, Eq)]
pub struct InstantiateMsg {
    pub init: u64,
}

/// What a controller asks the host side to send over the channel `channel_id`.
#[derive(Debug, PartialEq)]
pub enum ExecuteMsg {
    RemoteInstantiate { inst_msg: CosmosMsg, job_id: Option<String>, code_id: u64, channel_id: String },
    RemoteMigrate { migrate_msg: CosmosMsg, job_id: Option<String>, new_code_id: u64, channel_id: String },
    RemoteDispatch { dispatch_msg: CosmosMsg, job_id: Option<String>, channel_id: String },
    QueryRemoteAddr { channel_id: String },
}

/// What can be read from the remote side.
#[derive(Clone, Debug, PartialEq, Eq)]
pub enum QueryMsg {
    /// The account of one controller.
    Account { connection_id: String, port_id: String, controller: String },
    /// A page of the accounts in the order of their keys, after the key
    /// `start_after` where one is given.
    ListAccounts { start_after: Option<(String, String, String)>, limit: Option<u64> },
}

/// The account of a controller.
#[derive(Clone, Debug, PartialEq, Eq)]
pub struct AccountResponse {
    pub account: Option<String>,
}

/// A page of accounts.
#[derive(Clone, Debug, PartialEq, Eq)]
pub struct ListAccountsResponse {
    pub accounts: Vec<AccountInfo>,
}

/// The answer to a query.
#[derive(Clone, Debug, PartialEq, Eq)]
pub enum QueryResponse {
    Account(AccountResponse),
    ListAccounts(ListAccountsResponse),
}

/// An account with the key it is registered under.
#[derive(Clone, Debug, PartialEq, Eq)]
pub struct AccountInfo {
    pub account: String,
    pub connection: String,
    pub port: String,
    pub controller: String,
}

/// An `AccountInfo` over sequences of characters.
pub struct AccountInfoView {
    pub account: Seq<char>,
    pub connection: Seq<char>,
    pub port: Seq<char>,
    pub controller: Seq<char>,
}

impl AccountInfoView {
    /// The key that the account is registered under.
    pub open spec fn key(self) -> (Seq<char>, Seq<char>, Seq<char>) {
        (self.connection, self.port, self.controller)
    }
}

impl DeepView for AccountInfo {
    type V = AccountInfoView;

    open spec fn deep_view(&self) -> AccountInfoView {
        AccountInfoView {
            account: self.account@,
            connection: self.connection@,
            port: self.port@,
            controller: self.controller@,
        }
    }
}

/// What travels in a packet, from the host side to the remote side.
#[derive(Debug, PartialEq)]
pub enum PacketMsg {
    Instantiate { controller: String, inst_msg: CosmosMsg, job_id: Option<String>, code_id: u64 },
    Migrate { controller: String, migration_msg: CosmosMsg, new_code_id: u64, job_id: Option<String> },
    Dispatch { controller: String, msg: CosmosMsg, job_id: Option<String> },
    WhoAmI { controller: String },
}

/// A `PacketMsg` over sequences of characters.
pub enum PacketMsgView {
    Instantiate { controller: Seq<char>, inst_msg: CosmosMsg, job_id: Option<Seq<char>>, code_id: u64 },
    Migrate { controller: Seq<char>, migration_msg: CosmosMsg, new_code_id: u64, job_id: Option<Seq<char>> },
    Dispatch { controller: Seq<char>, msg: CosmosMsg, job_id: Option<Seq<char>> },
    WhoAmI { controller: Seq<char> },
}

impl DeepView for PacketMsg {
    type V = PacketMsgView;

    open spec fn deep_view(&self) -> PacketMsgView {
        match self {
            PacketMsg::Instantiate { controller, inst_msg, job_id, code_id } => PacketMsgView::Instantiate {
                controller: controller@,
                inst_msg: *inst_msg,
                job_id: job_id.deep_view(),
                code_id: *code_id,
            },
            PacketMsg::Migrate { controller, migration_msg, new_code_id, job_id } => PacketMsgView::Migrate {
                controller: controller@,
                migration_msg: *migration_msg,
                new_code_id: *new_code_id,
                job_id: job_id.deep_view(),
            },
            PacketMsg::Dispatch { controller, msg, job_id } => PacketMsgView::Dispatch {
                controller: controller@,
                msg: *msg,
                job_id: job_id.deep_view(),
            },
            PacketMsg::WhoAmI { controller } => PacketMsgView::WhoAmI { controller: controller@ },
        }
    }
}

/// What the acknowledgement of an instantiation carries.
#[derive(Clone, Debug, PartialEq, Eq)]
pub struct InstantiateResponse {
    pub contract_address: String,
    pub job_id: Option<String>,
}

/// An `InstantiateResponse` over sequences of characters.
pub struct InstantiateResponseView {
    pub contract_address: Seq<char>,
    pub job_id: Option<Seq<char>>,
}

impl DeepView for InstantiateResponse {
    type V = InstantiateResponseView;

    open spec fn deep_view(&self) -> InstantiateResponseView {
        InstantiateResponseView {
            contract_address: self.contract_address@,
            job_id: self.job_id.deep_view(),
        }
    }
}

/// What the acknowledgement of a dispatch or of a migration carries: how the
/// call on the account ended, whether well or not.
#[derive(Clone, Debug, PartialEq, Eq)]
pub struct DispatchMigrateResponse {
    pub result: SubMsgResult,
    pub job_id: Option<String>,
}

/// A `DispatchMigrateResponse` over sequences.
pub struct DispatchMigrateResponseView {
    pub result: SubMsgResultView,
    pub job_id: Option<Seq<char>>,
}

impl DeepView for DispatchMigrateResponse {
    type V = DispatchMigrateResponseView;

    open spec fn deep_view(&self) -> DispatchMigrateResponseView {
        DispatchMigrateResponseView {
            result: self.result.deep_view(),
            job_id: self.job_id.deep_view(),
        }
    }
}

/// What the acknowledgement of `PacketMsg::WhoAmI` carries: the caller's
/// account on the remote chain.
#[derive(Clone, Debug, PartialEq, Eq)]
pub struct WhoAmIResponse {
    pub account: String,
}

/// A `WhoAmIResponse` over sequences of characters.
pub struct WhoAmIResponseView {
    pub account: Seq<char>,
}

impl DeepView for WhoAmIResponse {
    type V = WhoAmIResponseView;

    open spec fn deep_view(&self) -> WhoAmIResponseView {
        WhoAmIResponseView { account: self.account@ }
    }
}

/// What a successful acknowledgement carries, by the kind of request.
#[derive(Clone, Debug, PartialEq, Eq)]
pub enum AckData {
    Instantiate(InstantiateResponse),
    DispatchMigrate(DispatchMigrateResponse),
    WhoAmI(WhoAmIResponse),
}

/// An `AckData` over sequences.
pub enum AckDataView {
    Instantiate(InstantiateResponseView),
    DispatchMigrate(DispatchMigrateResponseView),
    WhoAmI(WhoAmIResponseView),
}

impl DeepView for AckData {
    type V = AckDataView;

    open spec fn deep_view(&self) -> AckDataView {
        match self {
            AckData::Instantiate(response) => AckDataView::Instantiate(response.deep_view()),
            AckData::DispatchMigrate(response) => AckDataView::DispatchMigrate(
                response.deep_view(),
            ),
            AckData::WhoAmI(response) => AckDataView::WhoAmI(response.deep_view()),
        }
    }
}

/// The acknowledgement of a packet: what the request gave, or why the tunnel
/// could not carry it out.
#[derive(Clone, Debug, PartialEq, Eq)]
pub enum Acknowledgement {
    Success(AckData),
    Failure(String),
}

/// An `Acknowledgement` over sequences.
pub enum AcknowledgementView {
    Success(AckDataView),
    Failure(Seq<char>),
}

impl DeepView for Acknowledgement {
    type V = AcknowledgementView;

    open spec fn deep_view(&self) -> AcknowledgementView {
        match self {
            Acknowledgement::Success(data) => AcknowledgementView::Success(data.deep_view()),
            Acknowledgement::Failure(text) => AcknowledgementView::Failure(text@),
        }
    }
}

/// The envelope of an acknowledgement on the wire: the bytes of what a
/// request gave, or the text of an error.
#[derive(Clone, Debug, PartialEq, Eq)]
pub enum StdAck {
    Result(Vec<u8>),
    Error(String),
}

/// A `StdAck` over sequences.
pub enum StdAckView {
    Result(Seq<u8>),
    Error(Seq<char>),
}

impl DeepView for StdAck {
    type V = StdAckView;

    open spec fn deep_view(&self) -> StdAckView {
        match self {
            StdAck::Result(data) => StdAckView::Result(data@),
            StdAck::Error(text) => StdAckView::Error(text@),
        }
    }
}

/// The JSON document that stands for an envelope on the wire.
pub uninterp spec fn ack_json(ack: StdAckView) -> Seq<u8>;

/// `cosmwasm_std::StdAck::to_binary`: the envelope as JSON, an object with the
/// one member `result` or `error`.
#[verifier::external_body]
fn std_ack_to_binary(ack: &StdAck) -> (bytes: Vec<u8>)
    ensures
        bytes@ == ack_json(ack.deep_view()),
{
    let envelope = match ack {
        StdAck::Result(data) => cosmwasm_std::StdAck::Success(cosmwasm_std::Binary(data.clone())),
        StdAck::Error(text) => cosmwasm_std::StdAck::Error(text.clone()),
    };
    envelope.to_binary().0
}

impl StdAck {
    /// The bytes of the envelope that says the request gave `data`.
    pub fn success(data: Vec<u8>) -> (bytes: Vec<u8>)
        ensures
            bytes@ == ack_json(StdAckView::Result(data@)),
    {
        StdAck::Result(data).ack()
    }

    /// The bytes of the envelope that says the request failed with `err`.
    pub fn fail(err: String) -> (bytes: Vec<u8>)
        ensures
            bytes@ == ack_json(StdAckView::Error(err@)),
    {
        StdAck::Error(err).ack()
    }

    /// The bytes of the envelope.
    pub fn ack(&self) -> (bytes: Vec<u8>)
        ensures
            bytes@ == ack_json(self.deep_view()),
    {
        std_ack_to_binary(self)
    }

    /// What the request gave.
    pub fn unwrap(self) -> (data: Vec<u8>)
        requires
            self is Result,
        ensures
            self == StdAck::Result(data),
    {
        match self {
            StdAck::Result(data) => data,
            StdAck::Error(_) => {
                proof {
                    assert(false);
                }
                Vec::new()
            },
        }
    }

    /// The text of the error.
    pub fn unwrap_err(self) -> (text: String)
        requires
            self is Error,
        ensures
            self == StdAck::Error(text),
    {
        match self {
            StdAck::Result(_) => {
                proof {
                    assert(false);
                }
                String::new()
            },
            StdAck::Error(text) => text,
        }
    }
}

} // verus!
