//! Errors of the tunnel contract.

use vstd::prelude::*;
use vstd::string::*;
use crate::checks::{ChannelError, ChannelErrorView};

verus! {

/// A failure of the storage, of decoding, or of a query to the chain.
#[derive(Clone, Debug, PartialEq, Eq)]
pub enum StdError {
    /// Nothing is stored where a value was expected; `kind` describes the missing object.
    NotFound { kind: String },
    /// Any other failure, with the text that was given for it.
    Other { message: String },
}

/// A `StdError` over sequences of characters.
pub enum StdErrorView {
    NotFound { kind: Seq<char> },
    Other { message: Seq<char> },
}

impl DeepView for StdError {
    type V = StdErrorView;

    open spec fn deep_view(&self) -> StdErrorView {
        match self {
            StdError::NotFound { kind } => StdErrorView::NotFound { kind: kind@ },
            StdError::Other { message } => StdErrorView::Other { message: message@ },
        }
    }
}

impl StdError {
    /// The text of the error.
    pub open spec fn message_text(&self) -> Seq<char> {
        match self {
            StdError::NotFound { kind } => kind@ + " not found"@,
            StdError::Other { message } => message@,
        }
    }

    /// Renders the error as text.
    pub fn message(&self) -> (text: String)
        ensures
            text@ == self.message_text(),
    {
        match self {
            StdError::NotFound { kind } => kind.clone().concat(" not found"),
            StdError::Other { message } => message.clone(),
        }
    }
}

/// Why the data of an instantiation reply could not be read.
#[derive(Clone, Debug, PartialEq, Eq)]
pub enum ParseReplyError {
    /// The sub-message itself failed, with this text.
    SubMsgFailure(String),
    /// The reply carries no data, or data of another shape.
    ParseFailure(String),
    /// The address in the reply is not UTF-8.
    BrokenUtf8,
}

/// A `ParseReplyError` over sequences of characters.
pub enum ParseReplyErrorView {
    SubMsgFailure(Seq<char>),
    ParseFailure(Seq<char>),
    BrokenUtf8,
}

impl DeepView for ParseReplyError {
    type V = ParseReplyErrorView;

    open spec fn deep_view(&self) -> ParseReplyErrorView {
        match self {
            ParseReplyError::SubMsgFailure(text) => ParseReplyErrorView::SubMsgFailure(text@),
            ParseReplyError::ParseFailure(text) => ParseReplyErrorView::ParseFailure(text@),
            ParseReplyError::BrokenUtf8 => ParseReplyErrorView::BrokenUtf8,
        }
    }
}

impl ParseReplyError {
    /// The text of the error.
    pub open spec fn message_text(&self) -> Seq<char> {
        match self {
            ParseReplyError::SubMsgFailure(text) => "Failure response from sub-message: "@ + text@,
            ParseReplyError::ParseFailure(text) => "Invalid reply from sub-message: "@ + text@,
            ParseReplyError::BrokenUtf8 => "Error occurred while converting from UTF-8"@,
        }
    }

    /// Renders the error as text.
    pub fn message(&self) -> (text: String)
        ensures
            text@ == self.message_text(),
    {
        match self {
            ParseReplyError::SubMsgFailure(text) => {
                "Failure response from sub-message: ".to_owned().concat(text.as_str())
            },
            ParseReplyError::ParseFailure(text) => {
                "Invalid reply from sub-message: ".to_owned().concat(text.as_str())
            },
            ParseReplyError::BrokenUtf8 => "Error occurred while converting from UTF-8".to_owned(),
        }
    }
}

/// Every way in which an entry point of the contract fails.
#[derive(Clone, Debug, PartialEq, Eq)]
pub enum ContractError {
    /// A storage or decoding failure.
    Std(StdError),
    /// The reply to an instantiation could not be read.
    ParseReply(ParseReplyError),
    /// The channel was refused at the handshake.
    ChannelError(ChannelError),
    /// An account is already registered for the sender.
    ChannelAlreadyRegistered,
    /// A reply came with an id that no request uses.
    InvalidReplyId,
    /// The channel of a packet has no connection.
    InvalidConnectionId,
    /// Reserved for the authorization of controllers.
    Unauthorized,
}

/// A `ContractError` over sequences of characters.
pub enum ContractErrorView {
    Std(StdErrorView),
    ParseReply(ParseReplyErrorView),
    ChannelError(ChannelErrorView),
    ChannelAlreadyRegistered,
    InvalidReplyId,
    InvalidConnectionId,
    Unauthorized,
}

impl DeepView for ContractError {
    type V = ContractErrorView;

    open spec fn deep_view(&self) -> ContractErrorView {
        match self {
            ContractError::Std(e) => ContractErrorView::Std(e.deep_view()),
            ContractError::ParseReply(e) => ContractErrorView::ParseReply(e.deep_view()),
            ContractError::ChannelError(e) => ContractErrorView::ChannelError(e.deep_view()),
            ContractError::ChannelAlreadyRegistered => ContractErrorView::ChannelAlreadyRegistered,
            ContractError::InvalidReplyId => ContractErrorView::InvalidReplyId,
            ContractError::InvalidConnectionId => ContractErrorView::InvalidConnectionId,
            ContractError::Unauthorized => ContractErrorView::Unauthorized,
        }
    }
}

impl ContractError {
    /// The text of the error.
    pub open spec fn message_text(&self) -> Seq<char> {
        match self {
            ContractError::Std(e) => e.message_text(),
            ContractError::ParseReply(e) => e.message_text(),
            ContractError::ChannelError(e) => e.message_text(),
            ContractError::ChannelAlreadyRegistered => {
                "Cannot register over an existing channel: account already registered"@
            },
            ContractError::InvalidReplyId => "Invalid reply id"@,
            ContractError::InvalidConnectionId => "Invalid Connection Id"@,
            ContractError::Unauthorized => "Unauthorized"@,
        }
    }

    /// Renders the error as text.
    pub fn message(&self) -> (text: String)
        ensures
            text@ == self.message_text(),
    {
        match self {
            ContractError::Std(e) => e.message(),
            ContractError::ParseReply(e) => e.message(),
            ContractError::ChannelError(e) => e.message(),
            ContractError::ChannelAlreadyRegistered => {
                "Cannot register over an existing channel: account already registered".to_owned()
            },
            ContractError::InvalidReplyId => "Invalid reply id".to_owned(),
            ContractError::InvalidConnectionId => "Invalid Connection Id".to_owned(),
            ContractError::Unauthorized => "Unauthorized".to_owned(),
        }
    }
}

} // verus!
