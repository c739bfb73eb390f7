//! Constraints that a channel must meet to be opened.

use vstd::prelude::*;
use vstd::string::*;
use cosmwasm_std::IbcOrder;

verus! {

/// `cosmwasm_std::IbcOrder`: whether a channel is ordered or not.
#[verifier::external_type_specification]
pub struct ExIbcOrder(cosmwasm_std::IbcOrder);

/// The application version that both ends of a channel must speak.
pub const IBC_APP_VERSION: &'static str = "cw-tunnel-v1";

/// Seconds after which a sent packet times out.
pub const PACKET_LIFETIME: u64 = 3600;

/// The only ordering that the tunnel accepts.
pub const APP_ORDER: IbcOrder = IbcOrder::Unordered;

/// The ordering that the tunnel refuses.
pub const BAD_APP_ORDER: IbcOrder = IbcOrder::Ordered;

/// Why a channel is refused at the handshake.
#[derive(Clone, Debug, PartialEq, Eq)]
pub enum ChannelError {
    /// The channel is not unordered.
    InvalidChannelOrder,
    /// The counterparty speaks another version than the one held here.
    InvalidChannelVersion(String),
}

/// A `ChannelError` over sequences of characters.
pub enum ChannelErrorView {
    InvalidChannelOrder,
    InvalidChannelVersion(Seq<char>),
}

impl DeepView for ChannelError {
    type V = ChannelErrorView;

    open spec fn deep_view(&self) -> ChannelErrorView {
        match self {
            ChannelError::InvalidChannelOrder => ChannelErrorView::InvalidChannelOrder,
            ChannelError::InvalidChannelVersion(expected) => ChannelErrorView::InvalidChannelVersion(
                expected@,
            ),
        }
    }
}

impl ChannelError {
    /// The text of the error.
    pub open spec fn message_text(&self) -> Seq<char> {
        match self {
            ChannelError::InvalidChannelOrder => "Only supports unordered channels"@,
            ChannelError::InvalidChannelVersion(expected) => "Counterparty version must be '"@
                + expected@ + "'"@,
        }
    }

    /// Renders the error as text.
    pub fn message(&self) -> (text: String)
        ensures
            text@ == self.message_text(),
    {
        match self {
            ChannelError::InvalidChannelOrder => "Only supports unordered channels".to_owned(),
            ChannelError::InvalidChannelVersion(expected) => {
                "Counterparty version must be '".to_owned().concat(expected.as_str()).concat("'")
            },
        }
    }
}

/// Accepts exactly the unordered mode.
pub fn check_order(order: &IbcOrder) -> (checked: Result<(), ChannelError>)
    ensures
        *order == APP_ORDER ==> checked == Ok::<(), ChannelError>(()),
        *order != APP_ORDER ==> checked == Err::<(), ChannelError>(
            ChannelError::InvalidChannelOrder,
        ),
{
    match order {
        IbcOrder::Unordered => Ok(()),
        IbcOrder::Ordered => Err(ChannelError::InvalidChannelOrder),
    }
}

/// Accepts exactly the application version.
pub fn check_version(version: &str) -> (checked: Result<(), ChannelError>)
    ensures
        version@ == IBC_APP_VERSION@ ==> checked == Ok::<(), ChannelError>(()),
        version@ != IBC_APP_VERSION@ ==> (checked matches Err(ChannelError::InvalidChannelVersion(expected))
            && expected@ == IBC_APP_VERSION@),
{
    if version.to_owned() == IBC_APP_VERSION.to_owned() {
        Ok(())
    } else {
        Err(ChannelError::InvalidChannelVersion(IBC_APP_VERSION.to_owned()))
    }
}

} // verus!
