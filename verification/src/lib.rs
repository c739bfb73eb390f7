//! Verified core of an IBC tunnel: a controller chain drives delegate
//! contracts on a remote chain through acknowledged packets.

pub mod checks;
pub mod contract;
pub mod error;
pub mod host;
pub mod msg;
pub mod order;
pub mod page;
pub mod remote;
pub mod runtime;
pub mod state;
