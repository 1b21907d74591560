//! An event-oriented messaging layer over a duplex socket: frames of the
//! form `<nonce><JSON array>` are decoded into events, dispatched to named
//! handlers, and answered; a heartbeat monitor drops silent peers.

use vstd::prelude::*;

pub mod client;
pub mod codec;
pub mod config;
pub mod dispatch;
pub mod handler;
pub mod heartbeat;
pub mod json;
pub mod registry;

verus! {

} // verus!
