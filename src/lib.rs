//! Client side of an authenticated, encrypted command/response protocol for a
//! hardware security module: the secure channel (key derivation, handshake
//! cryptograms, per-message encryption and MAC chaining), the session
//! lifecycle, the wire framing of commands and responses, the error kinds of
//! each tier, object filters, wrap keys and provisioning profiles, and a
//! device simulator for testing.

use vstd::prelude::*;

pub mod algorithm;
pub mod be;
pub mod client;
pub mod command;
pub mod connector;
pub mod error;
pub mod filter;
pub mod mockhsm;
pub mod object;
pub mod response;
pub mod securechannel;
pub mod session;
pub mod setup;
pub mod wrap;

verus! {

} // verus!
