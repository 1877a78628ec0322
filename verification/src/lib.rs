//! Processing core of a small network protocol stack.
//!
//! A single device buffer is reinterpreted in place as it passes from the
//! device through the link, network and transport layers and back.  Each
//! layer follows the same packet lifecycle: a raw buffer is prepared into an
//! outgoing packet, an incoming packet is parsed and validated, and a
//! received packet can be reinitialised in place to answer without copying.
//!
//! The crate is organised leaves first: [`payload`] holds the byte buffer
//! capability, [`wire`] the address and header formats, [`nic`] the bounded
//! device interface with its flow-control handle, [`eth`] the link layer
//! endpoint, [`ip`] and [`udp`] the network and transport packet protocols,
//! and [`route`] the longest-prefix-match routing table.

use vstd::prelude::*;

pub mod payload;
pub mod time;
pub mod wire;
pub mod route;
pub mod nic;
pub mod eth;
pub mod ip;
pub mod udp;

verus! {

/// Errors surfaced by every layer of the stack.
///
/// Lower layers return these through `prepare`/`send` unchanged in kind, so
/// a caller several layers up sees exactly this taxonomy and need not know
/// which layer produced the value.
#[derive(Clone, Copy, Debug, PartialEq, Eq, Hash, Structural)]
pub enum Error {
    /// The operation was not permitted.
    ///
    /// Returned when the device, endpoint, receiver or sender does not allow
    /// or implement an operation.
    Illegal,
    /// Not enough space for the requested packet.
    ///
    /// Also returned when resizing a packet buffer cannot satisfy the
    /// requested length.  In contrast to `Illegal` a smaller size may work.
    BadSize,
    /// Unable to find a route towards the destination address.
    Unreachable,
    /// The action could not be completed because there were not enough
    /// resources.
    ///
    /// Unlike `Illegal` this implies the same action would have been legal
    /// with more resources: the caller may free some and retry.
    Exhausted,
}

/// A standard wrapper for a plain function used as a receive or send handler.
///
/// Keeps the type alias overhead low by providing a single wrapper type that
/// implements the handler traits for all layers, where applicable.
pub struct FnHandler<F>(pub F);

/// Can convert from a wire error.
///
/// This indicates some layer tried to operate on a packet but failed.
impl core::convert::From<wire::WireError> for Error {
    fn from(_e: wire::WireError) -> (r: Error) {
        Error::Illegal
    }
}

impl vstd::std_specs::convert::FromSpecImpl<wire::WireError> for Error {
    open spec fn obeys_from_spec() -> bool {
        true
    }

    open spec fn from_spec(e: wire::WireError) -> Error {
        Error::Illegal
    }
}

/// Can convert from a payload error.
///
/// One common cause is failure to resize the buffer to the necessary size.
impl core::convert::From<payload::PayloadError> for Error {
    fn from(e: payload::PayloadError) -> (r: Error) {
        match e {
            payload::PayloadError::BadSize => Error::BadSize,
        }
    }
}

impl vstd::std_specs::convert::FromSpecImpl<payload::PayloadError> for Error {
    open spec fn obeys_from_spec() -> bool {
        true
    }

    open spec fn from_spec(e: payload::PayloadError) -> Error {
        Error::BadSize
    }
}

} // verus!
