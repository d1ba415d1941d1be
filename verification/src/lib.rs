//! A client library for the TR-064/UPnP interface of AVM Fritz!Box
//! gateways: finding a gateway by SSDP search, building the HTTP requests
//! that fetch its descriptions and call its actions, judging the answers,
//! and combining the device and service descriptions into an overview.
//!
//! The library computes; sending requests and reading sockets is left to
//! the caller.
use vstd::prelude::*;

pub mod error;
pub mod gateway;
pub mod host;
pub mod request;
pub mod request_helper;
pub mod services;
pub mod text;

pub use error::Error;
pub use gateway::{Gateway, GatewayBuilder};
pub use host::HostName;

verus! {

/// Protocol scheme used to talk to a gateway.
#[derive(Clone, Copy, Debug, PartialEq, Eq, Structural)]
pub enum Scheme {
    HTTP,
    HTTPS,
}

impl Default for Scheme {
    fn default() -> (s: Self)
        ensures
            s == Scheme::HTTP,
    {
        Scheme::HTTP
    }
}

} // verus!
