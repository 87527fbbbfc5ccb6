//! The gateway: where inbound traffic is served, and what a client gets
//! when no resolution can be dispatched.
use vstd::prelude::*;

use crate::configuration::gateway::Configuration;
use crate::request::Request;
use crate::resolution::{Resolution, Response, RuntimeFault};

verus! {

/// The status served when an invocation faulted.
pub const INTERNAL_SERVER_ERROR: u16 = 500;

/// The status served when the upstream could not be reached.
pub const BAD_GATEWAY: u16 = 502;

pub struct Gateway {
    port: u16,
}

impl Gateway {
    pub fn new(configuration: &Configuration) -> (r: Gateway)
        ensures
            r.port() == configuration.port,
    {
        Gateway { port: configuration.port }
    }

    pub closed spec fn port_spec(&self) -> u16 {
        self.port
    }

    /// The port the gateway listens on.
    #[verifier::when_used_as_spec(port_spec)]
    pub fn port(&self) -> (r: u16)
        ensures
            r == self.port_spec(),
    {
        self.port
    }
}

/// The body served in place of a faulted invocation's resolution. A fault
/// is never turned into a forward.
pub fn internal_error_body(fault: &RuntimeFault) -> (r: String)
    ensures
        r@ == "Internal Server Error: "@ + fault.text(),
{
    String::from_str("Internal Server Error: ").concat(fault.message().as_str())
}

/// The body served when a forwarded request could not reach its
/// destination.
pub fn bad_gateway_body(reason: &str) -> (r: String)
    ensures
        r@ == "Failed to connect to destination: "@ + reason@,
{
    String::from_str("Failed to connect to destination: ").concat(reason)
}

/// What the gateway does with an invocation's outcome.
#[derive(Debug, PartialEq, Eq)]
pub enum Dispatch {
    /// Send the request upstream.
    Upstream(Request),
    /// Serve the extension's response as it is.
    Reply(Response),
    /// Serve an error status with a message.
    Failure { status_code: u16, message: String },
}

/// The gateway's decision on an outcome: a forward goes upstream, a
/// response is served, a fault becomes `500` and is never forwarded.
pub fn dispatch(outcome: Result<Resolution, RuntimeFault>) -> (r: Dispatch)
    ensures
        match outcome {
            Ok(Resolution::Forward(q)) => r == Dispatch::Upstream(q),
            Ok(Resolution::Respond(response)) => r == Dispatch::Reply(response),
            Err(f) => r matches Dispatch::Failure { status_code, message } && status_code == 500
                && message@ == "Internal Server Error: "@ + f.text(),
        },
{
    match outcome {
        Ok(Resolution::Forward(q)) => Dispatch::Upstream(q),
        Ok(Resolution::Respond(response)) => Dispatch::Reply(response),
        Err(f) => Dispatch::Failure {
            status_code: INTERNAL_SERVER_ERROR,
            message: internal_error_body(&f),
        },
    }
}

/// The decision when a forwarded request could not reach its destination.
pub fn upstream_failure(reason: &str) -> (r: Dispatch)
    ensures
        r matches Dispatch::Failure { status_code, message } && status_code == 502 && message@
            == "Failed to connect to destination: "@ + reason@,
{
    Dispatch::Failure { status_code: BAD_GATEWAY, message: bad_gateway_body(reason) }
}

} // verus!
