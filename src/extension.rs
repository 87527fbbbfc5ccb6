//! The extension that ships as the default: it ignores the request.
use vstd::prelude::*;

use crate::resolution::{RawResolution, Response};

verus! {

/// The status the default extension answers with.
pub const NOT_FOUND: u16 = 404;

/// Entry point of the default extension: answers every request with
/// `404` and no body.
pub fn handle() -> (r: RawResolution)
    ensures
        r == RawResolution::Respond(Response { status_code: 404, body: None }),
{
    RawResolution::Respond(Response { status_code: NOT_FOUND, body: None })
}

} // verus!
