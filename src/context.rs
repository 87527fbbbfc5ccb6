//! The execution context of one invocation and the capability calls through
//! which an extension reads and changes the request bound to it.
use vstd::prelude::*;

use crate::request::{
    lemma_canonical_name_stored, canonical_header_name, header_name, header_value_accepted, parse_uri, parsed_uri,
    put_header, valid_header_name, valid_header_value, Request, RequestView, headers_view,
};

verus! {

/// Invalid input handed to a capability call. It goes back to the extension
/// as an ordinary value; the invocation goes on.
#[derive(Debug, PartialEq, Eq, Structural)]
pub enum CapabilityError {
    InvalidHeaderName,
    InvalidHeaderValue,
    InvalidUri,
}

impl CapabilityError {
    /// The text handed to the extension.
    pub fn message(&self) -> (r: String)
        ensures
            r@ == self.message_text(),
    {
        proof {
            reveal_strlit("invalid header name");
            reveal_strlit("invalid header value");
            reveal_strlit("invalid uri");
        }
        match self {
            CapabilityError::InvalidHeaderName => String::from_str("invalid header name"),
            CapabilityError::InvalidHeaderValue => String::from_str("invalid header value"),
            CapabilityError::InvalidUri => String::from_str("invalid uri"),
        }
    }

    pub open spec fn message_text(&self) -> Seq<char> {
        match self {
            CapabilityError::InvalidHeaderName => "invalid header name"@,
            CapabilityError::InvalidHeaderValue => "invalid header value"@,
            CapabilityError::InvalidUri => "invalid uri"@,
        }
    }
}

/// The state of one invocation: the request bound as "current". A context
/// is made fresh for each invocation and never shared, so what one
/// extension run does to its request cannot reach another's.
pub struct Context {
    request: Request,
}

impl View for Context {
    type V = RequestView;

    /// The current request.
    closed spec fn view(&self) -> RequestView {
        self.request@
    }
}

impl Context {
    /// A fresh context with `request` bound as the current request.
    pub fn new(request: Request) -> (c: Context)
        ensures
            c@ == request@,
    {
        Context { request }
    }

    /// A snapshot of the current header list, in order.
    pub fn headers(&self) -> (r: Vec<(String, String)>)
        ensures
            headers_view(r@) == self@.headers,
    {
        self.request.header_list()
    }

    /// Sets a header after checking the name against the token grammar and
    /// the value against the header-value grammar. The name is stored
    /// lowercased; a later call with the same name overwrites.
    pub fn set_header(&mut self, name: String, value: String) -> (r: Result<(), CapabilityError>)
        ensures
            !valid_header_name(name@) ==> r == Err::<(), CapabilityError>(
                CapabilityError::InvalidHeaderName,
            ) && final(self)@ == old(self)@,
            valid_header_name(name@) && !valid_header_value(value@) ==> r == Err::<
                (),
                CapabilityError,
            >(CapabilityError::InvalidHeaderValue) && final(self)@ == old(self)@,
            valid_header_name(name@) && valid_header_value(value@) ==> r is Ok && final(self)@ == (
            RequestView {
                headers: put_header(old(self)@.headers, canonical_header_name(name@), value@),
                ..old(self)@
            }),
    {
        let key = match header_name(name.as_str()) {
            Some(k) => k,
            None => return Err(CapabilityError::InvalidHeaderName),
        };
        if !header_value_accepted(value.as_str()) {
            return Err(CapabilityError::InvalidHeaderValue);
        }
        proof {
            lemma_canonical_name_stored(name@);
        }
        self.request.put_header(key, value);
        Ok(())
    }

    /// The current URI.
    pub fn uri(&self) -> (r: String)
        ensures
            r@ == self@.uri,
    {
        String::from_str(self.request.uri())
    }

    /// Replaces the URI with `uri` parsed; where it does not parse, the
    /// current URI stays as it was.
    pub fn set_uri(&mut self, uri: String) -> (r: Result<(), CapabilityError>)
        ensures
            match parsed_uri(uri@) {
                Some(u) => r is Ok && final(self)@ == (RequestView { uri: u, ..old(self)@ }),
                None => r == Err::<(), CapabilityError>(CapabilityError::InvalidUri)
                    && final(self)@ == old(self)@,
            },
            uri@.len() == 0 ==> r == Err::<(), CapabilityError>(CapabilityError::InvalidUri)
                && final(self)@ == old(self)@,
    {
        match parse_uri(uri.as_str()) {
            Some(u) => {
                self.request.replace_uri(u);
                Ok(())
            },
            None => Err(CapabilityError::InvalidUri),
        }
    }

    /// Ends the context and hands the current request back to the host.
    pub fn into_request(self) -> (r: Request)
        ensures
            r@ == self@,
    {
        self.request
    }
}

} // verus!
