//! The host-side request model and the header, URI and status grammars that
//! the capability surface enforces.
use std::str::FromStr;
use vstd::prelude::*;

use crate::context::CapabilityError;

verus! {

/// A header list as seen by specifications: `(name, value)` pairs in order.
pub type HeaderSeq = Seq<(Seq<char>, Seq<char>)>;

/// A byte that `http` accepts in a header name (an RFC 9110 `tchar`).
pub open spec fn is_token_char(c: char) -> bool {
    ||| ('0' <= c && c <= '9')
    ||| ('a' <= c && c <= 'z')
    ||| ('A' <= c && c <= 'Z')
    ||| c == '!' || c == '#' || c == '$' || c == '%' || c == '&' || c == '\''
    ||| c == '*' || c == '+' || c == '-' || c == '.' || c == '^' || c == '_'
    ||| c == '`' || c == '|' || c == '~'
}

/// A header name is 1 to 65535 token characters.
pub open spec fn valid_header_name(s: Seq<char>) -> bool {
    &&& 0 < s.len() <= 65535
    &&& forall|i: int| 0 <= i < s.len() ==> is_token_char(#[trigger] s[i])
}

/// ASCII lowercase of one character.
pub open spec fn lower_ascii(c: char) -> char {
    if 'A' <= c && c <= 'Z' {
        ((c as u32) + 32) as char
    } else {
        c
    }
}

/// The stored form of a valid header name: ASCII letters lowercased.
pub open spec fn canonical_header_name(s: Seq<char>) -> Seq<char> {
    s.map_values(|c: char| lower_ascii(c))
}


/// A header value: no control character other than horizontal tab.
/// (`http` checks bytes; a non-ASCII character encodes to bytes of 0x80 and
/// above, all of which it accepts.)
pub open spec fn valid_header_value(s: Seq<char>) -> bool {
    forall|i: int| 0 <= i < s.len() ==> {
        let c = #[trigger] s[i];
        c == '\t' || (' ' <= c && c != '\x7f')
    }
}

/// The specification view of a header list held as `String` pairs.
pub open spec fn headers_view(h: Seq<(String, String)>) -> HeaderSeq {
    h.map_values(|e: (String, String)| (e.0@, e.1@))
}

proof fn lemma_headers_view_push(h: Seq<(String, String)>, e: (String, String))
    ensures
        headers_view(h.push(e)) == headers_view(h).push((e.0@, e.1@)),
{
    assert(headers_view(h.push(e)) =~= headers_view(h).push((e.0@, e.1@)));
}

/// Some entry of `h` is named `name`.
pub open spec fn has_header(h: HeaderSeq, name: Seq<char>) -> bool {
    exists|i: int| 0 <= i < h.len() && (#[trigger] h[i]).0 == name
}

/// The values of the entries of `h` named `name`, in order.
pub open spec fn header_values(h: HeaderSeq, name: Seq<char>) -> Seq<Seq<char>>
    decreases h.len(),
{
    if h.len() == 0 {
        Seq::empty()
    } else if h.last().0 == name {
        header_values(h.drop_last(), name).push(h.last().1)
    } else {
        header_values(h.drop_last(), name)
    }
}

/// `h` where the first entry named `name` takes the value `value` and every
/// later entry of that name is dropped; the other entries keep their order.
pub open spec fn overwrite_header(h: HeaderSeq, name: Seq<char>, value: Seq<char>) -> HeaderSeq
    decreases h.len(),
{
    if h.len() == 0 {
        h
    } else {
        let rest = overwrite_header(h.drop_last(), name, value);
        if h.last().0 != name {
            rest.push(h.last())
        } else if has_header(h.drop_last(), name) {
            rest
        } else {
            rest.push((name, value))
        }
    }
}

proof fn lemma_overwrite_well_formed(h: HeaderSeq, name: Seq<char>, value: Seq<char>)
    requires
        well_formed_headers(h),
        stored_header_name(name),
        valid_header_value(value),
    ensures
        well_formed_headers(overwrite_header(h, name, value)),
    decreases h.len(),
{
    if h.len() > 0 {
        let d = h.drop_last();
        assert forall|i: int| 0 <= i < d.len() implies stored_header_name((#[trigger] d[i]).0)
            && valid_header_value(d[i].1) by {
            assert(d[i] == h[i]);
        }
        lemma_overwrite_well_formed(d, name, value);
        assert(h.last() == h[h.len() - 1]);
    }
}

proof fn lemma_put_header_well_formed(h: HeaderSeq, name: Seq<char>, value: Seq<char>)
    requires
        well_formed_headers(h),
        stored_header_name(name),
        valid_header_value(value),
    ensures
        well_formed_headers(put_header(h, name, value)),
{
    lemma_overwrite_well_formed(h, name, value);
}

proof fn lemma_overwrite_absent(h: HeaderSeq, name: Seq<char>, value: Seq<char>)
    requires
        !has_header(h, name),
    ensures
        overwrite_header(h, name, value) == h,
    decreases h.len(),
{
    if h.len() > 0 {
        let d = h.drop_last();
        assert(!has_header(d, name)) by {
            if has_header(d, name) {
                let j = choose|j: int| 0 <= j < d.len() && (#[trigger] d[j]).0 == name;
                assert(h[j] == d[j]);
            }
        }
        lemma_overwrite_absent(d, name, value);
        assert(h.last() == h[h.len() - 1]);
        assert(d.push(h.last()) =~= h);
    }
}

/// Setting a header: the entries of that name collapse into one holding the
/// new value, at the place of the first; a new name is appended at the end.
pub open spec fn put_header(h: HeaderSeq, name: Seq<char>, value: Seq<char>) -> HeaderSeq {
    if has_header(h, name) {
        overwrite_header(h, name, value)
    } else {
        h.push((name, value))
    }
}

/// What `http` makes of a URI string: the text of the parsed URI, or `None`
/// where the string is not a URI.
pub uninterp spec fn parsed_uri(s: Seq<char>) -> Option<Seq<char>>;

/// The specification view of an optional string.
pub open spec fn opt_view(o: Option<String>) -> Option<Seq<char>> {
    match o {
        Some(s) => Some(s@),
        None => None,
    }
}

/// A status code that `http` accepts: three decimal digits.
pub open spec fn valid_status_code(code: u16) -> bool {
    100 <= code <= 999
}

/// Relies on `http::HeaderName::from_bytes`: it accepts 1 to 65535 token
/// characters and stores them with ASCII letters lowercased.
#[verifier::external_body]
pub(crate) fn header_name(s: &str) -> (r: Option<String>)
    ensures
        r is Some <==> valid_header_name(s@),
        r matches Some(n) ==> n@ == canonical_header_name(s@),
{
    http::HeaderName::from_bytes(s.as_bytes()).ok().map(|n| n.as_str().to_string())
}

/// Relies on `http::HeaderValue::from_bytes`: it refuses control bytes other
/// than horizontal tab.
#[verifier::external_body]
pub(crate) fn header_value_accepted(s: &str) -> (r: bool)
    ensures
        r == valid_header_value(s@),
{
    http::HeaderValue::from_bytes(s.as_bytes()).is_ok()
}

/// Relies on `http::Uri::from_str` and `Uri`'s `Display`: the parsed URI as
/// text, or `None` on a parse error; an empty string is refused.
#[verifier::external_body]
pub(crate) fn parse_uri(s: &str) -> (r: Option<String>)
    ensures
        opt_view(r) == parsed_uri(s@),
        s@.len() == 0 ==> r is None,
{
    http::Uri::from_str(s).ok().map(|u| u.to_string())
}

/// Whether `code` is a status code `http` accepts (`StatusCode::from_u16`
/// takes 100 to 999).
pub fn status_code_accepted(code: u16) -> (r: bool)
    ensures
        r == valid_status_code(code),
{
    100 <= code && code <= 999
}

/// What specifications see of a request.
pub struct RequestView {
    pub method: Seq<char>,
    pub uri: Seq<char>,
    pub headers: HeaderSeq,
    pub body: Seq<u8>,
}

/// A header name as a request stores it: valid and already lowercase.
pub open spec fn stored_header_name(n: Seq<char>) -> bool {
    valid_header_name(n) && canonical_header_name(n) == n
}

/// Every entry has a stored-form name and a valid value.
pub open spec fn well_formed_headers(h: HeaderSeq) -> bool {
    forall|i: int|
        0 <= i < h.len() ==> stored_header_name((#[trigger] h[i]).0) && valid_header_value(h[i].1)
}

/// Every entry has a valid name (in any case) and a valid value.
pub open spec fn acceptable_headers(h: HeaderSeq) -> bool {
    forall|i: int|
        0 <= i < h.len() ==> valid_header_name((#[trigger] h[i]).0) && valid_header_value(h[i].1)
}

/// The header list with every name in its stored form.
pub open spec fn canonical_headers(h: HeaderSeq) -> HeaderSeq {
    h.map_values(|e: (Seq<char>, Seq<char>)| (canonical_header_name(e.0), e.1))
}

/// The stored form of a valid name is valid and stays as it is.
pub proof fn lemma_canonical_name_stored(n: Seq<char>)
    requires
        valid_header_name(n),
    ensures
        stored_header_name(canonical_header_name(n)),
{
    let c = canonical_header_name(n);
    assert forall|i: int| 0 <= i < c.len() implies is_token_char(#[trigger] c[i]) by {
        assert(is_token_char(n[i]));
    }
    assert(canonical_header_name(c) =~= c);
}

/// A request owned by the host. Extensions never see its memory: they read
/// and change it only through the capability calls of an execution context.
/// Its header names are always in stored form, so two spellings of one name
/// never stand side by side.
#[derive(Debug, PartialEq, Eq)]
pub struct Request {
    method: String,
    uri: String,
    headers: Vec<(String, String)>,
    body: Vec<u8>,
}

impl View for Request {
    type V = RequestView;

    closed spec fn view(&self) -> RequestView {
        RequestView {
            method: self.method@,
            uri: self.uri@,
            headers: headers_view(self.headers@),
            body: self.body@,
        }
    }
}

impl Request {
    #[verifier::type_invariant]
    closed spec fn headers_well_formed(&self) -> bool {
        well_formed_headers(headers_view(self.headers@))
    }

    /// A request from its parts. Header names are stored lowercased; a name
    /// or value that `http` would refuse makes the request refused.
    pub fn new(method: String, uri: String, headers: Vec<(String, String)>, body: Vec<u8>) -> (r:
        Result<Request, CapabilityError>)
        ensures
            r is Ok <==> acceptable_headers(headers_view(headers@)),
            r matches Err(e) ==> e is InvalidHeaderName || e is InvalidHeaderValue,
            r matches Ok(q) ==> q@ == (RequestView {
                method: method@,
                uri: uri@,
                headers: canonical_headers(headers_view(headers@)),
                body: body@,
            }),
    {
        let ghost h = headers_view(headers@);
        let mut out: Vec<(String, String)> = Vec::new();
        let n = headers.len();
        for i in 0..n
            invariant
                n == headers@.len(),
                h == headers_view(headers@),
                headers_view(out@) == canonical_headers(h.take(i as int)),
                acceptable_headers(h.take(i as int)),
                well_formed_headers(headers_view(out@)),
        {
            let e = &headers[i];
            assert(h[i as int] == (e.0@, e.1@));
            let key = match header_name(e.0.as_str()) {
                Some(k) => k,
                None => return Err(CapabilityError::InvalidHeaderName),
            };
            if !header_value_accepted(e.1.as_str()) {
                return Err(CapabilityError::InvalidHeaderValue);
            }
            proof {
                lemma_canonical_name_stored(e.0@);
            }
            let ghost before = out@;
            let entry = (key, e.1.clone());
            out.push(entry);
            proof {
                lemma_headers_view_push(before, entry);
            }
            assert(headers_view(out@) =~= canonical_headers(h.take(i + 1)));
            assert(acceptable_headers(h.take(i + 1))) by {
                assert forall|j: int| 0 <= j < i + 1 implies valid_header_name(
                    (#[trigger] h.take(i + 1)[j]).0,
                ) && valid_header_value(h.take(i + 1)[j].1) by {
                    if j < i {
                        assert(h.take(i + 1)[j] == h.take(i as int)[j]);
                    }
                }
            }
        }
        assert(h.take(n as int) =~= h);
        Ok(Request { method, uri, headers: out, body })
    }

    /// The method.
    pub fn method(&self) -> (r: &str)
        ensures
            r@ == self@.method,
    {
        self.method.as_str()
    }

    /// The URI, as text.
    pub fn uri(&self) -> (r: &str)
        ensures
            r@ == self@.uri,
    {
        self.uri.as_str()
    }

    /// The body.
    pub fn body(&self) -> (r: &[u8])
        ensures
            r@ == self@.body,
    {
        self.body.as_slice()
    }

    /// The header list, in order, every name in stored form.
    pub fn headers(&self) -> (r: &Vec<(String, String)>)
        ensures
            headers_view(r@) == self@.headers,
            well_formed_headers(self@.headers),
    {
        proof {
            use_type_invariant(self);
        }
        &self.headers
    }

    /// Replaces the URI text.
    pub(crate) fn replace_uri(&mut self, uri: String)
        ensures
            final(self)@ == (RequestView { uri: uri@, ..old(self)@ }),
    {
        proof {
            use_type_invariant(&*self);
        }
        self.uri = uri;
    }

    /// A copy of the header list, in order.
    pub fn header_list(&self) -> (r: Vec<(String, String)>)
        ensures
            headers_view(r@) == self@.headers,
    {
        let mut out: Vec<(String, String)> = Vec::new();
        let n = self.headers.len();
        for i in 0..n
            invariant
                n == self.headers@.len(),
                headers_view(out@) == headers_view(self.headers@).take(i as int),
        {
            let e = &self.headers[i];
            let ghost before = out@;
            let copy = (e.0.clone(), e.1.clone());
            out.push(copy);
            proof {
                lemma_headers_view_push(before, copy);
            }
            assert(headers_view(out@) =~= headers_view(self.headers@).take(i + 1));
        }
        assert(headers_view(self.headers@).take(n as int) =~= headers_view(self.headers@));
        out
    }

    /// Sets header `name` to `value`, overwriting rather than duplicating.
    pub(crate) fn put_header(&mut self, name: String, value: String)
        requires
            stored_header_name(name@),
            valid_header_value(value@),
        ensures
            final(self)@ == (RequestView {
                headers: put_header(old(self)@.headers, name@, value@),
                ..old(self)@
            }),
    {
        let ghost h = headers_view(self.headers@);
        let mut out: Vec<(String, String)> = Vec::new();
        let mut found = false;
        let n = self.headers.len();
        for i in 0..n
            invariant
                n == self.headers@.len(),
                h == headers_view(self.headers@),
                headers_view(out@) == overwrite_header(h.take(i as int), name@, value@),
                found == has_header(h.take(i as int), name@),
        {
            let e = &self.headers[i];
            let ghost t = h.take(i + 1);
            assert(t.drop_last() =~= h.take(i as int));
            assert(t.last() == h[i as int]);
            assert(has_header(t, name@) == (has_header(h.take(i as int), name@) || h[i as int].0
                == name@)) by {
                if h[i as int].0 == name@ {
                    assert(t[i as int] == h[i as int]);
                }
                if has_header(h.take(i as int), name@) {
                    let j = choose|j: int|
                        0 <= j < i && (#[trigger] h.take(i as int)[j]).0 == name@;
                    assert(t[j] == h.take(i as int)[j]);
                }
                if has_header(t, name@) {
                    let j = choose|j: int| 0 <= j < t.len() && (#[trigger] t[j]).0 == name@;
                    if j < i {
                        assert(h.take(i as int)[j] == t[j]);
                    }
                }
            }
            if e.0 != name {
                out.push((e.0.clone(), e.1.clone()));
                assert(headers_view(out@) =~= overwrite_header(t, name@, value@));
            } else if !found {
                out.push((name.clone(), value.clone()));
                found = true;
                assert(headers_view(out@) =~= overwrite_header(t, name@, value@));
            }
        }
        assert(h.take(n as int) =~= h);
        if !found {
            proof {
                lemma_overwrite_absent(h, name@, value@);
            }
            let ghost before = out@;
            let entry = (name, value);
            out.push(entry);
            proof {
                lemma_headers_view_push(before, entry);
            }
            assert(headers_view(out@) =~= h.push((entry.0@, entry.1@)));
        }
        proof {
            use_type_invariant(&*self);
            lemma_put_header_well_formed(h, name@, value@);
        }
        self.headers = out;
    }
}

} // verus!
