//! The boundary between the clients and an HTTP stack.
//!
//! A request and a response are plain data here: the method, the URL, the
//! query and header lists, and the body bytes. Whatever performs the exchange
//! (reqwest, a test double, a recorded session) converts at its own edge.
use vstd::prelude::*;
use crate::text::{chars_of, eq_ic, parse_u64, parse_u64_spec, range_eq_ic};

verus! {

/// An HTTP request method.
#[derive(Clone, Debug, PartialEq, Eq, Structural)]
pub enum Method {
    Get,
    Head,
    Post,
    Put,
    Patch,
    Delete,
    Options,
}

/// A header as it arrived: its name, and its value when the value is text.
///
/// A header value that is not visible ASCII cannot be read as a string, and
/// reads as absent; the name is still there, so a later header of the same
/// name does not stand in for it.
pub type Header = (String, Option<String>);

/// A request to a TM Forum endpoint, independent of the HTTP stack that sends
/// it.
#[derive(Debug, Clone)]
pub struct TmfRequest {
    /// The method.
    pub method: Method,
    /// The absolute URL, without a query string.
    pub url: String,
    /// Query parameters, in the order they are sent.
    pub query: Vec<(String, String)>,
    /// Request headers.
    pub headers: Vec<Header>,
    /// The body, if any.
    pub body: Option<Vec<u8>>,
}

impl TmfRequest {
    /// A request with no query, headers or body.
    pub fn new(method: Method, url: String) -> (r: Self)
        ensures
            r.method == method,
            r.url@ == url@,
            r.query@.len() == 0,
            r.headers@.len() == 0,
            r.body is None,
    {
        TmfRequest { method, url, query: Vec::new(), headers: Vec::new(), body: None }
    }
}

/// A response from a TM Forum endpoint.
#[derive(Debug, Clone)]
pub struct TmfResponse {
    /// The HTTP status code.
    pub status: u16,
    /// Response headers, in the order they arrived.
    pub headers: Vec<Header>,
    /// The raw body.
    pub body: Vec<u8>,
}

/// The value of the first header named `name`, in any ASCII case, among the
/// headers from `at` on: `None` when there is none, or when its value is not
/// text.
pub open spec fn header_from(hs: Seq<Header>, name: Seq<char>, at: int) -> Option<Seq<char>>
    decreases hs.len() - at,
{
    if at < 0 || at >= hs.len() {
        None
    } else if eq_ic(hs[at].0@, name) {
        match hs[at].1 {
            Some(v) => Some(v@),
            None => None,
        }
    } else {
        header_from(hs, name, at + 1)
    }
}

/// The text of the header named `name`, as `HeaderMap::get` followed by
/// `to_str` reads it.
pub open spec fn header_spec(hs: Seq<Header>, name: Seq<char>) -> Option<Seq<char>> {
    header_from(hs, name, 0)
}

/// A header read as an unsigned count: `None` when it is absent, not text,
/// or not a number that fits a `usize`.
pub open spec fn header_count_spec(hs: Seq<Header>, name: Seq<char>) -> Option<usize> {
    match header_spec(hs, name) {
        Some(v) => match parse_u64_spec(v) {
            Some(n) => if n <= usize::MAX {
                Some(n as usize)
            } else {
                None
            },
            None => None,
        },
        None => None,
    }
}

/// Looks up a header by name, ignoring ASCII case, and returns its text.
pub fn header_value(headers: &Vec<Header>, name: &str) -> (r: Option<String>)
    ensures
        r matches Some(v) ==> header_spec(headers@, name@) == Some(v@),
        r is None ==> header_spec(headers@, name@) is None,
{
    let wanted = chars_of(name);
    let mut i: usize = 0;
    while i < headers.len()
        invariant
            i <= headers@.len(),
            wanted@ == name@,
            header_spec(headers@, name@) == header_from(headers@, name@, i as int),
        decreases headers@.len() - i,
    {
        let entry = &headers[i];
        let n = chars_of(entry.0.as_str());
        assert(n@.subrange(0, n@.len() as int) =~= n@);
        if range_eq_ic(n.as_slice(), 0, n.len(), wanted.as_slice()) {
            return match &entry.1 {
                Some(v) => Some(v.clone()),
                None => None,
            };
        }
        i = i + 1;
    }
    None
}

impl TmfResponse {
    /// A response with the given status, headers and body.
    pub fn new(status: u16, headers: Vec<Header>, body: Vec<u8>) -> (r: Self)
        ensures
            r.status == status,
            r.headers@ == headers@,
            r.body@ == body@,
    {
        TmfResponse { status, headers, body }
    }

    /// The text of the header named `name`, in any ASCII case.
    pub fn header(&self, name: &str) -> (r: Option<String>)
        ensures
            r matches Some(v) ==> header_spec(self.headers@, name@) == Some(v@),
            r is None ==> header_spec(self.headers@, name@) is None,
    {
        header_value(&self.headers, name)
    }

    /// A numeric header such as `X-Total-Count`, when present and readable.
    pub fn header_count(&self, name: &str) -> (r: Option<usize>)
        ensures
            r == header_count_spec(self.headers@, name@),
    {
        match self.header(name) {
            Some(v) => {
                let c = chars_of(v.as_str());
                assert(c@.subrange(0, c@.len() as int) =~= c@);
                match parse_u64(c.as_slice(), 0, c.len()) {
                    Some(n) => {
                        if n as u128 <= usize::MAX as u128 {
                            Some(n as usize)
                        } else {
                            None
                        }
                    },
                    None => None,
                }
            },
            None => None,
        }
    }

    /// `X-Total-Count`: how many resources match the query overall.
    pub fn total_count(&self) -> (r: Option<usize>)
        ensures
            r == header_count_spec(self.headers@, "x-total-count"@),
    {
        self.header_count("x-total-count")
    }

    /// `X-Result-Count`: how many resources this response carries.
    pub fn result_count(&self) -> (r: Option<usize>)
        ensures
            r == header_count_spec(self.headers@, "x-result-count"@),
    {
        self.header_count("x-result-count")
    }
}

/// A failure in the HTTP stack below the client, with its description.
#[derive(Debug, Clone)]
pub struct TransportError {
    message: String,
}

impl TransportError {
    /// Wraps a description of what failed.
    pub fn new(message: &str) -> (r: Self)
        ensures
            r.message()@ == message@,
    {
        TransportError { message: message.to_owned() }
    }

    /// What failed, in words.
    pub closed spec fn message(&self) -> String {
        self.message
    }

    /// The description this error was made with.
    pub fn describe(&self) -> (r: String)
        ensures
            r@ == self.message()@,
    {
        self.message.clone()
    }
}

/// The headers by their views.
pub open spec fn headers_view(hs: Seq<Header>) -> Seq<(Seq<char>, Option<Seq<char>>)> {
    Seq::new(
        hs.len(),
        |i: int|
            (
                hs[i].0@,
                match hs[i].1 {
                    Some(v) => Some(v@),
                    None => None,
                },
            ),
    )
}

/// The headers other than those named `name`, in any ASCII case, in order.
pub open spec fn without_header(hv: Seq<(Seq<char>, Option<Seq<char>>)>, name: Seq<char>) -> Seq<
    (Seq<char>, Option<Seq<char>>),
>
    decreases hv.len(),
{
    if hv.len() == 0 {
        hv
    } else {
        let rest = without_header(hv.drop_last(), name);
        if eq_ic(hv.last().0, name) {
            rest
        } else {
            rest.push(hv.last())
        }
    }
}

/// The headers with every `name` header replaced by one holding `value`,
/// placed last: what `HeaderMap::insert` leaves.
pub open spec fn set_header_spec(
    hv: Seq<(Seq<char>, Option<Seq<char>>)>,
    name: Seq<char>,
    value: Seq<char>,
) -> Seq<(Seq<char>, Option<Seq<char>>)> {
    without_header(hv, name).push((name, Some(value)))
}

/// Sets the header `name` to `value`, replacing any it had.
pub fn set_header(headers: &mut Vec<Header>, name: &str, value: &str)
    ensures
        headers_view(final(headers)@) == set_header_spec(headers_view(old(headers)@), name@, value@),
{
    let ghost before = headers_view(headers@);
    let wanted = chars_of(name);
    let mut kept: Vec<Header> = Vec::new();
    let mut i: usize = 0;
    while i < headers.len()
        invariant
            i <= headers@.len(),
            wanted@ == name@,
            before == headers_view(headers@),
            headers_view(kept@) == without_header(before.take(i as int), name@),
        decreases headers@.len() - i,
    {
        let n = chars_of(headers[i].0.as_str());
        assert(n@.subrange(0, n@.len() as int) =~= n@);
        let ghost prefix = before.take(i as int);
        assert(before.take(i + 1).drop_last() =~= prefix);
        assert(before.take(i + 1).last() == before[i as int]);
        if !range_eq_ic(n.as_slice(), 0, n.len(), wanted.as_slice()) {
            let ghost old_kept = headers_view(kept@);
            let entry = (headers[i].0.clone(), match &headers[i].1 {
                Some(v) => Some(v.clone()),
                None => None,
            });
            kept.push(entry);
            assert(headers_view(kept@) =~= old_kept.push(before[i as int]));
        }
        i = i + 1;
    }
    assert(before.take(i as int) =~= before);
    let ghost old_kept = headers_view(kept@);
    kept.push((name.to_owned(), Some(value.to_owned())));
    assert(headers_view(kept@) =~= old_kept.push((name@, Some(value@))));
    *headers = kept;
}

/// Sets `accept: application/json` unless the request already names what
/// it accepts.
pub fn default_accept(request: &mut TmfRequest)
    ensures
        header_present_view(headers_view(old(request).headers@), "accept"@)
            ==> final(request).headers@ == old(request).headers@,
        !header_present_view(headers_view(old(request).headers@), "accept"@) ==> headers_view(
            final(request).headers@,
        ) == headers_view(old(request).headers@).push(("accept"@, Some("application/json"@))),
        final(request).method == old(request).method,
        final(request).url == old(request).url,
        final(request).query == old(request).query,
        final(request).body == old(request).body,
{
    let wanted = chars_of("accept");
    let mut i: usize = 0;
    while i < request.headers.len()
        invariant
            i <= request.headers@.len(),
            wanted@ == "accept"@,
            forall|j: int| 0 <= j < i ==> !eq_ic(#[trigger] headers_view(request.headers@)[j].0, "accept"@),
        decreases request.headers@.len() - i,
    {
        let n = chars_of(request.headers[i].0.as_str());
        assert(n@.subrange(0, n@.len() as int) =~= n@);
        if range_eq_ic(n.as_slice(), 0, n.len(), wanted.as_slice()) {
            assert(eq_ic(headers_view(request.headers@)[i as int].0, "accept"@));
            return;
        }
        i = i + 1;
    }
    let ghost before = headers_view(request.headers@);
    request.headers.push(("accept".to_owned(), Some("application/json".to_owned())));
    assert(headers_view(request.headers@) =~= before.push(("accept"@, Some("application/json"@))));
}

/// Whether a header named `name` is among the views.
pub open spec fn header_present_view(hv: Seq<(Seq<char>, Option<Seq<char>>)>, name: Seq<char>) -> bool {
    exists|i: int| 0 <= i < hv.len() && eq_ic(#[trigger] hv[i].0, name)
}

} // verus!
