//! What the client decides about URLs and responses: the base URL it talks
//! to, whether a server-supplied URL stays on that origin, and how a failed
//! or bodiless response is reported.
use vstd::prelude::*;
use crate::api::error::Error;
use crate::api::link::{next_link, next_link_spec};
use crate::api::page::Page;
use crate::api::transport::{header_count_spec, header_spec, Header, TmfResponse};
use crate::model::error::TmfError;
use crate::model::reference::{absolute, Ref, Target};
use crate::text::{
    all_digits, chars_of, concat, copy_range, decimal, eq_ic, find_from, find_seq, is_ws,
    last_index_of, push_decimal, push_str, range_all_digits, range_eq, range_eq_ic, rfind_char,
    string_of, string_of_range, trim,
};

verus! {

/// The index of the first `/`, `?` or `#` in `s` at or after `from`, or the
/// length when there is none.
pub open spec fn first_delimiter(s: Seq<char>, from: int) -> int
    decreases s.len() - from,
{
    if from < 0 || from >= s.len() {
        s.len() as int
    } else if s[from] == '/' || s[from] == '?' || s[from] == '#' {
        from
    } else {
        first_delimiter(s, from + 1)
    }
}

/// The port a scheme implies when a URL names none.
pub open spec fn default_port(scheme: Seq<char>) -> Option<Seq<char>> {
    if eq_ic(scheme, seq!['h', 't', 't', 'p', 's']) {
        Some(seq!['4', '4', '3'])
    } else if eq_ic(scheme, seq!['h', 't', 't', 'p']) {
        Some(seq!['8', '0'])
    } else {
        None
    }
}

/// The host of an authority, with a trailing `:<digits>` removed when it is
/// the scheme's default port. An IPv6 literal is bracketed, so its inner
/// colons come before the `]` and are never read as a port.
pub open spec fn host_of(scheme: Seq<char>, authority: Seq<char>) -> Seq<char> {
    match last_index_of(authority, ':') {
        Some(k) => {
            let host = authority.take(k);
            let port = authority.skip(k + 1);
            if host.len() > 0 && port.len() > 0 && all_digits(port) && default_port(scheme) == Some(
                port,
            ) {
                host
            } else {
                authority
            }
        },
        None => authority,
    }
}

/// The scheme and host of a URL, in the sense of RFC 6454: `None` for a URL
/// without `://`, an empty scheme, or an empty authority. Userinfo stays in
/// the compared authority, so `user@host` never passes for `host`.
pub open spec fn origin_of(url: Seq<char>) -> Option<(Seq<char>, Seq<char>)> {
    match find_from(url, seq![':', '/', '/'], 0) {
        None => None,
        Some(i) => {
            let scheme = url.take(i);
            let rest = url.skip(i + 3);
            let authority = rest.take(first_delimiter(rest, 0));
            if scheme.len() == 0 || authority.len() == 0 {
                None
            } else {
                Some((scheme, host_of(scheme, authority)))
            }
        },
    }
}

/// Whether two URLs share a scheme and a host (ports included), in any
/// ASCII case; a URL whose origin cannot be read shares none.
pub open spec fn same_origin_spec(base: Seq<char>, other: Seq<char>) -> bool {
    match (origin_of(base), origin_of(other)) {
        (Some((bs, bh)), Some((os, oh))) => eq_ic(bs, os) && eq_ic(bh, oh),
        _ => false,
    }
}

/// Whether the origin check is symmetric: a URL shares an origin with the
/// base exactly when the base shares one with it.
pub proof fn lemma_same_origin_symmetric(a: Seq<char>, b: Seq<char>)
    ensures
        same_origin_spec(a, b) == same_origin_spec(b, a),
{
    match (origin_of(a), origin_of(b)) {
        (Some((s1, h1)), Some((s2, h2))) => {
            crate::text::lemma_eq_ic_symmetric(s1, s2);
            crate::text::lemma_eq_ic_symmetric(h1, h2);
        },
        _ => {},
    }
}

/// A URL whose origin can be read shares it with itself.
pub proof fn lemma_same_origin_reflexive(url: Seq<char>)
    requires
        origin_of(url) is Some,
    ensures
        same_origin_spec(url, url),
{
    let (s, h) = origin_of(url).unwrap();
    crate::text::lemma_eq_ic_reflexive(s);
    crate::text::lemma_eq_ic_reflexive(h);
}

/// The first `/`, `?` or `#` at or after `from`.
fn delimiter_at(v: &[char], from: usize) -> (r: usize)
    requires
        from <= v@.len(),
    ensures
        r == first_delimiter(v@, from as int),
        from <= r <= v@.len(),
{
    let mut i = from;
    while i < v.len()
        invariant
            from <= i <= v@.len(),
            first_delimiter(v@, from as int) == first_delimiter(v@, i as int),
        decreases v@.len() - i,
    {
        let c = v[i];
        if c == '/' || c == '?' || c == '#' {
            return i;
        }
        i = i + 1;
    }
    i
}

/// The default port of `scheme`, spelled out.
fn default_port_of(scheme: &[char]) -> (r: Option<Vec<char>>)
    ensures
        r matches Some(p) ==> default_port(scheme@) == Some(p@),
        r is None ==> default_port(scheme@) is None,
{
    let https: [char; 5] = ['h', 't', 't', 'p', 's'];
    let http: [char; 4] = ['h', 't', 't', 'p'];
    assert(https@ =~= seq!['h', 't', 't', 'p', 's']);
    assert(http@ =~= seq!['h', 't', 't', 'p']);
    assert(scheme@.subrange(0, scheme@.len() as int) =~= scheme@);
    if range_eq_ic(scheme, 0, scheme.len(), &https) {
        let p = vec!['4', '4', '3'];
        assert(p@ =~= seq!['4', '4', '3']);
        Some(p)
    } else if range_eq_ic(scheme, 0, scheme.len(), &http) {
        let p = vec!['8', '0'];
        assert(p@ =~= seq!['8', '0']);
        Some(p)
    } else {
        None
    }
}

/// The scheme and host of `url`.
fn origin(url: &[char]) -> (r: Option<(Vec<char>, Vec<char>)>)
    ensures
        r matches Some((s, h)) ==> origin_of(url@) == Some((s@, h@)),
        r is None ==> origin_of(url@) is None,
{
    let sep: [char; 3] = [':', '/', '/'];
    assert(sep@ =~= seq![':', '/', '/']);
    let pat = sep.as_slice();
    assert(pat@ == seq![':', '/', '/']);
    let found = find_seq(url, pat, 0);
    let i = match found {
        Some(i) => i,
        None => return None,
    };
    let n = url.len();
    assert(i + 3 <= n);
    let scheme = copy_range(url, 0, i);
    let j = i + 3;
    let rest = copy_range(url, j, n);
    assert(scheme@ == url@.take(i as int));
    assert(rest@ == url@.skip(i + 3));
    let end = delimiter_at(rest.as_slice(), 0);
    let authority = copy_range(rest.as_slice(), 0, end);
    assert(authority@ == rest@.take(end as int));
    if scheme.len() == 0 || authority.len() == 0 {
        return None;
    }
    assert(authority@.subrange(0, authority@.len() as int) =~= authority@);
    let host = match rfind_char(authority.as_slice(), 0, authority.len(), ':') {
        Some(k) => {
            proof {
                crate::text::lemma_last_index_of(authority@, ':');
            }
            let h = copy_range(authority.as_slice(), 0, k);
            let p = copy_range(authority.as_slice(), k + 1, authority.len());
            assert(h@ == authority@.take(k as int));
            assert(p@ == authority@.skip(k + 1));
            assert(p@.subrange(0, p@.len() as int) =~= p@);
            let keep_port = if h.len() > 0 && p.len() > 0 && range_all_digits(
                p.as_slice(),
                0,
                p.len(),
            ) {
                match default_port_of(scheme.as_slice()) {
                    Some(d) => range_eq(p.as_slice(), 0, p.len(), d.as_slice()),
                    None => false,
                }
            } else {
                false
            };
            if keep_port {
                h
            } else {
                authority
            }
        },
        None => authority,
    };
    Some((scheme, host))
}

/// Whether `other` shares an origin with `base`: the same scheme and host,
/// ports included, in any ASCII case.
///
/// Used to keep a server-supplied URL — a `Link: rel="next"` target, or the
/// `href` of a reference — from carrying this client's credentials to
/// another origin. A default port spelled out (`https://host:443/`) is the
/// same origin as one left implicit; a non-default port is not; userinfo
/// cannot disguise another host; a URL whose origin cannot be read (a
/// relative path) is never the same origin.
pub fn same_origin(base: &str, other: &str) -> (r: bool)
    ensures
        r == same_origin_spec(base@, other@),
{
    let b = chars_of(base);
    let o = chars_of(other);
    match (origin(b.as_slice()), origin(o.as_slice())) {
        (Some((bs, bh)), Some((os, oh))) => {
            assert(bs@.subrange(0, bs@.len() as int) =~= bs@);
            assert(bh@.subrange(0, bh@.len() as int) =~= bh@);
            range_eq_ic(bs.as_slice(), 0, bs.len(), os.as_slice()) && range_eq_ic(
                bh.as_slice(),
                0,
                bh.len(),
                oh.as_slice(),
            )
        },
        _ => false,
    }
}

/// Refuses a URL outside the origin of `base`, rather than follow it.
pub fn require_same_origin(base: &str, url: &str) -> (r: Result<(), Error>)
    ensures
        r is Ok == same_origin_spec(base@, url@),
        r matches Err(e) ==> (e matches Error::CrossOrigin { url: u, base: b } && u@ == url@
            && b@ == base@),
{
    if same_origin(base, url) {
        return Ok(());
    }
    Err(Error::CrossOrigin { url: url.to_owned(), base: base.to_owned() })
}

/// How many bytes `c` takes in UTF-8.
pub open spec fn utf8_len(c: char) -> nat {
    if (c as u32) < 0x80 {
        1
    } else if (c as u32) < 0x800 {
        2
    } else if (c as u32) < 0x10000 {
        3
    } else {
        4
    }
}

/// How many bytes `s` takes in UTF-8.
pub open spec fn utf8_size(s: Seq<char>) -> nat
    decreases s.len(),
{
    if s.len() == 0 {
        0
    } else {
        utf8_size(s.drop_last()) + utf8_len(s.last())
    }
}

/// How many leading characters of `s` fit in `budget` bytes of UTF-8.
pub open spec fn fit_count(s: Seq<char>, budget: nat) -> nat
    decreases s.len(),
{
    if s.len() == 0 || utf8_len(s[0]) > budget {
        0
    } else {
        1 + fit_count(s.drop_first(), (budget - utf8_len(s[0])) as nat)
    }
}

/// The most of a body an error message quotes, in bytes.
pub const TRUNCATE_AT: usize = 512;

/// A body as an error message quotes it: whole when it is at most 512 bytes,
/// and otherwise cut after the last whole character within 512 bytes and
/// followed by `… (N bytes total)`.
pub open spec fn truncate_spec(body: Seq<char>) -> Seq<char> {
    if utf8_size(body) <= 512 {
        body
    } else {
        body.take(fit_count(body, 512) as int) + seq!['\u{2026}', ' ', '('] + decimal(
            utf8_size(body),
        ) + seq![' ', 'b', 'y', 't', 'e', 's', ' ', 't', 'o', 't', 'a', 'l', ')']
    }
}

/// The UTF-8 length of `v`.
fn utf8_size_of(v: &[char]) -> (r: u128)
    ensures
        r == utf8_size(v@),
{
    let mut total: u128 = 0;
    let mut i: usize = 0;
    while i < v.len()
        invariant
            i <= v@.len(),
            total == utf8_size(v@.take(i as int)),
            total <= 4 * i,
        decreases v@.len() - i,
    {
        assert(v@.take(i + 1).drop_last() =~= v@.take(i as int));
        let c = v[i] as u32;
        let n: u128 = if c < 0x80 {
            1
        } else if c < 0x800 {
            2
        } else if c < 0x10000 {
            3
        } else {
            4
        };
        total = total + n;
        i = i + 1;
    }
    assert(v@.take(v@.len() as int) =~= v@);
    total
}

/// How many leading characters of `v[from..]` fit in `budget` bytes.
fn fit_count_of(v: &[char], budget: u128) -> (r: usize)
    ensures
        r == fit_count(v@, budget as nat),
        r <= v@.len(),
{
    let mut i: usize = 0;
    let mut left = budget;
    assert(v@.skip(0) =~= v@);
    while i < v.len()
        invariant
            i <= v@.len(),
            left <= budget,
            fit_count(v@, budget as nat) == i + fit_count(v@.skip(i as int), left as nat),
        decreases v@.len() - i,
    {
        let c = v[i] as u32;
        let n: u128 = if c < 0x80 {
            1
        } else if c < 0x800 {
            2
        } else if c < 0x10000 {
            3
        } else {
            4
        };
        assert(v@.skip(i as int)[0] == v@[i as int]);
        assert(v@.skip(i as int).drop_first() =~= v@.skip(i + 1));
        if n > left {
            return i;
        }
        left = left - n;
        i = i + 1;
    }
    assert(v@.skip(i as int).len() == 0);
    i
}

/// Shortens a body for an error message, on a character boundary.
pub fn truncate(body: &str) -> (r: String)
    requires
        utf8_size(body@) <= usize::MAX,
    ensures
        r@ == truncate_spec(body@),
{
    let v = chars_of(body);
    let total = utf8_size_of(v.as_slice());
    if total <= 512 {
        return body.to_owned();
    }
    let k = fit_count_of(v.as_slice(), 512);
    let mut s = string_of_range(v.as_slice(), 0, k);
    push_str(&mut s, "\u{2026} (");
    push_decimal(&mut s, total as u64);
    push_str(&mut s, " bytes total)");
    proof {
        reveal_strlit("\u{2026} (");
        reveal_strlit(" bytes total)");
        assert(v@.subrange(0, k as int) =~= v@.take(k as int));
        assert("\u{2026} ("@ =~= seq!['\u{2026}', ' ', '(']);
        assert(" bytes total)"@ =~= seq![
            ' ',
            'b',
            'y',
            't',
            'e',
            's',
            ' ',
            't',
            'o',
            't',
            'a',
            'l',
            ')',
        ]);
    }
    s
}

/// The text of bytes decoded as UTF-8, each invalid sequence replaced by
/// U+FFFD, as `String::from_utf8_lossy` decodes them.
pub uninterp spec fn lossy_text(bytes: Seq<u8>) -> Seq<char>;

/// Decodes bytes as UTF-8, replacing what is not.
///
/// Wraps `String::from_utf8_lossy`, which depends on the bytes alone; what
/// it returns is named by [`lossy_text`].
#[verifier::external_body]
fn utf8_lossy(bytes: &[u8]) -> (r: String)
    ensures
        r@ == lossy_text(bytes@),
        utf8_size(r@) <= usize::MAX,
{
    String::from_utf8_lossy(bytes).into_owned()
}

/// The error a failure response reports, given the TMF630 error body it
/// parsed to, if it parsed to one.
///
/// A body that parses *and* carries a `code` or a `reason` becomes
/// [`Error::Api`]; anything else — no body, another JSON object, not JSON —
/// keeps its raw text, truncated, in [`Error::Status`], so a gateway's own
/// message is not thrown away.
pub fn interpret_failure(response: &TmfResponse, parsed: Option<TmfError>) -> (r: Error)
    ensures
        match parsed {
            Some(e) if e.code is Some || e.reason is Some => r matches Error::Api {
                status,
                error,
            } && status == response.status && *error == e,
            _ => r matches Error::Status { status, body } && status == response.status && body@
                == truncate_spec(lossy_text(response.body@)),
        },
{
    match parsed {
        Some(e) => {
            if e.is_populated() {
                return Error::Api { status: response.status, error: Box::new(e) };
            }
        },
        None => {},
    }
    let text = utf8_lossy(response.body.as_slice());
    Error::Status { status: response.status, body: truncate(text.as_str()) }
}

/// Whether a header named `name` is present at all, text or not.
pub open spec fn header_present(hs: Seq<Header>, name: Seq<char>) -> bool {
    exists|i: int| 0 <= i < hs.len() && eq_ic(#[trigger] hs[i].0@, name)
}

/// Where an asynchronous write can be polled: `Location` when present, else
/// `Content-Location`, when that header's value is text.
pub open spec fn monitor_spec(hs: Seq<Header>) -> Option<Seq<char>> {
    if header_present(hs, seq!['l', 'o', 'c', 'a', 't', 'i', 'o', 'n']) {
        header_spec(hs, seq!['l', 'o', 'c', 'a', 't', 'i', 'o', 'n'])
    } else {
        header_spec(
            hs,
            seq!['c', 'o', 'n', 't', 'e', 'n', 't', '-', 'l', 'o', 'c', 'a', 't', 'i', 'o', 'n'],
        )
    }
}

/// Whether a header named `name` is present.
fn has_header(headers: &Vec<Header>, name: &str) -> (r: bool)
    ensures
        r == header_present(headers@, name@),
{
    let wanted = chars_of(name);
    let mut i: usize = 0;
    while i < headers.len()
        invariant
            i <= headers@.len(),
            wanted@ == name@,
            forall|j: int| 0 <= j < i ==> !eq_ic(#[trigger] headers@[j].0@, name@),
        decreases headers@.len() - i,
    {
        let n = chars_of(headers[i].0.as_str());
        assert(n@.subrange(0, n@.len() as int) =~= n@);
        if range_eq_ic(n.as_slice(), 0, n.len(), wanted.as_slice()) {
            return true;
        }
        i = i + 1;
    }
    false
}

/// Where to poll for an asynchronous write, when the server named a place.
pub fn monitor_url(response: &TmfResponse) -> (r: Option<String>)
    ensures
        r matches Some(m) ==> monitor_spec(response.headers@) == Some(m@),
        r is None ==> monitor_spec(response.headers@) is None,
{
    proof {
        reveal_strlit("location");
        reveal_strlit("content-location");
        assert("location"@ =~= seq!['l', 'o', 'c', 'a', 't', 'i', 'o', 'n']);
        assert("content-location"@ =~= seq![
            'c',
            'o',
            'n',
            't',
            'e',
            'n',
            't',
            '-',
            'l',
            'o',
            'c',
            'a',
            't',
            'i',
            'o',
            'n',
        ]);
    }
    if has_header(&response.headers, "location") {
        response.header("location")
    } else {
        response.header("content-location")
    }
}

/// What a response with no body stands for, before any decoding: a `202`
/// is an [`Error::Accepted`] naming where to poll; a `204` decodes as
/// `null`; anything else decodes its body.
pub enum Bodiless {
    /// The write was accepted for asynchronous processing.
    Accepted(Error),
    /// Decode the JSON `null`.
    Null,
    /// Decode the body as it is.
    Body,
}

/// Decides how a response is decoded.
pub fn classify_body(response: &TmfResponse) -> (r: Bodiless)
    ensures
        response.body@.len() == 0 && response.status == 202 ==> (r matches Bodiless::Accepted(
            Error::Accepted { status, monitor },
        ) && status == 202 && match monitor {
            Some(m) => monitor_spec(response.headers@) == Some(m@),
            None => monitor_spec(response.headers@) is None,
        }),
        response.body@.len() == 0 && response.status == 204 ==> r is Null,
        !(response.body@.len() == 0 && (response.status == 202 || response.status == 204))
            ==> r is Body,
{
    if response.body.len() == 0 {
        if response.status == 202 {
            return Bodiless::Accepted(
                Error::Accepted { status: response.status, monitor: monitor_url(response) },
            );
        }
        if response.status == 204 {
            return Bodiless::Null;
        }
    }
    Bodiless::Body
}

/// `s` with every trailing `/` removed, as `str::trim_end_matches('/')`.
pub open spec fn trim_slashes(s: Seq<char>) -> Seq<char>
    decreases s.len(),
{
    if s.len() > 0 && s.last() == '/' {
        trim_slashes(s.drop_last())
    } else {
        s
    }
}

/// The base URL a client is built on: refused when blank, and otherwise
/// with its trailing `/`s removed.
pub open spec fn base_url_spec(base: Seq<char>) -> Option<Seq<char>> {
    if trim(base).len() == 0 {
        None
    } else {
        Some(trim_slashes(base))
    }
}

/// Checks and normalises the base URL a client is built on.
pub fn base_url(base: &str) -> (r: Result<String, Error>)
    ensures
        r matches Ok(b) ==> base_url_spec(base@) == Some(b@),
        r is Err ==> base_url_spec(base@) is None,
        r matches Err(e) ==> e matches Error::InvalidBaseUrl(m) && m@ == "base URL must not be empty"@,
{
    let v = chars_of(base);
    assert(v@.subrange(0, v@.len() as int) =~= v@);
    let (a, b) = crate::text::trim_range(v.as_slice(), 0, v.len());
    if a == b {
        return Err(Error::InvalidBaseUrl("base URL must not be empty".to_owned()));
    }
    let mut end = v.len();
    assert(v@.take(end as int) =~= v@);
    while end > 0 && v[end - 1] == '/'
        invariant
            end <= v@.len(),
            trim_slashes(v@) == trim_slashes(v@.take(end as int)),
        decreases end,
    {
        assert(v@.take(end as int).drop_last() =~= v@.take(end - 1));
        end = end - 1;
    }
    assert(v@.subrange(0, end as int) =~= v@.take(end as int));
    Ok(string_of_range(v.as_slice(), 0, end))
}

/// `base` and `path` joined by one `/`, the path's own leading `/`s dropped.
pub open spec fn join_url_spec(base: Seq<char>, path: Seq<char>) -> Seq<char> {
    base + seq!['/'] + trim_leading_slashes(path)
}

/// `s` with every leading `/` removed, as `str::trim_start_matches('/')`.
pub open spec fn trim_leading_slashes(s: Seq<char>) -> Seq<char>
    decreases s.len(),
{
    if s.len() > 0 && s[0] == '/' {
        trim_leading_slashes(s.drop_first())
    } else {
        s
    }
}

/// The URL of `path` under `base`.
pub fn join_url(base: &str, path: &str) -> (r: String)
    ensures
        r@ == join_url_spec(base@, path@),
{
    let v = chars_of(path);
    let mut start: usize = 0;
    assert(v@.skip(0) =~= v@);
    while start < v.len() && v[start] == '/'
        invariant
            start <= v@.len(),
            trim_leading_slashes(v@) == trim_leading_slashes(v@.skip(start as int)),
        decreases v@.len() - start,
    {
        assert(v@.skip(start as int).drop_first() =~= v@.skip(start + 1));
        start = start + 1;
    }
    let mut s = base.to_owned();
    crate::text::push_char(&mut s, '/');
    let rest = string_of_range(v.as_slice(), start, v.len());
    let ghost with_slash = s@;
    assert(with_slash =~= base@ + seq!['/']);
    push_str(&mut s, rest.as_str());
    assert(v@.subrange(start as int, v@.len() as int) =~= v@.skip(start as int));
    assert(s@ =~= with_slash + trim_leading_slashes(path@));
    s
}

/// The page a collection response carries, given the resources its body
/// decoded to and the offset it was requested at.
///
/// `206 Partial Content` marks it as a slice of a larger match; the counters
/// and the `Link` header are read as the server sent them.
pub fn page_from<T>(response: &TmfResponse, items: Vec<T>, offset: usize) -> (r: Page<T>)
    ensures
        r.items@ == items@,
        r.total_count == header_count_spec(response.headers@, "x-total-count"@),
        r.result_count == header_count_spec(response.headers@, "x-result-count"@),
        r.next_link matches Some(l) ==> (header_spec(response.headers@, seq!['l', 'i', 'n', 'k'])
            matches Some(h) && next_link_spec(h) == Some(l@)),
        r.next_link is None ==> (match header_spec(response.headers@, seq!['l', 'i', 'n', 'k']) {
            Some(h) => next_link_spec(h) is None,
            None => true,
        }),
        r.partial == (response.status == 206),
        r.offset == offset,
{
    proof {
        reveal_strlit("link");
        assert("link"@ =~= seq!['l', 'i', 'n', 'k']);
    }
    let link = match response.header("link") {
        Some(h) => next_link(h.as_str()),
        None => None,
    };
    Page {
        items,
        total_count: response.total_count(),
        result_count: response.result_count(),
        next_link: link,
        partial: response.status == 206,
        offset,
    }
}

/// A reference's `href` when it is absolute, by its view.
pub open spec fn absolute_href_of(href: Option<String>) -> Option<Seq<char>> {
    match href {
        Some(h) => if absolute(h@) {
            Some(h@)
        } else {
            None
        },
        None => None,
    }
}

/// Where resolving `reference` fetches from, for a client rooted at `base`
/// whose resources of the referenced class live in `collection`.
///
/// An absolute `href` is written by the server, and the transport attaches
/// the client's credentials to whatever it is handed; so it is followed only
/// on `base`'s own origin, and refused as [`Error::CrossOrigin`] elsewhere.
/// A reference without one is fetched by its id within the collection.
pub fn resolve_url<T>(base: &str, reference: &Ref<T>, collection: &str) -> (r: Result<String, Error>)
    ensures
        match absolute_href_of(reference.href) {
            Some(h) => if same_origin_spec(base@, h) {
                r matches Ok(u) && u@ == h
            } else {
                r matches Err(e) && (e matches Error::CrossOrigin { url: u, base: b } && u@ == h
                    && b@ == base@)
            },
            None => (r matches Ok(u) && u@ == join_url_spec(
                base@,
                collection@ + seq!['/'] + reference.id@,
            )),
        },
{
    match reference.target() {
        Target::Href(h) => {
            assert(absolute_href_of(reference.href) == Some(h@));
            match require_same_origin(base, h.as_str()) {
                Ok(()) => Ok(h),
                Err(e) => Err(e),
            }
        },
        Target::Id(id) => {
            proof {
                reveal_strlit("/");
            }
            let mut path = collection.to_owned();
            push_str(&mut path, "/");
            push_str(&mut path, id.as_str());
            assert(path@ == collection@ + seq!['/'] + reference.id@);
            assert(absolute_href_of(reference.href) is None);
            Ok(join_url(base, path.as_str()))
        },
    }
}

} // verus!
