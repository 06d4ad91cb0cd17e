//! How requests authenticate: the credential kinds, the `Authorization`
//! header each produces, and the OAuth2 client-credentials exchange.
use vstd::prelude::*;
use vstd::string::*;
use std::time::{Duration, Instant};
use crate::text::{join, join_strings, push_str, strs};
use crate::time::{duration_from_secs, duration_of_nanos, nanos_of, span_nanos};

verus! {

#[verifier::external_type_specification]
#[verifier::external_body]
pub struct ExInstant(Instant);

/// How requests authenticate.
///
/// The credential-bearing variants have no `Debug`: a credential written to
/// a log is a credential leaked. [`Auth::describe`] names the kind and the
/// non-secret parts only.
#[derive(Clone)]
pub enum Auth {
    /// No `Authorization` header.
    Anonymous,
    /// A fixed bearer token.
    Bearer(String),
    /// HTTP Basic.
    Basic {
        /// The user name.
        username: String,
        /// The password.
        password: String,
    },
    /// OAuth2 client credentials, exchanged for a token on first use and
    /// cached until shortly before it expires.
    ClientCredentials(Box<ClientCredentials>),
}

impl Auth {
    /// The kind of authentication and its non-secret parts: a token or a
    /// password is written as `<redacted>`.
    pub fn describe(&self) -> (r: String)
        ensures
            r@ == match self {
                Auth::Anonymous => "None"@,
                Auth::Bearer(_) => "Bearer(<redacted>)"@,
                Auth::Basic { username, .. } => "Basic "@ + username@ + " <redacted>"@,
                Auth::ClientCredentials(c) => seq![
                    'C',
                    'l',
                    'i',
                    'e',
                    'n',
                    't',
                    'C',
                    'r',
                    'e',
                    'd',
                    'e',
                    'n',
                    't',
                    'i',
                    'a',
                    'l',
                    's',
                    ' ',
                ] + c.token_url@ + seq![' '] + c.client_id@ + seq![
                    ' ',
                    '<',
                    'r',
                    'e',
                    'd',
                    'a',
                    'c',
                    't',
                    'e',
                    'd',
                    '>',
                ],
            },
    {
        match self {
            Auth::Anonymous => "None".to_owned(),
            Auth::Bearer(_) => "Bearer(<redacted>)".to_owned(),
            Auth::Basic { username, .. } => {
                let mut s = "Basic ".to_owned();
                push_str(&mut s, username.as_str());
                push_str(&mut s, " <redacted>");
                s
            },
            Auth::ClientCredentials(c) => c.describe(),
        }
    }
}

impl Default for Auth {
    fn default() -> (r: Self)
        ensures
            r is Anonymous,
    {
        Auth::Anonymous
    }
}

/// OAuth2 client-credentials configuration.
#[derive(Clone)]
pub struct ClientCredentials {
    /// The token endpoint.
    pub token_url: String,
    /// The client identifier.
    pub client_id: String,
    /// The client secret.
    pub client_secret: String,
    /// Scopes to request, if any.
    pub scopes: Vec<String>,
}

impl ClientCredentials {
    /// Credentials for `token_url`, with no scopes.
    pub fn new(token_url: &str, client_id: &str, client_secret: &str) -> (r: Self)
        ensures
            r.token_url@ == token_url@,
            r.client_id@ == client_id@,
            r.client_secret@ == client_secret@,
            r.scopes@.len() == 0,
    {
        ClientCredentials {
            token_url: token_url.to_owned(),
            client_id: client_id.to_owned(),
            client_secret: client_secret.to_owned(),
            scopes: Vec::new(),
        }
    }

    /// Sets the scopes to request, replacing any set before.
    pub fn with_scopes(self, scopes: &[&str]) -> (r: Self)
        ensures
            r.token_url == self.token_url,
            r.client_id == self.client_id,
            r.client_secret == self.client_secret,
            strs(r.scopes@) == scopes@.map_values(|s: &str| s@),
    {
        let mut out: Vec<String> = Vec::new();
        let mut i: usize = 0;
        while i < scopes.len()
            invariant
                i <= scopes@.len(),
                out@.len() == i,
                forall|j: int| 0 <= j < i ==> #[trigger] out@[j]@ == scopes@[j]@,
            decreases scopes@.len() - i,
        {
            out.push(scopes[i].to_owned());
            i = i + 1;
        }
        assert(strs(out@) =~= scopes@.map_values(|s: &str| s@));
        ClientCredentials { scopes: out, ..self }
    }

    /// The configuration with the secret left out.
    pub fn describe(&self) -> (r: String)
        ensures
            r@ == seq!['C', 'l', 'i', 'e', 'n', 't', 'C', 'r', 'e', 'd', 'e', 'n', 't', 'i', 'a', 'l', 's', ' ']
                + self.token_url@ + seq![' '] + self.client_id@ + seq![' ', '<', 'r', 'e', 'd', 'a', 'c', 't', 'e', 'd', '>'],
    {
        let mut s = "ClientCredentials ".to_owned();
        push_str(&mut s, self.token_url.as_str());
        push_str(&mut s, " ");
        push_str(&mut s, self.client_id.as_str());
        push_str(&mut s, " <redacted>");
        proof {
            reveal_strlit("ClientCredentials ");
            reveal_strlit(" ");
            reveal_strlit(" <redacted>");
        }
        s
    }
}

/// The base64 digit of a six-bit value, RFC 4648's standard alphabet.
pub open spec fn b64_digit(n: int) -> char {
    if n < 26 {
        (65 + n) as char
    } else if n < 52 {
        (97 + n - 26) as char
    } else if n < 62 {
        (48 + n - 52) as char
    } else if n == 62 {
        '+'
    } else {
        '/'
    }
}

/// RFC 4648 base64 with padding.
pub open spec fn base64_spec(b: Seq<u8>) -> Seq<char>
    decreases b.len(),
{
    if b.len() == 0 {
        seq![]
    } else {
        let x0 = b[0] as int;
        let x1 = if b.len() > 1 {
            b[1] as int
        } else {
            0
        };
        let x2 = if b.len() > 2 {
            b[2] as int
        } else {
            0
        };
        let group = seq![
            b64_digit(x0 / 4),
            b64_digit((x0 % 4) * 16 + x1 / 16),
            if b.len() > 1 {
                b64_digit((x1 % 16) * 4 + x2 / 64)
            } else {
                '='
            },
            if b.len() > 2 {
                b64_digit(x2 % 64)
            } else {
                '='
            },
        ];
        if b.len() > 3 {
            group + base64_spec(b.skip(3))
        } else {
            group
        }
    }
}

/// Base64 writes four characters for every three bytes begun.
pub proof fn lemma_base64_length(b: Seq<u8>)
    ensures
        base64_spec(b).len() == 4 * ((b.len() + 2) / 3),
    decreases b.len(),
{
    if b.len() > 3 {
        lemma_base64_length(b.skip(3));
    }
}

/// The base64 digit of `n`.
fn b64(n: u8) -> (c: char)
    requires
        n < 64,
    ensures
        c == b64_digit(n as int),
{
    if n < 26 {
        (65 + n) as char
    } else if n < 52 {
        (97 + n - 26) as char
    } else if n < 62 {
        (48 + n - 52) as char
    } else if n == 62 {
        '+'
    } else {
        '/'
    }
}

/// Base64-encodes the UTF-8 bytes of `input` (RFC 4648, padded).
pub fn base64_encode(input: &str) -> (r: String)
    ensures
        r@ == base64_spec(vstd::utf8::encode_utf8(input@)),
{
    let bytes = input.as_bytes();
    let mut out = String::new();
    let mut i: usize = 0;
    assert(bytes@.skip(0) =~= bytes@);
    assert(out@ + base64_spec(bytes@) =~= base64_spec(bytes@));
    while i < bytes.len()
        invariant
            i <= bytes@.len(),
            bytes@ == vstd::utf8::encode_utf8(input@),
            base64_spec(bytes@) == out@ + base64_spec(bytes@.skip(i as int)),
        decreases bytes@.len() - i,
    {
        let ghost rest = bytes@.skip(i as int);
        let left = bytes.len() - i;
        let b0 = bytes[i];
        let b1 = if left > 1 {
            bytes[i + 1]
        } else {
            0
        };
        let b2 = if left > 2 {
            bytes[i + 2]
        } else {
            0
        };
        let c0 = b64(b0 / 4);
        let c1 = b64((b0 % 4) * 16 + b1 / 16);
        let c2 = if left > 1 {
            b64((b1 % 16) * 4 + b2 / 64)
        } else {
            '='
        };
        let c3 = if left > 2 {
            b64(b2 % 64)
        } else {
            '='
        };
        crate::text::push_char(&mut out, c0);
        crate::text::push_char(&mut out, c1);
        crate::text::push_char(&mut out, c2);
        crate::text::push_char(&mut out, c3);
        proof {
            assert(rest[0] == b0);
            if left > 1 {
                assert(rest[1] == b1);
            }
            if left > 2 {
                assert(rest[2] == b2);
                assert(rest.skip(3) =~= bytes@.skip(i + 3));
            }
        }
        if left >= 3 {
            i = i + 3;
        } else {
            i = bytes.len();
            assert(bytes@.skip(i as int).len() == 0);
        }
    }
    assert(bytes@.skip(i as int) =~= Seq::<u8>::empty());
    out
}

/// Whether `s` is acceptable as an HTTP header value: no control
/// characters but tab, and no DEL, as `HeaderValue::from_str` requires.
pub open spec fn header_text(s: Seq<char>) -> bool {
    forall|i: int| 0 <= i < s.len() ==> (#[trigger] s[i] >= ' ' && s[i] != '\x7f') || s[i] == '\t'
}

/// Whether `s` is acceptable as an HTTP header value.
pub fn is_header_text(s: &str) -> (r: bool)
    ensures
        r == header_text(s@),
{
    let v = crate::text::chars_of(s);
    let mut i: usize = 0;
    while i < v.len()
        invariant
            i <= v@.len(),
            v@ == s@,
            forall|j: int| 0 <= j < i ==> (#[trigger] v@[j] >= ' ' && v@[j] != '\x7f') || v@[j] == '\t',
        decreases v@.len() - i,
    {
        let c = v[i];
        if !((c >= ' ' && c != '\x7f') || c == '\t') {
            return false;
        }
        i = i + 1;
    }
    true
}

/// The `Authorization` value `auth` produces, with `token` standing for the
/// client-credentials token already obtained.
pub open spec fn authorization_spec(auth: Auth, token: Seq<char>) -> Option<Seq<char>> {
    match auth {
        Auth::Anonymous => None,
        Auth::Bearer(t) => Some(seq!['B', 'e', 'a', 'r', 'e', 'r', ' '] + t@),
        Auth::Basic { username, password } => Some(seq!['B', 'a', 's', 'i', 'c', ' '] + base64_spec(
            vstd::utf8::encode_utf8(username@ + seq![':'] + password@),
        )),
        Auth::ClientCredentials(_) => Some(seq!['B', 'e', 'a', 'r', 'e', 'r', ' '] + token),
    }
}

/// The `Authorization` header value for `auth`; `token` is the
/// client-credentials token, and is read only for that kind.
///
/// A value that cannot be sent as a header — a credential holding a control
/// character — is a transport error rather than a malformed request.
pub fn authorization(auth: &Auth, token: &str) -> (r: Result<Option<String>, crate::api::error::Error>)
    ensures
        match r {
            Ok(v) => match v {
                Some(s) => authorization_spec(*auth, token@) == Some(s@) && header_text(s@),
                None => authorization_spec(*auth, token@) is None,
            },
            Err(e) => e is Transport && (authorization_spec(*auth, token@) matches Some(s)
                && !header_text(s)),
        },
{
    let raw = match auth {
        Auth::Anonymous => return Ok(None),
        Auth::Bearer(t) => {
            let mut s = "Bearer ".to_owned();
            push_str(&mut s, t.as_str());
            proof {
                reveal_strlit("Bearer ");
                assert("Bearer "@ =~= seq!['B', 'e', 'a', 'r', 'e', 'r', ' ']);
            }
            s
        },
        Auth::Basic { username, password } => {
            let mut pair = username.clone();
            push_str(&mut pair, ":");
            push_str(&mut pair, password.as_str());
            let mut s = "Basic ".to_owned();
            let encoded = base64_encode(pair.as_str());
            push_str(&mut s, encoded.as_str());
            proof {
                reveal_strlit("Basic ");
                reveal_strlit(":");
                assert("Basic "@ =~= seq!['B', 'a', 's', 'i', 'c', ' ']);
                assert(":"@ =~= seq![':']);
                assert(pair@ =~= username@ + seq![':'] + password@);
            }
            s
        },
        Auth::ClientCredentials(_) => {
            let mut s = "Bearer ".to_owned();
            push_str(&mut s, token);
            proof {
                reveal_strlit("Bearer ");
                assert("Bearer "@ =~= seq!['B', 'e', 'a', 'r', 'e', 'r', ' ']);
            }
            s
        },
    };
    if is_header_text(raw.as_str()) {
        Ok(Some(raw))
    } else {
        Err(
            crate::api::error::Error::Transport(
                crate::api::transport::TransportError::new("failed to parse header value"),
            ),
        )
    }
}

/// The form fields of a client-credentials token request: the grant type,
/// the client's identity, and its scopes space-separated when it has any.
pub open spec fn token_form_spec(config: ClientCredentials) -> Seq<(Seq<char>, Seq<char>)> {
    let base = seq![
        (
            seq!['g', 'r', 'a', 'n', 't', '_', 't', 'y', 'p', 'e'],
            seq!['c', 'l', 'i', 'e', 'n', 't', '_', 'c', 'r', 'e', 'd', 'e', 'n', 't', 'i', 'a', 'l', 's'],
        ),
        (seq!['c', 'l', 'i', 'e', 'n', 't', '_', 'i', 'd'], config.client_id@),
        (seq!['c', 'l', 'i', 'e', 'n', 't', '_', 's', 'e', 'c', 'r', 'e', 't'], config.client_secret@),
    ];
    if config.scopes@.len() > 0 {
        base.push((seq!['s', 'c', 'o', 'p', 'e'], join(strs(config.scopes@), seq![' '])))
    } else {
        base
    }
}

/// The form fields of a client-credentials token request.
pub fn token_form(config: &ClientCredentials) -> (r: Vec<(String, String)>)
    ensures
        r@.len() == token_form_spec(*config).len(),
        forall|i: int| 0 <= i < r@.len() ==> (#[trigger] r@[i]).0@ == token_form_spec(*config)[i].0
            && r@[i].1@ == token_form_spec(*config)[i].1,
{
    let mut form: Vec<(String, String)> = Vec::new();
    form.push(("grant_type".to_owned(), "client_credentials".to_owned()));
    form.push(("client_id".to_owned(), config.client_id.clone()));
    form.push(("client_secret".to_owned(), config.client_secret.clone()));
    if config.scopes.len() > 0 {
        form.push(("scope".to_owned(), join_strings(&config.scopes, " ")));
    }
    proof {
        reveal_strlit("grant_type");
        reveal_strlit("client_credentials");
        reveal_strlit("client_id");
        reveal_strlit("client_secret");
        reveal_strlit("scope");
        reveal_strlit(" ");
        assert("grant_type"@ =~= seq!['g', 'r', 'a', 'n', 't', '_', 't', 'y', 'p', 'e']);
        assert("client_credentials"@ =~= seq![
            'c',
            'l',
            'i',
            'e',
            'n',
            't',
            '_',
            'c',
            'r',
            'e',
            'd',
            'e',
            'n',
            't',
            'i',
            'a',
            'l',
            's',
        ]);
        assert("client_id"@ =~= seq!['c', 'l', 'i', 'e', 'n', 't', '_', 'i', 'd']);
        assert("client_secret"@ =~= seq![
            'c',
            'l',
            'i',
            'e',
            'n',
            't',
            '_',
            's',
            'e',
            'c',
            'r',
            'e',
            't',
        ]);
        assert("scope"@ =~= seq!['s', 'c', 'o', 'p', 'e']);
        assert(" "@ =~= seq![' ']);
    }
    form
}

/// How long a token lives: the `expires_in` the server sent, or five
/// minutes when it sent none.
pub fn token_lifetime(expires_in: Option<u64>) -> (r: Duration)
    ensures
        span_nanos(r) == (match expires_in {
            Some(s) => s,
            None => 300,
        }) * 1_000_000_000,
{
    match expires_in {
        Some(s) => duration_from_secs(s),
        None => duration_from_secs(300),
    }
}

/// How long after it was issued a token of `lifetime` is replaced: thirty
/// seconds early, or half-way through when it lives under a minute, so a
/// short-lived token is still cached for part of its life.
pub open spec fn refresh_after_spec(lifetime: nat) -> nat {
    let margin: nat = if 30_000_000_000 <= lifetime / 2 {
        30_000_000_000
    } else {
        lifetime / 2
    };
    (lifetime - margin) as nat
}

/// How long after issue a token of `lifetime` is replaced.
pub fn refresh_after(lifetime: Duration) -> (r: Duration)
    ensures
        span_nanos(r) == refresh_after_spec(span_nanos(lifetime)),
        span_nanos(r) <= span_nanos(lifetime),
        2 * span_nanos(r) >= span_nanos(lifetime),
{
    let n = nanos_of(&lifetime);
    let half = n / 2;
    let margin = if 30_000_000_000u128 <= half {
        30_000_000_000u128
    } else {
        half
    };
    duration_of_nanos(n - margin)
}

/// The current instant on the monotonic clock.
///
/// Wraps `Instant::now`; nothing is promised of the reading.
#[verifier::external_body]
fn instant_now() -> Instant {
    Instant::now()
}

/// The instant `by` nanoseconds after `at`, as `Instant::checked_add`
/// gives it; `None` when the platform's clock cannot represent it.
pub uninterp spec fn instant_later(at: Instant, by: nat) -> Option<Instant>;

/// `at` moved `by` later, or `None` when the clock cannot represent it.
///
/// Wraps `Instant::checked_add`, which depends on the instant and the span
/// alone; its result is named by [`instant_later`]. Whether it succeeds
/// turns on the platform's clock representation and is not stated.
#[verifier::external_body]
fn instant_after(at: Instant, by: Duration) -> (r: Option<Instant>)
    ensures
        r == instant_later(at, span_nanos(by)),
{
    at.checked_add(by)
}

/// When a token of `lifetime` issued now is to be replaced: now plus
/// [`refresh_after`], or `None` when the clock cannot represent that
/// instant.
pub fn refresh_at(lifetime: Duration) -> (r: Option<Instant>)
    ensures
        exists|now: Instant| r == #[trigger] instant_later(now, refresh_after_spec(span_nanos(lifetime))),
{
    let wait = refresh_after(lifetime);
    let now = instant_now();
    let r = instant_after(now, wait);
    assert(r == instant_later(now, refresh_after_spec(span_nanos(lifetime))));
    r
}

} // verus!
