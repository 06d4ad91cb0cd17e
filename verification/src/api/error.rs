//! The client error model.
use vstd::prelude::*;
use crate::api::transport::TransportError;
use crate::model::error::{error_text, TmfError};
use crate::text::push_str;

verus! {

/// Anything that can go wrong calling a TM Forum API.
///
/// A server that answers with a TMF630 error body surfaces as [`Error::Api`]
/// with the body parsed, so `code` and `reason` are available as data rather
/// than as a formatted string.
#[derive(Debug)]
pub enum Error {
    /// The server returned an error status with a well-formed TMF error body.
    Api {
        /// The HTTP status code.
        status: u16,
        /// The parsed TMF630 error body.
        error: Box<TmfError>,
    },
    /// The server returned an error status without a usable TMF error body.
    Status {
        /// The HTTP status code.
        status: u16,
        /// The raw response body, truncated for display.
        body: String,
    },
    /// `202 Accepted`: the server took the request but has not completed it,
    /// so there is no resource to return yet.
    Accepted {
        /// The status the server answered with.
        status: u16,
        /// Where to poll, from `Location` or `Content-Location`.
        monitor: Option<String>,
    },
    /// The response body could not be decoded into the expected type.
    Decode(String),
    /// The request body could not be encoded.
    Encode(String),
    /// The underlying HTTP stack failed.
    Transport(TransportError),
    /// The client was configured with an unusable base URL.
    InvalidBaseUrl(String),
    /// A conditional write was asked for against a resource the server issued
    /// no `ETag` for.
    NoEntityTag,
    /// A server-supplied URL pointed outside the API's own origin, and was
    /// refused rather than followed.
    CrossOrigin {
        /// The URL that was refused.
        url: String,
        /// The client's own base URL, whose origin it had to match.
        base: String,
    },
}

/// Whether `status` is a server error (`5xx`).
pub open spec fn is_server_error(status: u16) -> bool {
    500 <= status <= 599
}

/// Whether a status says "this might work later": 408, 429, and every 5xx
/// but 501, which is a statement about the endpoint rather than the moment.
pub open spec fn retryable_status(status: u16) -> bool {
    status == 408 || status == 429 || (is_server_error(status) && status != 501)
}

/// The status an error carries, when it came from a server response.
pub open spec fn error_status(e: &Error) -> Option<u16> {
    match e {
        Error::Api { status, .. } => Some(*status),
        Error::Status { status, .. } => Some(*status),
        Error::Accepted { status, .. } => Some(*status),
        _ => None,
    }
}

/// Whether retrying the identical request could plausibly succeed.
pub open spec fn error_retryable(e: &Error) -> bool {
    match e {
        Error::Transport(_) => true,
        Error::Api { status, .. } => retryable_status(*status),
        Error::Status { status, .. } => retryable_status(*status),
        _ => false,
    }
}

/// Which statuses say "this might work later": among client errors only
/// `408 Request Timeout` and `429 Too Many Requests` — a `403`, a `404` or
/// any other 4xx is final — among server errors every one but `501 Not
/// Implemented`, and nothing outside `4xx` and `5xx`.
pub proof fn lemma_which_statuses_are_retryable(status: u16)
    ensures
        400 <= status <= 499 ==> (retryable_status(status) <==> (status == 408 || status == 429)),
        500 <= status <= 599 ==> (retryable_status(status) <==> status != 501),
        (status < 400 || status > 599) ==> !retryable_status(status),
{
}

/// Whether a status says "this might work later".
///
/// Shared with the retry policy, which sees a status before the client layer
/// has turned it into an [`Error`].
pub fn is_retryable_status(status: u16) -> (r: bool)
    ensures
        r == retryable_status(status),
{
    status == 408 || status == 429 || (500 <= status && status <= 599 && status != 501)
}

/// Whether a status reports success (`2xx`): the response is the answer.
pub fn is_success(status: u16) -> (r: bool)
    ensures
        r == (200 <= status <= 299),
{
    200 <= status && status <= 299
}

/// Whether a response is what a conditional request reads as an answer: a
/// success, or `304 Not Modified`, which says what is held is current.
pub fn answers_conditional(status: u16) -> (r: bool)
    ensures
        r == (200 <= status <= 299 || status == 304),
{
    is_success(status) || status == 304
}

/// Whether a status is `412 Precondition Failed`: a conditional write refused
/// because the resource changed since it was read.
pub fn is_precondition_failed(status: u16) -> (r: bool)
    ensures
        r == (status == 412),
{
    status == 412
}

/// The text `http::StatusCode` displays for `status`: the number, a space
/// and the reason phrase registered for it; a number `StatusCode` does not
/// accept, outside `100..=999`, stands for itself.
pub uninterp spec fn status_display(status: u16) -> Seq<char>;

/// How a status reads.
///
/// Wraps `StatusCode::from_u16` and the code's `Display`, which writes the
/// number and its canonical reason (or `<unknown status code>`); the text
/// depends on the status alone and is named by [`status_display`]. What it
/// spells is not stated here.
#[verifier::external_body]
fn status_text(status: u16) -> (r: String)
    ensures
        r@ == status_display(status),
{
    match http::StatusCode::from_u16(status) {
        Ok(code) => format!("{code}"),
        Err(_) => format!("{status}"),
    }
}

/// How an error reads to a person, given how its status reads.
pub open spec fn error_message_with(e: &Error, status: Seq<char>) -> Seq<char> {
    match e {
        Error::Api { error, .. } => status + ": "@ + error_text(error.code, error.reason, error.message),
        Error::Status { body, .. } => "HTTP "@ + status + ": "@ + body@,
        Error::Accepted { monitor, .. } => status + ": accepted for asynchronous processing"@
            + match monitor {
            Some(m) => ", monitor at "@ + m@,
            None => Seq::<char>::empty(),
        },
        Error::Decode(m) => "failed to decode response body: "@ + m@,
        Error::Encode(m) => "failed to encode request body: "@ + m@,
        Error::Transport(t) => "transport error: "@ + t.message()@,
        Error::InvalidBaseUrl(u) => "invalid base URL: "@ + u@,
        Error::NoEntityTag => "the server issued no ETag, so this write cannot be made conditional"@,
        Error::CrossOrigin { url, base } => "refusing to follow "@ + url@
            + " \u{2014} it leaves the origin of "@ + base@,
    }
}

/// How an error reads to a person, its status written as `http` writes one.
pub open spec fn error_message(e: &Error) -> Seq<char> {
    error_message_with(
        e,
        match error_status(e) {
            Some(s) => status_display(s),
            None => Seq::<char>::empty(),
        },
    )
}

impl Error {
    /// How the error reads, given how its status reads; the status text is
    /// not used by errors that carry no status.
    pub fn describe_with(&self, status: &str) -> (r: String)
        ensures
            r@ == error_message_with(self, status@),
    {
        let mut s = String::new();
        match self {
            Error::Api { error, .. } => {
                push_str(&mut s, status);
                push_str(&mut s, ": ");
                let text = error.describe();
                push_str(&mut s, text.as_str());
            },
            Error::Status { body, .. } => {
                push_str(&mut s, "HTTP ");
                push_str(&mut s, status);
                push_str(&mut s, ": ");
                push_str(&mut s, body.as_str());
            },
            Error::Accepted { monitor, .. } => {
                push_str(&mut s, status);
                push_str(&mut s, ": accepted for asynchronous processing");
                match monitor {
                    Some(m) => {
                        push_str(&mut s, ", monitor at ");
                        push_str(&mut s, m.as_str());
                    },
                    None => {},
                }
            },
            Error::Decode(m) => {
                push_str(&mut s, "failed to decode response body: ");
                push_str(&mut s, m.as_str());
            },
            Error::Encode(m) => {
                push_str(&mut s, "failed to encode request body: ");
                push_str(&mut s, m.as_str());
            },
            Error::Transport(t) => {
                push_str(&mut s, "transport error: ");
                let text = t.describe();
                push_str(&mut s, text.as_str());
            },
            Error::InvalidBaseUrl(u) => {
                push_str(&mut s, "invalid base URL: ");
                push_str(&mut s, u.as_str());
            },
            Error::NoEntityTag => {
                push_str(&mut s, "the server issued no ETag, so this write cannot be made conditional");
            },
            Error::CrossOrigin { url, base } => {
                push_str(&mut s, "refusing to follow ");
                push_str(&mut s, url.as_str());
                push_str(&mut s, " \u{2014} it leaves the origin of ");
                push_str(&mut s, base.as_str());
            },
        }
        s
    }

    /// How the error reads to a person: what a display of it writes.
    pub fn describe(&self) -> (r: String)
        ensures
            r@ == error_message(self),
    {
        match self.status() {
            Some(code) => {
                let text = status_text(code);
                self.describe_with(text.as_str())
            },
            None => self.describe_with(""),
        }
    }

    /// The HTTP status, when the failure came from a server response.
    pub fn status(&self) -> (r: Option<u16>)
        ensures
            r == error_status(self),
    {
        match self {
            Error::Api { status, .. } => Some(*status),
            Error::Status { status, .. } => Some(*status),
            Error::Accepted { status, .. } => Some(*status),
            _ => None,
        }
    }

    /// Whether the server accepted the write but has not completed it.
    pub fn is_accepted(&self) -> (r: bool)
        ensures
            r == (self is Accepted),
    {
        match self {
            Error::Accepted { .. } => true,
            _ => false,
        }
    }

    /// Where to poll for an asynchronous write, when the server named a place.
    pub fn monitor(&self) -> (r: Option<&str>)
        ensures
            r matches Some(m) ==> (self matches Error::Accepted { monitor: Some(w), .. } && m@
                == w@),
            r is None ==> !(self matches Error::Accepted { monitor: Some(_), .. }),
    {
        match self {
            Error::Accepted { monitor: Some(m), .. } => Some(m.as_str()),
            _ => None,
        }
    }

    /// The parsed TMF error body, when the server supplied one.
    pub fn tmf_error(&self) -> (r: Option<&TmfError>)
        ensures
            r matches Some(t) ==> (self matches Error::Api { error, .. } && *t == **error),
            r is None ==> !(self is Api),
    {
        match self {
            Error::Api { error, .. } => Some(&**error),
            _ => None,
        }
    }

    /// Whether retrying the identical request could plausibly succeed: true
    /// for 408, 429 and every 5xx but 501, and for transport failures.
    pub fn is_retryable(&self) -> (r: bool)
        ensures
            r == error_retryable(self),
    {
        match self {
            Error::Transport(_) => true,
            Error::Api { status, .. } => is_retryable_status(*status),
            Error::Status { status, .. } => is_retryable_status(*status),
            _ => false,
        }
    }

    /// Whether the failure was a 404.
    pub fn is_not_found(&self) -> (r: bool)
        ensures
            r == (error_status(self) == Some(404u16)),
    {
        match self.status() {
            Some(s) => s == 404,
            None => false,
        }
    }

    /// Whether a conditional write was refused because the resource had
    /// changed: a `412`, whether or not a TMF630 body came with it.
    pub fn is_precondition_failed(&self) -> (r: bool)
        ensures
            r == (error_status(self) == Some(412u16)),
    {
        match self.status() {
            Some(s) => is_precondition_failed(s),
            None => false,
        }
    }
}

} // verus!
