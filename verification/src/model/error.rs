//! The TMF630 error body.
use vstd::prelude::*;
use crate::model::extensible::{Extensions, TmfType};
use crate::text::{chars_of, parse_u64, parse_u64_spec, push_str};

verus! {

/// The body a TM Forum API returns with an error status.
///
/// Every member is optional on the wire: gateways in front of a TMF service
/// answer with bodies of their own, and those must still read as *some*
/// error rather than fail to parse.
#[derive(Debug, Clone)]
pub struct TmfError {
    /// Application-level error code.
    pub code: Option<String>,
    /// Why the request failed, in words.
    pub reason: Option<String>,
    /// More detail, for a human.
    pub message: Option<String>,
    /// The HTTP status, as a string.
    pub status: Option<String>,
    /// A URI with more about this error.
    pub reference_error: Option<String>,
    /// `@type`; empty when the body did not say.
    pub at_type: String,
    /// `@baseType`.
    pub at_base_type: Option<String>,
    /// `@schemaLocation`.
    pub at_schema_location: Option<String>,
    /// Members beyond those above.
    pub extensions: Extensions,
}

impl TmfType for TmfError {
    const TYPE_NAME: &'static str = "Error";
    const REF_TYPE_NAME: &'static str = "EntityRef";
}

/// `status` read as `u16::from_str` reads it.
pub open spec fn status_code(status: Option<String>) -> Option<u16> {
    match status {
        Some(s) => match parse_u64_spec(s@) {
            Some(n) => if n <= u16::MAX {
                Some(n as u16)
            } else {
                None
            },
            None => None,
        },
        None => None,
    }
}

/// How an error body reads to a person: `code: reason`, or whichever of
/// the two is there, or `unspecified error`; then the message in
/// parentheses, when there is one.
pub open spec fn error_text(code: Option<String>, reason: Option<String>, message: Option<String>) -> Seq<char> {
    let head = match (code, reason) {
        (Some(c), Some(r)) => c@ + ": "@ + r@,
        (Some(c), None) => c@,
        (None, Some(r)) => r@,
        (None, None) => "unspecified error"@,
    };
    match message {
        Some(m) => head + " ("@ + m@ + ")"@,
        None => head,
    }
}

impl TmfError {
    /// The body as a person reads it; see [`error_text`].
    pub fn describe(&self) -> (r: String)
        ensures
            r@ == error_text(self.code, self.reason, self.message),
    {
        let mut s = String::new();
        match (&self.code, &self.reason) {
            (Some(c), Some(r)) => {
                push_str(&mut s, c.as_str());
                push_str(&mut s, ": ");
                push_str(&mut s, r.as_str());
            },
            (Some(c), None) => push_str(&mut s, c.as_str()),
            (None, Some(r)) => push_str(&mut s, r.as_str()),
            (None, None) => push_str(&mut s, "unspecified error"),
        }
        match &self.message {
            Some(m) => {
                push_str(&mut s, " (");
                push_str(&mut s, m.as_str());
                push_str(&mut s, ")");
            },
            None => {},
        }
        s
    }

    /// An error body with no members set.
    pub fn empty() -> (r: Self)
        ensures
            r.code is None,
            r.reason is None,
            r.message is None,
            r.status is None,
            r.reference_error is None,
            r.at_type@.len() == 0,
            r.at_base_type is None,
            r.at_schema_location is None,
            r.extensions@.len() == 0,
    {
        TmfError {
            code: None,
            reason: None,
            message: None,
            status: None,
            reference_error: None,
            at_type: String::new(),
            at_base_type: None,
            at_schema_location: None,
            extensions: Extensions::new(),
        }
    }

    /// The HTTP status the body reports, when it reports a readable one.
    pub fn http_status(&self) -> (r: Option<u16>)
        ensures
            r == status_code(self.status),
    {
        match &self.status {
            Some(s) => {
                let c = chars_of(s.as_str());
                assert(c@.subrange(0, c@.len() as int) =~= c@);
                match parse_u64(c.as_slice(), 0, c.len()) {
                    Some(n) => if n <= 65535 {
                        Some(n as u16)
                    } else {
                        None
                    },
                    None => None,
                }
            },
            None => None,
        }
    }

    /// Whether the body carries a `code` or a `reason`: what tells a TMF630
    /// error apart from some other JSON object that happened to parse.
    pub fn is_populated(&self) -> (r: bool)
        ensures
            r == (self.code is Some || self.reason is Some),
    {
        self.code.is_some() || self.reason.is_some()
    }

    /// The class this body declares, defaulting to `Error`.
    pub fn class_name(&self) -> (r: String)
        ensures
            r@ == (if self.at_type@.len() == 0 {
                Self::TYPE_NAME@
            } else {
                self.at_type@
            }),
    {
        if self.at_type.as_str().is_empty() {
            Self::TYPE_NAME.to_owned()
        } else {
            self.at_type.clone()
        }
    }
}

} // verus!
