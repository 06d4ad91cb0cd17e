//! The four bodies a v5 `PATCH` can carry, and the media type each is sent
//! as.
use vstd::prelude::*;
use crate::model::patch::JsonPatchOp;

verus! {

/// A `PATCH` body, by flavour.
#[derive(Debug)]
pub enum Patch<'a, U> {
    /// An RFC 7386 merge patch: the fields to change.
    Merge(&'a U),
    /// The same partial body, sent as plain `application/json`, for servers
    /// that accept only that.
    Implicit(&'a U),
    /// An RFC 6902 operation list.
    Operations(&'a [JsonPatchOp]),
    /// A TMF630 JSON Patch Query operation list.
    Query(&'a [JsonPatchOp]),
}

/// The media type each flavour is sent as.
pub open spec fn patch_content_type<U>(patch: Patch<'_, U>) -> Seq<char> {
    match patch {
        Patch::Merge(_) => "application/merge-patch+json"@,
        Patch::Implicit(_) => "application/json"@,
        Patch::Operations(_) => "application/json-patch+json"@,
        Patch::Query(_) => "application/json-patch-query+json"@,
    }
}

impl<'a, U> Patch<'a, U> {
    /// The `Content-Type` this body is sent with.
    pub fn content_type(&self) -> (r: &'static str)
        ensures
            r@ == patch_content_type(*self),
    {
        match self {
            Patch::Merge(_) => "application/merge-patch+json",
            Patch::Implicit(_) => "application/json",
            Patch::Operations(_) => "application/json-patch+json",
            Patch::Query(_) => "application/json-patch-query+json",
        }
    }

    /// A body sends as a merge patch unless said otherwise.
    pub fn from_body(body: &'a U) -> (r: Self)
        ensures
            r matches Patch::Merge(b) && b == body,
    {
        Patch::Merge(body)
    }

    /// An operation list sends as RFC 6902.
    pub fn from_ops(ops: &'a [JsonPatchOp]) -> (r: Self)
        ensures
            r matches Patch::Operations(o) && o@ == ops@,
    {
        Patch::Operations(ops)
    }
}

} // verus!
