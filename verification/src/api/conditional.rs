//! Conditional requests: the `ETag` a read carries, and the precondition a
//! write built on that read sends back.
use vstd::prelude::*;
use crate::api::auth::{header_text, is_header_text};
use crate::api::error::Error;
use crate::api::transport::{
    header_spec, headers_view, set_header, set_header_spec, Header, TmfRequest,
};
use crate::model::extensible::TmfType;
use crate::model::reference::Entity;
use crate::text::{chars_of, starts_with, str_starts_with, string_of_range, trim, trim_range};

verus! {

/// An entity tag, as the server sent it, quotes and weakness prefix
/// included.
#[derive(Debug, Clone, PartialEq, Eq, Hash)]
pub struct EntityTag(pub String);

/// The tag a response carries: its `ETag` header trimmed, when that is text
/// and not blank.
pub open spec fn etag_spec(hs: Seq<Header>) -> Option<Seq<char>> {
    match header_spec(hs, seq!['e', 't', 'a', 'g']) {
        Some(v) => if trim(v).len() > 0 {
            Some(trim(v))
        } else {
            None
        },
        None => None,
    }
}

impl EntityTag {
    /// The tag as the server sent it.
    pub fn as_str(&self) -> (r: &str)
        ensures
            r@ == self.0@,
    {
        self.0.as_str()
    }

    /// Whether this is a weak validator (`W/"…"`), which says two
    /// representations are equivalent but not that they are byte-identical,
    /// and so cannot guard a write.
    pub fn is_weak(&self) -> (r: bool)
        ensures
            r == starts_with(self.0@, seq!['W', '/']),
    {
        proof {
            reveal_strlit("W/");
            assert("W/"@ =~= seq!['W', '/']);
        }
        str_starts_with(self.0.as_str(), "W/")
    }

    /// The tag a response carries.
    pub fn from_headers(headers: &Vec<Header>) -> (r: Option<EntityTag>)
        ensures
            r matches Some(t) ==> etag_spec(headers@) == Some(t.0@),
            r is None ==> etag_spec(headers@) is None,
    {
        proof {
            reveal_strlit("etag");
            assert("etag"@ =~= seq!['e', 't', 'a', 'g']);
        }
        let raw = match crate::api::transport::header_value(headers, "etag") {
            Some(v) => v,
            None => return None,
        };
        let c = chars_of(raw.as_str());
        assert(c@.subrange(0, c@.len() as int) =~= c@);
        let (a, b) = trim_range(c.as_slice(), 0, c.len());
        if a == b {
            return None;
        }
        Some(EntityTag(string_of_range(c.as_slice(), a, b)))
    }
}

/// A resource as read, with the entity tag the server issued for it.
#[derive(Debug, Clone)]
pub struct Tagged<T> {
    resource: T,
    etag: Option<EntityTag>,
}

impl<T> Tagged<T> {
    /// The resource.
    pub closed spec fn resource_spec(&self) -> T {
        self.resource
    }

    /// The tag, if the server issued one.
    pub closed spec fn etag_spec(&self) -> Option<EntityTag> {
        self.etag
    }

    /// Pairs a resource with the tag it was read with.
    pub fn new(resource: T, etag: Option<EntityTag>) -> (r: Self)
        ensures
            r.resource_spec() == resource,
            r.etag_spec() == etag,
    {
        Tagged { resource, etag }
    }

    /// The resource.
    pub fn resource(&self) -> (r: &T)
        ensures
            *r == self.resource_spec(),
    {
        &self.resource
    }

    /// The tag, if the server issued one.
    pub fn etag(&self) -> (r: Option<&EntityTag>)
        ensures
            match r {
                Some(t) => self.etag_spec() == Some(*t),
                None => self.etag_spec() is None,
            },
    {
        self.etag.as_ref()
    }

    /// The resource, dropping the tag.
    pub fn into_inner(self) -> (r: T)
        ensures
            r == self.resource_spec(),
    {
        self.resource
    }

    /// The tag a conditional write is made on, or [`Error::NoEntityTag`]
    /// when the server issued none: writing anyway would be the silent
    /// overwrite the precondition exists to prevent.
    pub fn precondition(&self) -> (r: Result<&EntityTag, Error>)
        ensures
            match r {
                Ok(t) => self.etag_spec() == Some(*t),
                Err(e) => self.etag_spec() is None && e is NoEntityTag,
            },
    {
        match &self.etag {
            Some(t) => Ok(t),
            None => Err(Error::NoEntityTag),
        }
    }
}

impl<T: Entity> Tagged<T> {
    /// The identifier a write goes to; a resource read without one has
    /// nowhere to be written back to.
    pub fn address(&self) -> (r: Result<&str, Error>)
        ensures
            match r {
                Ok(id) => self.resource_spec().id_spec() == Some(id@),
                Err(e) => self.resource_spec().id_spec() is None && (e matches Error::InvalidBaseUrl(m)
                    && m@ == "the "@ + T::TYPE_NAME@
                    + " that was read carries no id, so there is nothing to write back to"@),
            },
    {
        match self.resource.id() {
            Some(id) => Ok(id),
            None => {
                let mut message = "the ".to_owned();
                crate::text::push_str(&mut message, T::TYPE_NAME);
                crate::text::push_str(
                    &mut message,
                    " that was read carries no id, so there is nothing to write back to",
                );
                assert(message@ =~= "the "@ + T::TYPE_NAME@
                    + " that was read carries no id, so there is nothing to write back to"@);
                Err(Error::InvalidBaseUrl(message))
            },
        }
    }
}

/// Makes `request` conditional on `etag` through the header `name`
/// (`if-match` for a write, `if-none-match` for a read), when the tag can be
/// sent as a header value; one that cannot leaves the request unchanged.
pub fn condition_on(request: &mut TmfRequest, name: &str, etag: &EntityTag)
    ensures
        header_text(etag.0@) ==> headers_view(final(request).headers@) == set_header_spec(
            headers_view(old(request).headers@),
            name@,
            etag.0@,
        ),
        !header_text(etag.0@) ==> final(request).headers@ == old(request).headers@,
        final(request).method == old(request).method,
        final(request).url == old(request).url,
        final(request).query == old(request).query,
        final(request).body == old(request).body,
{
    if is_header_text(etag.as_str()) {
        set_header(&mut request.headers, name, etag.as_str());
    }
}

} // verus!
