//! References: how one resource names another.
use vstd::prelude::*;
use std::marker::PhantomData;
use crate::model::extensible::{lookup, Extensions, TmfType};
use crate::text::{opt_str, opt_str_eq, starts_with, str_eq, str_starts_with};

verus! {

/// A reference to a resource of class `T`: its id, and optionally where it
/// lives and what it is called.
#[verifier::reject_recursive_types(T)]
pub struct Ref<T> {
    /// The referenced resource's id.
    pub id: String,
    /// Where it lives.
    pub href: Option<String>,
    /// Its name.
    pub name: Option<String>,
    /// Its version.
    pub version: Option<String>,
    /// `@referredType`: the class of the referenced resource.
    pub referred_type: Option<String>,
    /// `@type`: the class of the reference itself; empty when the payload
    /// did not say, and then not written back.
    pub at_type: String,
    /// `@baseType`.
    pub at_base_type: Option<String>,
    /// `@schemaLocation`.
    pub at_schema_location: Option<String>,
    /// Members beyond those above.
    pub extensions: Extensions,
    /// The class referenced; it carries no data.
    pub marker: PhantomData<T>,
}

/// Whether two references, of any classes, carry the same members.
pub open spec fn carries_same_members<A, B>(x: Ref<A>, y: Ref<B>) -> bool {
    &&& x.id == y.id
    &&& x.href == y.href
    &&& x.name == y.name
    &&& x.version == y.version
    &&& x.referred_type == y.referred_type
    &&& x.at_type == y.at_type
    &&& x.at_base_type == y.at_base_type
    &&& x.at_schema_location == y.at_schema_location
    &&& x.extensions == y.extensions
}

/// Whether an `href` is absolute, that is whether it can be fetched as it
/// stands: it begins `http://` or `https://`.
pub open spec fn absolute(href: Seq<char>) -> bool {
    starts_with(href, "http://"@) || starts_with(href, "https://"@)
}

impl<T: TmfType> Ref<T> {
    /// A reference to the resource `id`, declaring both classes.
    pub fn new(id: &str) -> (r: Self)
        ensures
            r.id@ == id@,
            r.href is None,
            r.name is None,
            r.version is None,
            r.referred_type matches Some(t) && t@ == T::TYPE_NAME@,
            r.at_type@ == T::REF_TYPE_NAME@,
            r.at_base_type is None,
            r.at_schema_location is None,
            r.extensions@.len() == 0,
    {
        Ref {
            id: id.to_owned(),
            href: None,
            name: None,
            version: None,
            referred_type: Some(T::TYPE_NAME.to_owned()),
            at_type: T::REF_TYPE_NAME.to_owned(),
            at_base_type: None,
            at_schema_location: None,
            extensions: Extensions::new(),
            marker: PhantomData,
        }
    }

    /// The class of the reference: its `@type`, or `T`'s reference class
    /// when the payload did not say.
    pub fn class_name(&self) -> (r: String)
        ensures
            r@ == (if self.at_type@.len() == 0 {
                T::REF_TYPE_NAME@
            } else {
                self.at_type@
            }),
    {
        if self.at_type.as_str().is_empty() {
            T::REF_TYPE_NAME.to_owned()
        } else {
            self.at_type.clone()
        }
    }
}

impl<T> Ref<T> {
    /// A reference read from the wire. A missing `@type` stays missing:
    /// re-emitting a member the server did not send would keep a relayed
    /// payload from passing through unchanged.
    pub fn from_parts(
        id: String,
        href: Option<String>,
        name: Option<String>,
        version: Option<String>,
        referred_type: Option<String>,
        at_type: Option<String>,
        at_base_type: Option<String>,
        at_schema_location: Option<String>,
        extensions: Extensions,
    ) -> (r: Self)
        ensures
            r.id == id,
            r.href == href,
            r.name == name,
            r.version == version,
            r.referred_type == referred_type,
            r.at_type@ == (match at_type {
                Some(t) => t@,
                None => Seq::<char>::empty(),
            }),
            r.at_base_type == at_base_type,
            r.at_schema_location == at_schema_location,
            r.extensions@ == extensions@,
    {
        let at_type = match at_type {
            Some(t) => t,
            None => String::new(),
        };
        Ref {
            id,
            href,
            name,
            version,
            referred_type,
            at_type,
            at_base_type,
            at_schema_location,
            extensions,
            marker: PhantomData,
        }
    }

    /// Sets the name.
    pub fn with_name(self, name: &str) -> (r: Self)
        ensures
            r.name matches Some(v) && v@ == name@,
            r.id == self.id,
            r.href == self.href,
            r.version == self.version,
            r.referred_type == self.referred_type,
            r.at_type == self.at_type,
            r.at_base_type == self.at_base_type,
            r.at_schema_location == self.at_schema_location,
            r.extensions == self.extensions,
    {
        Ref { name: Some(name.to_owned()), ..self }
    }

    /// Sets where the resource lives.
    pub fn with_href(self, href: &str) -> (r: Self)
        ensures
            r.href matches Some(v) && v@ == href@,
            r.id == self.id,
            r.name == self.name,
            r.version == self.version,
            r.referred_type == self.referred_type,
            r.at_type == self.at_type,
            r.at_base_type == self.at_base_type,
            r.at_schema_location == self.at_schema_location,
            r.extensions == self.extensions,
    {
        Ref { href: Some(href.to_owned()), ..self }
    }

    /// Sets the version.
    pub fn with_version(self, version: &str) -> (r: Self)
        ensures
            r.version matches Some(v) && v@ == version@,
            r.id == self.id,
            r.href == self.href,
            r.name == self.name,
            r.referred_type == self.referred_type,
            r.at_type == self.at_type,
            r.at_base_type == self.at_base_type,
            r.at_schema_location == self.at_schema_location,
            r.extensions == self.extensions,
    {
        Ref { version: Some(version.to_owned()), ..self }
    }

    /// Sets the class of the referenced resource, for a subclass of `T`.
    pub fn with_referred_type(self, ty: &str) -> (r: Self)
        ensures
            r.referred_type matches Some(v) && v@ == ty@,
            r.id == self.id,
            r.href == self.href,
            r.name == self.name,
            r.version == self.version,
            r.at_type == self.at_type,
            r.at_base_type == self.at_base_type,
            r.at_schema_location == self.at_schema_location,
            r.extensions == self.extensions,
    {
        Ref { referred_type: Some(ty.to_owned()), ..self }
    }

    /// The `@type` to write back: none when the payload declared none.
    pub fn written_type(&self) -> (r: Option<String>)
        ensures
            r matches Some(t) ==> t@ == self.at_type@ && self.at_type@.len() > 0,
            r is None ==> self.at_type@.len() == 0,
    {
        if self.at_type.as_str().is_empty() {
            None
        } else {
            Some(self.at_type.clone())
        }
    }

    /// Whether two references say the same: every member equal, extension
    /// members compared as a set of name and value.
    pub fn same_as(&self, other: &Ref<T>) -> (r: bool)
        ensures
            r == (self.id@ == other.id@ && opt_str(self.href) == opt_str(other.href) && opt_str(
                self.name,
            ) == opt_str(other.name) && opt_str(self.version) == opt_str(other.version) && opt_str(
                self.referred_type,
            ) == opt_str(other.referred_type) && self.at_type@ == other.at_type@ && opt_str(
                self.at_base_type,
            ) == opt_str(other.at_base_type) && opt_str(self.at_schema_location) == opt_str(
                other.at_schema_location,
            ) && forall|k: Seq<char>|
                lookup(self.extensions@, k) == lookup(other.extensions@, k)),
    {
        str_eq(self.id.as_str(), other.id.as_str()) && opt_str_eq(&self.href, &other.href)
            && opt_str_eq(&self.name, &other.name) && opt_str_eq(&self.version, &other.version)
            && opt_str_eq(&self.referred_type, &other.referred_type) && str_eq(
            self.at_type.as_str(),
            other.at_type.as_str(),
        ) && opt_str_eq(&self.at_base_type, &other.at_base_type) && opt_str_eq(
            &self.at_schema_location,
            &other.at_schema_location,
        ) && self.extensions.same_members(&other.extensions)
    }

    /// The `href`, when it is absolute and so can be fetched as it stands.
    pub fn absolute_href(&self) -> (r: Option<&str>)
        ensures
            match r {
                Some(h) => self.href matches Some(s) && s@ == h@ && absolute(h@),
                None => !(self.href matches Some(s) && absolute(s@)),
            },
    {
        match &self.href {
            Some(h) => {
                if str_starts_with(h.as_str(), "http://") || str_starts_with(h.as_str(), "https://") {
                    Some(h.as_str())
                } else {
                    None
                }
            },
            None => None,
        }
    }

    /// The same reference, read as pointing at class `U`.
    pub fn retarget<U>(self) -> (r: Ref<U>)
        ensures
            r.id == self.id,
            r.href == self.href,
            r.name == self.name,
            r.version == self.version,
            r.referred_type == self.referred_type,
            r.at_type == self.at_type,
            r.at_base_type == self.at_base_type,
            r.at_schema_location == self.at_schema_location,
            r.extensions == self.extensions,
    {
        Ref {
            id: self.id,
            href: self.href,
            name: self.name,
            version: self.version,
            referred_type: self.referred_type,
            at_type: self.at_type,
            at_base_type: self.at_base_type,
            at_schema_location: self.at_schema_location,
            extensions: self.extensions,
            marker: PhantomData,
        }
    }

    /// A copy of this reference.
    pub fn duplicate(&self) -> (r: Self)
        ensures
            r.id@ == self.id@,
            opt_str(r.href) == opt_str(self.href),
            opt_str(r.name) == opt_str(self.name),
            opt_str(r.version) == opt_str(self.version),
            opt_str(r.referred_type) == opt_str(self.referred_type),
            r.at_type@ == self.at_type@,
            opt_str(r.at_base_type) == opt_str(self.at_base_type),
            opt_str(r.at_schema_location) == opt_str(self.at_schema_location),
            r.extensions@ == self.extensions@,
    {
        Ref {
            id: self.id.clone(),
            href: self.href.clone(),
            name: self.name.clone(),
            version: self.version.clone(),
            referred_type: self.referred_type.clone(),
            at_type: self.at_type.clone(),
            at_base_type: self.at_base_type.clone(),
            at_schema_location: self.at_schema_location.clone(),
            extensions: self.extensions.clone(),
            marker: PhantomData,
        }
    }
}

/// Where resolving a reference fetches from.
#[derive(Debug, Clone)]
pub enum Target {
    /// The absolute `href` the reference carries.
    Href(String),
    /// The resource's id within its collection.
    Id(String),
}

impl<T> Ref<T> {
    /// Where resolving this reference fetches from: its absolute `href` when
    /// it has one, which is then held to the client's origin, and otherwise
    /// its id within the collection.
    pub fn target(&self) -> (r: Target)
        ensures
            match r {
                Target::Href(h) => self.href matches Some(s) && s@ == h@ && absolute(h@),
                Target::Id(i) => i@ == self.id@ && !(self.href matches Some(s) && absolute(s@)),
            },
    {
        match self.absolute_href() {
            Some(h) => Target::Href(h.to_owned()),
            None => Target::Id(self.id.clone()),
        }
    }
}

/// A resource that knows its own identity.
pub trait Entity: TmfType + Sized {
    /// The identifier, as a spec value.
    spec fn id_spec(&self) -> Option<Seq<char>>;

    /// The identifier, when the payload carries one.
    fn id(&self) -> (r: Option<&str>)
        ensures
            match r {
                Some(s) => self.id_spec() == Some(s@),
                None => self.id_spec() is None,
            },
    ;

    /// Where the resource lives, as a spec value.
    spec fn href_spec(&self) -> Option<Seq<char>>;

    /// Where the resource lives, when the payload says.
    fn href(&self) -> (r: Option<&str>)
        ensures
            match r {
                Some(s) => self.href_spec() == Some(s@),
                None => self.href_spec() is None,
            },
    ;
}

/// A reference to `entity`, carrying its `href` when it has one; `None` for
/// an entity without an id.
pub fn reference_to<E: Entity>(entity: &E) -> (r: Option<Ref<E>>)
    ensures
        match r {
            Some(x) => {
                &&& entity.id_spec() == Some(x.id@)
                &&& opt_str(x.href) == entity.href_spec()
                &&& x.name is None
                &&& x.version is None
                &&& x.referred_type matches Some(t) && t@ == E::TYPE_NAME@
                &&& x.at_type@ == E::REF_TYPE_NAME@
                &&& x.at_base_type is None
                &&& x.at_schema_location is None
                &&& x.extensions@.len() == 0
            },
            None => entity.id_spec() is None,
        },
{
    let id = match entity.id() {
        Some(i) => i,
        None => return None,
    };
    let mut reference = Ref::new(id);
    reference.href = match entity.href() {
        Some(h) => Some(h.to_owned()),
        None => None,
    };
    Some(reference)
}

} // verus!
