//! TMF630 notification hubs: registering a listener for events.
use vstd::prelude::*;
use crate::model::event::{suffix_of, EventKind};
use crate::model::extensible::{Extensions, TmfType};
use crate::text::push_str;

verus! {

/// The collection listeners are registered in.
pub const HUB: &'static str = "hub";

/// A registered listener, as the server reports it.
#[derive(Debug, Clone)]
pub struct Hub {
    /// Identifier of the registration.
    pub id: Option<String>,
    /// Reference of the registration.
    pub href: Option<String>,
    /// Where events are delivered.
    pub callback: Option<String>,
    /// Which events are delivered.
    pub query: Option<String>,
    /// `@type`; empty when not given.
    pub at_type: String,
    /// `@baseType`.
    pub at_base_type: Option<String>,
    /// `@schemaLocation`.
    pub at_schema_location: Option<String>,
    /// Members beyond those above.
    pub extensions: Extensions,
}

impl TmfType for Hub {
    const TYPE_NAME: &'static str = "Hub";
    const REF_TYPE_NAME: &'static str = "EntityRef";
}

/// A listener to register.
#[derive(Debug, Clone)]
pub struct HubCreate {
    /// Where events are delivered.
    pub callback: String,
    /// Which events are delivered, as `eventType=…`; every event when absent.
    pub query: Option<String>,
    /// `@type`.
    pub at_type: String,
    /// `@baseType`.
    pub at_base_type: Option<String>,
    /// `@schemaLocation`.
    pub at_schema_location: Option<String>,
    /// Members beyond those above.
    pub extensions: Extensions,
}

impl TmfType for HubCreate {
    const TYPE_NAME: &'static str = "Hub";
    const REF_TYPE_NAME: &'static str = "EntityRef";
}

impl HubCreate {
    /// A listener at `callback` for every event.
    pub fn to(callback: &str) -> (r: Self)
        ensures
            r.callback@ == callback@,
            r.query is None,
            r.at_type@ == "Hub"@,
            r.at_base_type is None,
            r.at_schema_location is None,
            r.extensions@.len() == 0,
    {
        HubCreate {
            callback: callback.to_owned(),
            query: None,
            at_type: crate::model::extensible::default_type::<HubCreate>(),
            at_base_type: None,
            at_schema_location: None,
            extensions: Extensions::new(),
        }
    }

    /// A listener at `callback` for the events named `event_type`.
    pub fn for_event(callback: &str, event_type: &str) -> (r: Self)
        ensures
            r.callback@ == callback@,
            r.query matches Some(q) && q@ == "eventType="@ + event_type@,
            r.at_type@ == "Hub"@,
            r.at_base_type is None,
            r.at_schema_location is None,
            r.extensions@.len() == 0,
    {
        let mut query = "eventType=".to_owned();
        push_str(&mut query, event_type);
        HubCreate { query: Some(query), ..Self::to(callback) }
    }

    /// A listener at `callback` for `kind` events about resources of class
    /// `T`, such as `ProductOfferingCreateEvent`.
    pub fn for_resource<T: TmfType>(callback: &str, kind: EventKind) -> (r: Self)
        ensures
            r.callback@ == callback@,
            r.query matches Some(q) && q@ == "eventType="@ + T::TYPE_NAME@ + suffix_of(kind),
            r.at_type@ == "Hub"@,
            r.at_base_type is None,
            r.at_schema_location is None,
            r.extensions@.len() == 0,
    {
        let name = kind.name_for::<T>();
        let r = Self::for_event(callback, name.as_str());
        assert("eventType="@ + name@ =~= "eventType="@ + T::TYPE_NAME@ + suffix_of(kind));
        r
    }
}

} // verus!
