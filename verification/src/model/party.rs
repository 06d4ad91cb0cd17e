//! The two targets a related party can name.
use vstd::prelude::*;
use crate::model::extensible::{Extensions, TmfType};
use crate::model::reference::{carries_same_members, Ref};
use crate::text::str_eq;

verus! {

/// The `Party` class, as the target of a reference.
#[derive(Debug, Clone, Copy, PartialEq, Eq, Structural)]
pub struct Party;

impl TmfType for Party {
    const TYPE_NAME: &'static str = "Party";
    const REF_TYPE_NAME: &'static str = "PartyRef";
}

/// The `PartyRole` class, as the target of a reference.
#[derive(Debug, Clone, Copy, PartialEq, Eq, Structural)]
pub struct PartyRole;

impl TmfType for PartyRole {
    const TYPE_NAME: &'static str = "PartyRole";
    const REF_TYPE_NAME: &'static str = "PartyRoleRef";
}

/// The target of a related party: a party, or a party role. Both have one
/// wire shape; `@type` tells them apart.
pub enum PartyOrPartyRole {
    /// A party.
    Party(Ref<Party>),
    /// A party role.
    Role(Ref<PartyRole>),
}

/// The class a reference declares: its `@type`, or `default` when empty.
pub open spec fn declared_class(at_type: Seq<char>, default: Seq<char>) -> Seq<char> {
    if at_type.len() == 0 {
        default
    } else {
        at_type
    }
}

impl PartyOrPartyRole {
    /// Which arm a reference read from the wire is: a role when it declares
    /// `PartyRoleRef`, and a party otherwise, an undeclared class included.
    pub fn classify(reference: Ref<Party>) -> (r: Self)
        ensures
            declared_class(reference.at_type@, "PartyRef"@) == "PartyRoleRef"@ ==> (r matches PartyOrPartyRole::Role(x) && carries_same_members(x, reference)),
            declared_class(reference.at_type@, "PartyRef"@) != "PartyRoleRef"@ ==> (r matches PartyOrPartyRole::Party(x) && carries_same_members(x, reference)),
    {
        let class = reference.class_name();
        if str_eq(class.as_str(), "PartyRoleRef") {
            PartyOrPartyRole::Role(reference.retarget())
        } else {
            PartyOrPartyRole::Party(reference)
        }
    }

    /// The referenced id.
    pub fn id(&self) -> (r: &str)
        ensures
            r@ == match self {
                PartyOrPartyRole::Party(x) => x.id@,
                PartyOrPartyRole::Role(x) => x.id@,
            },
    {
        match self {
            PartyOrPartyRole::Party(x) => x.id.as_str(),
            PartyOrPartyRole::Role(x) => x.id.as_str(),
        }
    }

    /// The class of the reference, defaulting to the arm's reference class.
    pub fn class_name(&self) -> (r: String)
        ensures
            r@ == match self {
                PartyOrPartyRole::Party(x) => declared_class(x.at_type@, "PartyRef"@),
                PartyOrPartyRole::Role(x) => declared_class(x.at_type@, "PartyRoleRef"@),
            },
    {
        match self {
            PartyOrPartyRole::Party(x) => x.class_name(),
            PartyOrPartyRole::Role(x) => x.class_name(),
        }
    }

    /// The class of the referenced party or role, when the reference says.
    pub fn referred_type(&self) -> (r: Option<&str>)
        ensures
            match r {
                Some(t) => match self {
                    PartyOrPartyRole::Party(x) => x.referred_type matches Some(u) && u@ == t@,
                    PartyOrPartyRole::Role(x) => x.referred_type matches Some(u) && u@ == t@,
                },
                None => match self {
                    PartyOrPartyRole::Party(x) => x.referred_type is None,
                    PartyOrPartyRole::Role(x) => x.referred_type is None,
                },
            },
    {
        match self {
            PartyOrPartyRole::Party(x) => match &x.referred_type {
                Some(t) => Some(t.as_str()),
                None => None,
            },
            PartyOrPartyRole::Role(x) => match &x.referred_type {
                Some(t) => Some(t.as_str()),
                None => None,
            },
        }
    }
}

/// A party or party role playing a role in something.
pub struct RelatedParty {
    /// The role played, such as `customer`.
    pub role: Option<String>,
    /// Who plays it.
    pub party_or_party_role: Option<PartyOrPartyRole>,
    /// `@type`; empty when not given.
    pub at_type: String,
    /// `@baseType`.
    pub at_base_type: Option<String>,
    /// `@schemaLocation`.
    pub at_schema_location: Option<String>,
    /// Members beyond those above.
    pub extensions: Extensions,
}

impl TmfType for RelatedParty {
    const TYPE_NAME: &'static str = "RelatedPartyRefOrPartyRoleRef";
    const REF_TYPE_NAME: &'static str = "EntityRef";
}

impl RelatedParty {
    /// `target` playing `role`, declaring the class.
    pub fn new(role: &str, target: PartyOrPartyRole) -> (r: Self)
        ensures
            r.role matches Some(x) && x@ == role@,
            r.party_or_party_role == Some(target),
            r.at_type@ == "RelatedPartyRefOrPartyRoleRef"@,
            r.at_base_type is None,
            r.at_schema_location is None,
            r.extensions@.len() == 0,
    {
        RelatedParty {
            role: Some(role.to_owned()),
            party_or_party_role: Some(target),
            at_type: crate::model::extensible::default_type::<RelatedParty>(),
            at_base_type: None,
            at_schema_location: None,
            extensions: Extensions::new(),
        }
    }
}

} // verus!
