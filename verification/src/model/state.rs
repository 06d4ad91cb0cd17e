//! The action an order item asks for.
use vstd::prelude::*;
use crate::text::str_eq;

verus! {

/// What an order item does to the thing it names.
#[derive(Debug, Clone, PartialEq, Eq)]
pub enum ItemAction {
    /// Create it.
    Add,
    /// Change it.
    Modify,
    /// Remove it.
    Delete,
    /// Leave it as it is.
    NoChange,
    /// A action this crate does not know, kept as sent.
    Other(String),
}

/// Whether `s` is one of the names [`ItemAction`] has a variant for.
pub open spec fn item_action_known(s: Seq<char>) -> bool {
    s == "add"@
        || s == "modify"@
        || s == "delete"@
        || s == "noChange"@
}

impl ItemAction {
    /// The name this goes by on the wire.
    pub open spec fn wire_spec(&self) -> Seq<char> {
        match self {
            ItemAction::Add => "add"@,
            ItemAction::Modify => "modify"@,
            ItemAction::Delete => "delete"@,
            ItemAction::NoChange => "noChange"@,
            ItemAction::Other(s) => s@,
        }
    }

    /// Whether the wire name `s` reads as `self`: a known name as its
    /// variant, and any other name as `Other` holding it.
    pub open spec fn read_from(&self, s: Seq<char>) -> bool {
        match self {
            ItemAction::Add => s == "add"@,
            ItemAction::Modify => s == "modify"@,
            ItemAction::Delete => s == "delete"@,
            ItemAction::NoChange => s == "noChange"@,
            ItemAction::Other(t) => t@ == s && !item_action_known(s),
        }
    }

    /// The name this goes by on the wire.
    pub fn wire(&self) -> (r: String)
        ensures
            r@ == self.wire_spec(),
    {
        match self {
            ItemAction::Add => "add".to_owned(),
            ItemAction::Modify => "modify".to_owned(),
            ItemAction::Delete => "delete".to_owned(),
            ItemAction::NoChange => "noChange".to_owned(),
            ItemAction::Other(s) => s.clone(),
        }
    }

    /// What a wire name reads as. A name this crate does not know is
    /// kept, so it is written back exactly as it was read.
    pub fn from_wire(s: &str) -> (r: Self)
        ensures
            r.read_from(s@),
            r.wire_spec() == s@,
    {
        if str_eq(s, "add") {
            ItemAction::Add
        } else if str_eq(s, "modify") {
            ItemAction::Modify
        } else if str_eq(s, "delete") {
            ItemAction::Delete
        } else if str_eq(s, "noChange") {
            ItemAction::NoChange
        } else {
            ItemAction::Other(s.to_owned())
        }
    }
}

/// Writing a [`ItemAction`] and reading the name back gives the same value;
/// an unknown name comes back as `Other` holding the same name. The one
/// exception is an `Other` spelling a known name, which reads back as that
/// variant.
pub proof fn lemma_item_action_round_trip(e: ItemAction, r: ItemAction)
    requires
        !(e is Other && item_action_known(e.wire_spec())),
        r.read_from(e.wire_spec()),
    ensures
        e is Other ==> r is Other && r.wire_spec() == e.wire_spec(),
        !(e is Other) ==> r == e,
{
    reveal_strlit("add");
    reveal_strlit("modify");
    reveal_strlit("delete");
    reveal_strlit("noChange");
    assert("add"@.len() != "modify"@.len());
    assert("add"@.len() != "delete"@.len());
    assert("add"@.len() != "noChange"@.len());
    assert("modify"@[0] != "delete"@[0]);
    assert("modify"@.len() != "noChange"@.len());
    assert("delete"@.len() != "noChange"@.len());
}

} // verus!
