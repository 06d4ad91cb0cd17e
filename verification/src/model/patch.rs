//! RFC 6902 JSON Patch operations.
use vstd::prelude::*;
use crate::text::str_eq;
use crate::model::extensible::Extensions;

verus! {

/// An RFC 6902 operation.
#[derive(Debug, Clone, PartialEq, Eq)]
pub enum PatchOperation {
    /// Add a value.
    Add,
    /// Remove a value.
    Remove,
    /// Replace a value.
    Replace,
    /// Move a value.
    Move,
    /// Copy a value.
    Copy,
    /// Test a value.
    Test,
    /// A operation this crate does not know, kept as sent.
    Other(String),
}

/// Whether `s` is one of the names [`PatchOperation`] has a variant for.
pub open spec fn patch_operation_known(s: Seq<char>) -> bool {
    s == "add"@
        || s == "remove"@
        || s == "replace"@
        || s == "move"@
        || s == "copy"@
        || s == "test"@
}

impl PatchOperation {
    /// The name this goes by on the wire.
    pub open spec fn wire_spec(&self) -> Seq<char> {
        match self {
            PatchOperation::Add => "add"@,
            PatchOperation::Remove => "remove"@,
            PatchOperation::Replace => "replace"@,
            PatchOperation::Move => "move"@,
            PatchOperation::Copy => "copy"@,
            PatchOperation::Test => "test"@,
            PatchOperation::Other(s) => s@,
        }
    }

    /// Whether the wire name `s` reads as `self`: a known name as its
    /// variant, and any other name as `Other` holding it.
    pub open spec fn read_from(&self, s: Seq<char>) -> bool {
        match self {
            PatchOperation::Add => s == "add"@,
            PatchOperation::Remove => s == "remove"@,
            PatchOperation::Replace => s == "replace"@,
            PatchOperation::Move => s == "move"@,
            PatchOperation::Copy => s == "copy"@,
            PatchOperation::Test => s == "test"@,
            PatchOperation::Other(t) => t@ == s && !patch_operation_known(s),
        }
    }

    /// The name this goes by on the wire.
    pub fn wire(&self) -> (r: String)
        ensures
            r@ == self.wire_spec(),
    {
        match self {
            PatchOperation::Add => "add".to_owned(),
            PatchOperation::Remove => "remove".to_owned(),
            PatchOperation::Replace => "replace".to_owned(),
            PatchOperation::Move => "move".to_owned(),
            PatchOperation::Copy => "copy".to_owned(),
            PatchOperation::Test => "test".to_owned(),
            PatchOperation::Other(s) => s.clone(),
        }
    }

    /// What a wire name reads as. A name this crate does not know is
    /// kept, so it is written back exactly as it was read.
    pub fn from_wire(s: &str) -> (r: Self)
        ensures
            r.read_from(s@),
            r.wire_spec() == s@,
    {
        if str_eq(s, "add") {
            PatchOperation::Add
        } else if str_eq(s, "remove") {
            PatchOperation::Remove
        } else if str_eq(s, "replace") {
            PatchOperation::Replace
        } else if str_eq(s, "move") {
            PatchOperation::Move
        } else if str_eq(s, "copy") {
            PatchOperation::Copy
        } else if str_eq(s, "test") {
            PatchOperation::Test
        } else {
            PatchOperation::Other(s.to_owned())
        }
    }
}

/// Writing a [`PatchOperation`] and reading the name back gives the same value;
/// an unknown name comes back as `Other` holding the same name. The one
/// exception is an `Other` spelling a known name, which reads back as that
/// variant.
pub proof fn lemma_patch_operation_round_trip(e: PatchOperation, r: PatchOperation)
    requires
        !(e is Other && patch_operation_known(e.wire_spec())),
        r.read_from(e.wire_spec()),
    ensures
        e is Other ==> r is Other && r.wire_spec() == e.wire_spec(),
        !(e is Other) ==> r == e,
{
    reveal_strlit("add");
    reveal_strlit("remove");
    reveal_strlit("replace");
    reveal_strlit("move");
    reveal_strlit("copy");
    reveal_strlit("test");
    assert("add"@.len() != "remove"@.len());
    assert("add"@.len() != "replace"@.len());
    assert("add"@.len() != "move"@.len());
    assert("add"@.len() != "copy"@.len());
    assert("add"@.len() != "test"@.len());
    assert("remove"@.len() != "replace"@.len());
    assert("remove"@.len() != "move"@.len());
    assert("remove"@.len() != "copy"@.len());
    assert("remove"@.len() != "test"@.len());
    assert("replace"@.len() != "move"@.len());
    assert("replace"@.len() != "copy"@.len());
    assert("replace"@.len() != "test"@.len());
    assert("move"@[0] != "copy"@[0]);
    assert("move"@[0] != "test"@[0]);
    assert("copy"@[0] != "test"@[0]);
}

/// One RFC 6902 operation. The `value`, when there is one, is held as its
/// JSON text.
#[derive(Debug, Clone)]
pub struct JsonPatchOp {
    /// The operation.
    pub op: PatchOperation,
    /// The JSON Pointer it applies to.
    pub path: String,
    /// The operand of `add`, `replace` and `test`, as JSON text.
    pub value: Option<String>,
    /// The source of `move` and `copy`.
    pub from: Option<String>,
    /// Members beyond those above.
    pub extensions: Extensions,
}

impl JsonPatchOp {
    /// An operation with the given parts and no extension members.
    fn make(op: PatchOperation, path: &str, value: Option<String>, from: Option<String>) -> (r: Self)
        ensures
            r.op == op,
            r.path@ == path@,
            r.value == value,
            r.from == from,
            r.extensions@.len() == 0,
    {
        JsonPatchOp { op, path: path.to_owned(), value, from, extensions: Extensions::new() }
    }

    /// `add` the JSON `value` at `path`.
    pub fn add(path: &str, value: &str) -> (r: Self)
        ensures
            r.op is Add,
            r.path@ == path@,
            r.value matches Some(v) && v@ == value@,
            r.from is None,
            r.extensions@.len() == 0,
    {
        Self::make(PatchOperation::Add, path, Some(value.to_owned()), None)
    }

    /// `replace` the value at `path` with the JSON `value`.
    pub fn replace(path: &str, value: &str) -> (r: Self)
        ensures
            r.op is Replace,
            r.path@ == path@,
            r.value matches Some(v) && v@ == value@,
            r.from is None,
            r.extensions@.len() == 0,
    {
        Self::make(PatchOperation::Replace, path, Some(value.to_owned()), None)
    }

    /// `remove` the value at `path`.
    pub fn remove(path: &str) -> (r: Self)
        ensures
            r.op is Remove,
            r.path@ == path@,
            r.value is None,
            r.from is None,
            r.extensions@.len() == 0,
    {
        Self::make(PatchOperation::Remove, path, None, None)
    }

    /// `test` that the value at `path` is the JSON `value`.
    pub fn test(path: &str, value: &str) -> (r: Self)
        ensures
            r.op is Test,
            r.path@ == path@,
            r.value matches Some(v) && v@ == value@,
            r.from is None,
            r.extensions@.len() == 0,
    {
        Self::make(PatchOperation::Test, path, Some(value.to_owned()), None)
    }

    /// `move` the value at `from` to `path`.
    pub fn move_from(from: &str, path: &str) -> (r: Self)
        ensures
            r.op is Move,
            r.path@ == path@,
            r.value is None,
            r.from matches Some(f) && f@ == from@,
            r.extensions@.len() == 0,
    {
        Self::make(PatchOperation::Move, path, None, Some(from.to_owned()))
    }

    /// `copy` the value at `from` to `path`.
    pub fn copy_from(from: &str, path: &str) -> (r: Self)
        ensures
            r.op is Copy,
            r.path@ == path@,
            r.value is None,
            r.from matches Some(f) && f@ == from@,
            r.extensions@.len() == 0,
    {
        Self::make(PatchOperation::Copy, path, None, Some(from.to_owned()))
    }
}

} // verus!
