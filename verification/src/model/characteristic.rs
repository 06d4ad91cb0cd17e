//! Characteristics: name–value pairs whose `@type` says what kind of value
//! they hold.
use vstd::prelude::*;
use crate::model::extensible::{Extensions, TmfType};
use crate::text::{chars_of, ends_with, range_ends_with, str_eq, str_ends_with};

verus! {

/// The kind of value a characteristic holds, as its `@type` subclass names
/// it: `StringCharacteristic`, `IntegerArrayCharacteristicValueSpecification`
/// and so on.
#[derive(Debug, Clone, Copy, PartialEq, Eq, Structural)]
pub enum ValueKind {
    /// A JSON string.
    String,
    /// An array of JSON strings.
    StringArray,
    /// A JSON integer.
    Integer,
    /// An array of JSON integers.
    IntegerArray,
    /// A JSON number.
    Number,
    /// An array of JSON numbers.
    NumberArray,
    /// A JSON boolean.
    Boolean,
    /// An array of JSON booleans.
    BooleanArray,
    /// A JSON number, as distinct from `Number` in the v5 mapping.
    Float,
    /// An array of JSON floats.
    FloatArray,
    /// A JSON object.
    Object,
    /// An array of JSON objects.
    ObjectArray,
    /// A JSON object treated as a map. Value specifications only.
    ValueMap,
    /// An array of maps. Value specifications only.
    MapArray,
    /// A subclass this crate does not know, or a payload naming the base class.
    Other,
}

/// The shape of one element of a JSON array, as far as the value kind reads
/// it.
#[derive(Debug, Clone, Copy, PartialEq, Eq, Structural)]
pub enum ElementShape {
    /// `null`.
    Null,
    /// `true` or `false`.
    Bool,
    /// A number that is an integer.
    Integer,
    /// Any other number.
    Fractional,
    /// A string.
    Text,
    /// An object.
    Object,
    /// An array.
    Array,
}

/// The shape of a JSON value, as far as the value kind reads it: scalars by
/// their type, arrays by the shapes of their elements.
#[derive(Debug, Clone)]
pub enum JsonShape {
    /// `null`.
    Null,
    /// `true` or `false`.
    Bool,
    /// A number that is an integer (`is_i64` or `is_u64`).
    Integer,
    /// Any other number.
    Fractional,
    /// A string.
    Text,
    /// An object.
    Object,
    /// An array, by the shapes of its elements.
    Array(Vec<ElementShape>),
}

/// The prefix of a class name before its family suffix. The
/// value-specification suffix ends in the characteristic one, so it is tried
/// first; a name with neither has the empty prefix.
pub open spec fn class_prefix(name: Seq<char>) -> Seq<char> {
    if ends_with(name, "CharacteristicValueSpecification"@) {
        name.take(name.len() - "CharacteristicValueSpecification"@.len())
    } else if ends_with(name, "Characteristic"@) {
        name.take(name.len() - "Characteristic"@.len())
    } else {
        seq![]
    }
}

/// The kind a class-name prefix names.
pub open spec fn kind_of_prefix(prefix: Seq<char>) -> ValueKind {
    if prefix == "String"@ {
        ValueKind::String
    } else if prefix == "StringArray"@ {
        ValueKind::StringArray
    } else if prefix == "Integer"@ {
        ValueKind::Integer
    } else if prefix == "IntegerArray"@ {
        ValueKind::IntegerArray
    } else if prefix == "Number"@ {
        ValueKind::Number
    } else if prefix == "NumberArray"@ {
        ValueKind::NumberArray
    } else if prefix == "Boolean"@ {
        ValueKind::Boolean
    } else if prefix == "BooleanArray"@ {
        ValueKind::BooleanArray
    } else if prefix == "Float"@ {
        ValueKind::Float
    } else if prefix == "FloatArray"@ {
        ValueKind::FloatArray
    } else if prefix == "Object"@ {
        ValueKind::Object
    } else if prefix == "ObjectArray"@ {
        ValueKind::ObjectArray
    } else if prefix == "Map"@ {
        ValueKind::ValueMap
    } else if prefix == "MapArray"@ {
        ValueKind::MapArray
    } else {
        ValueKind::Other
    }
}

/// The kind a `@type` names, in either family.
pub open spec fn kind_of_class(name: Seq<char>) -> ValueKind {
    kind_of_prefix(class_prefix(name))
}

/// The prefix each kind's class names start with.
pub open spec fn prefix_of(kind: ValueKind) -> Seq<char> {
    match kind {
        ValueKind::String => "String"@,
        ValueKind::StringArray => "StringArray"@,
        ValueKind::Integer => "Integer"@,
        ValueKind::IntegerArray => "IntegerArray"@,
        ValueKind::Number => "Number"@,
        ValueKind::NumberArray => "NumberArray"@,
        ValueKind::Boolean => "Boolean"@,
        ValueKind::BooleanArray => "BooleanArray"@,
        ValueKind::Float => "Float"@,
        ValueKind::FloatArray => "FloatArray"@,
        ValueKind::Object => "Object"@,
        ValueKind::ObjectArray => "ObjectArray"@,
        ValueKind::ValueMap => "Map"@,
        ValueKind::MapArray => "MapArray"@,
        ValueKind::Other => seq![],
    }
}

/// The `…Characteristic` class for a kind, where the v5 documents declare
/// one: none for `ValueMap`, `MapArray` and `Other`.
pub open spec fn characteristic_class(kind: ValueKind) -> Option<Seq<char>> {
    match kind {
        ValueKind::ValueMap | ValueKind::MapArray | ValueKind::Other => None,
        _ => Some(prefix_of(kind) + "Characteristic"@),
    }
}

/// The `…CharacteristicValueSpecification` class for a kind: every kind but
/// `Other` has one.
pub open spec fn value_specification_class(kind: ValueKind) -> Option<Seq<char>> {
    match kind {
        ValueKind::Other => None,
        _ => Some(prefix_of(kind) + "CharacteristicValueSpecification"@),
    }
}

/// The array kind whose elements are `kind`; `Other` where none is.
pub open spec fn array_kind(kind: ValueKind) -> ValueKind {
    match kind {
        ValueKind::String => ValueKind::StringArray,
        ValueKind::Integer => ValueKind::IntegerArray,
        ValueKind::Number => ValueKind::NumberArray,
        ValueKind::Boolean => ValueKind::BooleanArray,
        ValueKind::Float => ValueKind::FloatArray,
        ValueKind::Object => ValueKind::ObjectArray,
        ValueKind::ValueMap => ValueKind::MapArray,
        _ => ValueKind::Other,
    }
}

/// The kind of an array element's shape; an array inside an array names no
/// class, and neither does `null`.
pub open spec fn element_kind(shape: ElementShape) -> ValueKind {
    match shape {
        ElementShape::Null => ValueKind::Other,
        ElementShape::Bool => ValueKind::Boolean,
        ElementShape::Integer => ValueKind::Integer,
        ElementShape::Fractional => ValueKind::Number,
        ElementShape::Text => ValueKind::String,
        ElementShape::Object => ValueKind::Object,
        ElementShape::Array => ValueKind::Other,
    }
}

/// The kind a JSON value's shape is: an integer reads as `Integer`, an
/// array whose elements all have one kind as that kind's array, and a shape
/// that names no class — `null`, an empty array, mixed elements — as
/// `Other`. `ValueMap` and `Float` are never the answer: JSON cannot tell them
/// from an object and a number.
pub open spec fn kind_of_shape(shape: JsonShape) -> ValueKind {
    match shape {
        JsonShape::Null => ValueKind::Other,
        JsonShape::Bool => ValueKind::Boolean,
        JsonShape::Integer => ValueKind::Integer,
        JsonShape::Fractional => ValueKind::Number,
        JsonShape::Text => ValueKind::String,
        JsonShape::Object => ValueKind::Object,
        JsonShape::Array(items) => if items@.len() == 0 {
            ValueKind::Other
        } else if forall|i: int|
            0 <= i < items@.len() ==> element_kind(#[trigger] items@[i]) == element_kind(items@[0]) {
            array_kind(element_kind(items@[0]))
        } else {
            ValueKind::Other
        },
    }
}

/// The JSON shape an array element has when it stands on its own, for an
/// element that is not itself an array.
pub open spec fn standalone_shape(e: ElementShape) -> JsonShape {
    match e {
        ElementShape::Null => JsonShape::Null,
        ElementShape::Bool => JsonShape::Bool,
        ElementShape::Integer => JsonShape::Integer,
        ElementShape::Fractional => JsonShape::Fractional,
        ElementShape::Text => JsonShape::Text,
        ElementShape::Object => JsonShape::Object,
        ElementShape::Array => JsonShape::Null,
    }
}

/// An array reads as the array of what its elements read as alone: when
/// every element, on its own, has the same kind `K`, the array is `K`'s
/// array kind (integers make an `IntegerArray`, just as one integer is an
/// `Integer`); when they differ, it names no class.
pub proof fn lemma_an_array_reads_as_its_elements(items: Vec<ElementShape>)
    requires
        items@.len() > 0,
        forall|i: int| 0 <= i < items@.len() ==> items@[i] != ElementShape::Array,
    ensures
        kind_of_shape(JsonShape::Array(items)) == if forall|i: int|
            0 <= i < items@.len() ==> kind_of_shape(standalone_shape(#[trigger] items@[i]))
                == kind_of_shape(standalone_shape(items@[0])) {
            array_kind(kind_of_shape(standalone_shape(items@[0])))
        } else {
            ValueKind::Other
        },
{
    assert forall|i: int| 0 <= i < items@.len() implies element_kind(#[trigger] items@[i])
        == kind_of_shape(standalone_shape(items@[i])) by {
        assert(items@[i] != ElementShape::Array);
    }
    assert(element_kind(items@[0]) == kind_of_shape(standalone_shape(items@[0])));
}

/// Each kind's class names lead back to it: the characteristic class, where
/// there is one, and the value-specification class. Reading a class this
/// crate writes never loses the kind, in particular not `ValueMap`, whose
/// value-specification class ends in the characteristic suffix.
pub proof fn lemma_class_names_round_trip(kind: ValueKind)
    ensures
        characteristic_class(kind) matches Some(c) ==> kind_of_class(c) == kind,
        value_specification_class(kind) matches Some(c) ==> kind_of_class(c) == kind,
{
    reveal_strlit("String");
    reveal_strlit("StringArray");
    reveal_strlit("Integer");
    reveal_strlit("IntegerArray");
    reveal_strlit("Number");
    reveal_strlit("NumberArray");
    reveal_strlit("Boolean");
    reveal_strlit("BooleanArray");
    reveal_strlit("Float");
    reveal_strlit("FloatArray");
    reveal_strlit("Object");
    reveal_strlit("ObjectArray");
    reveal_strlit("Map");
    reveal_strlit("MapArray");
    reveal_strlit("Characteristic");
    reveal_strlit("CharacteristicValueSpecification");
    assert("String"@.len() != "StringArray"@.len());
    assert("String"@.len() != "Integer"@.len());
    assert("String"@.len() != "IntegerArray"@.len());
    assert("String"@[0] != "Number"@[0]);
    assert("String"@.len() != "NumberArray"@.len());
    assert("String"@.len() != "Boolean"@.len());
    assert("String"@.len() != "BooleanArray"@.len());
    assert("String"@.len() != "Float"@.len());
    assert("String"@.len() != "FloatArray"@.len());
    assert("String"@[0] != "Object"@[0]);
    assert("String"@.len() != "ObjectArray"@.len());
    assert("String"@.len() != "Map"@.len());
    assert("String"@.len() != "MapArray"@.len());
    assert("StringArray"@.len() != "Integer"@.len());
    assert("StringArray"@.len() != "IntegerArray"@.len());
    assert("StringArray"@.len() != "Number"@.len());
    assert("StringArray"@[0] != "NumberArray"@[0]);
    assert("StringArray"@.len() != "Boolean"@.len());
    assert("StringArray"@.len() != "BooleanArray"@.len());
    assert("StringArray"@.len() != "Float"@.len());
    assert("StringArray"@.len() != "FloatArray"@.len());
    assert("StringArray"@.len() != "Object"@.len());
    assert("StringArray"@[0] != "ObjectArray"@[0]);
    assert("StringArray"@.len() != "Map"@.len());
    assert("StringArray"@.len() != "MapArray"@.len());
    assert("Integer"@.len() != "IntegerArray"@.len());
    assert("Integer"@.len() != "Number"@.len());
    assert("Integer"@.len() != "NumberArray"@.len());
    assert("Integer"@[0] != "Boolean"@[0]);
    assert("Integer"@.len() != "BooleanArray"@.len());
    assert("Integer"@.len() != "Float"@.len());
    assert("Integer"@.len() != "FloatArray"@.len());
    assert("Integer"@.len() != "Object"@.len());
    assert("Integer"@.len() != "ObjectArray"@.len());
    assert("Integer"@.len() != "Map"@.len());
    assert("Integer"@.len() != "MapArray"@.len());
    assert("IntegerArray"@.len() != "Number"@.len());
    assert("IntegerArray"@.len() != "NumberArray"@.len());
    assert("IntegerArray"@.len() != "Boolean"@.len());
    assert("IntegerArray"@[0] != "BooleanArray"@[0]);
    assert("IntegerArray"@.len() != "Float"@.len());
    assert("IntegerArray"@.len() != "FloatArray"@.len());
    assert("IntegerArray"@.len() != "Object"@.len());
    assert("IntegerArray"@.len() != "ObjectArray"@.len());
    assert("IntegerArray"@.len() != "Map"@.len());
    assert("IntegerArray"@.len() != "MapArray"@.len());
    assert("Number"@.len() != "NumberArray"@.len());
    assert("Number"@.len() != "Boolean"@.len());
    assert("Number"@.len() != "BooleanArray"@.len());
    assert("Number"@.len() != "Float"@.len());
    assert("Number"@.len() != "FloatArray"@.len());
    assert("Number"@[0] != "Object"@[0]);
    assert("Number"@.len() != "ObjectArray"@.len());
    assert("Number"@.len() != "Map"@.len());
    assert("Number"@.len() != "MapArray"@.len());
    assert("NumberArray"@.len() != "Boolean"@.len());
    assert("NumberArray"@.len() != "BooleanArray"@.len());
    assert("NumberArray"@.len() != "Float"@.len());
    assert("NumberArray"@.len() != "FloatArray"@.len());
    assert("NumberArray"@.len() != "Object"@.len());
    assert("NumberArray"@[0] != "ObjectArray"@[0]);
    assert("NumberArray"@.len() != "Map"@.len());
    assert("NumberArray"@.len() != "MapArray"@.len());
    assert("Boolean"@.len() != "BooleanArray"@.len());
    assert("Boolean"@.len() != "Float"@.len());
    assert("Boolean"@.len() != "FloatArray"@.len());
    assert("Boolean"@.len() != "Object"@.len());
    assert("Boolean"@.len() != "ObjectArray"@.len());
    assert("Boolean"@.len() != "Map"@.len());
    assert("Boolean"@.len() != "MapArray"@.len());
    assert("BooleanArray"@.len() != "Float"@.len());
    assert("BooleanArray"@.len() != "FloatArray"@.len());
    assert("BooleanArray"@.len() != "Object"@.len());
    assert("BooleanArray"@.len() != "ObjectArray"@.len());
    assert("BooleanArray"@.len() != "Map"@.len());
    assert("BooleanArray"@.len() != "MapArray"@.len());
    assert("Float"@.len() != "FloatArray"@.len());
    assert("Float"@.len() != "Object"@.len());
    assert("Float"@.len() != "ObjectArray"@.len());
    assert("Float"@.len() != "Map"@.len());
    assert("Float"@.len() != "MapArray"@.len());
    assert("FloatArray"@.len() != "Object"@.len());
    assert("FloatArray"@.len() != "ObjectArray"@.len());
    assert("FloatArray"@.len() != "Map"@.len());
    assert("FloatArray"@.len() != "MapArray"@.len());
    assert("Object"@.len() != "ObjectArray"@.len());
    assert("Object"@.len() != "Map"@.len());
    assert("Object"@.len() != "MapArray"@.len());
    assert("ObjectArray"@.len() != "Map"@.len());
    assert("ObjectArray"@.len() != "MapArray"@.len());
    assert("Map"@.len() != "MapArray"@.len());
    assert("Characteristic"@.last() != "CharacteristicValueSpecification"@.last());
    if let Some(c) = characteristic_class(kind) {
        let p = prefix_of(kind);
        assert(c.take(c.len() - "Characteristic"@.len()) =~= p);
        assert(c.subrange(c.len() - "Characteristic"@.len(), c.len() as int) =~= "Characteristic"@);
        assert(c.last() == "Characteristic"@.last());
        if ends_with(c, "CharacteristicValueSpecification"@) {
            assert(c.subrange(c.len() - "CharacteristicValueSpecification"@.len(), c.len() as int).last() == c.last());
        }
        assert(class_prefix(c) == p);
    }
    if let Some(c) = value_specification_class(kind) {
        let p = prefix_of(kind);
        assert(c.take(c.len() - "CharacteristicValueSpecification"@.len()) =~= p);
        assert(c.subrange(c.len() - "CharacteristicValueSpecification"@.len(), c.len() as int) =~= "CharacteristicValueSpecification"@);
        assert(class_prefix(c) == p);
    }
}


impl ValueKind {
    /// Every kind the v5 documents declare a class for; `Other`, the absence
    /// of a kind, is not among them.
    pub fn all() -> (r: Vec<ValueKind>)
        ensures
            r@ == seq![
                ValueKind::String,
                ValueKind::StringArray,
                ValueKind::Integer,
                ValueKind::IntegerArray,
                ValueKind::Number,
                ValueKind::NumberArray,
                ValueKind::Boolean,
                ValueKind::BooleanArray,
                ValueKind::Float,
                ValueKind::FloatArray,
                ValueKind::Object,
                ValueKind::ObjectArray,
                ValueKind::ValueMap,
                ValueKind::MapArray,
            ],
    {
        vec![
            ValueKind::String,
            ValueKind::StringArray,
            ValueKind::Integer,
            ValueKind::IntegerArray,
            ValueKind::Number,
            ValueKind::NumberArray,
            ValueKind::Boolean,
            ValueKind::BooleanArray,
            ValueKind::Float,
            ValueKind::FloatArray,
            ValueKind::Object,
            ValueKind::ObjectArray,
            ValueKind::ValueMap,
            ValueKind::MapArray,
        ]
    }

    /// The kind a `@type` names, in either family; an unknown name is
    /// `Other`, so a vendor subclass never fails a parse.
    pub fn from_type_name(name: &str) -> (r: ValueKind)
        ensures
            r == kind_of_class(name@),
    {
        let v = chars_of(name);
        let vs = chars_of("CharacteristicValueSpecification");
        let ch = chars_of("Characteristic");
        assert(v@.subrange(0, v@.len() as int) =~= v@);
        let cut = if range_ends_with(v.as_slice(), 0, v.len(), vs.as_slice()) {
            v.len() - vs.len()
        } else if range_ends_with(v.as_slice(), 0, v.len(), ch.as_slice()) {
            v.len() - ch.len()
        } else {
            0
        };
        let prefix = crate::text::string_of_range(v.as_slice(), 0, cut);
        let p = prefix.as_str();
        proof {
            assert(v@.subrange(0, cut as int) =~= class_prefix(name@));
        }
        if str_eq(p, "String") {
            ValueKind::String
        } else if str_eq(p, "StringArray") {
            ValueKind::StringArray
        } else if str_eq(p, "Integer") {
            ValueKind::Integer
        } else if str_eq(p, "IntegerArray") {
            ValueKind::IntegerArray
        } else if str_eq(p, "Number") {
            ValueKind::Number
        } else if str_eq(p, "NumberArray") {
            ValueKind::NumberArray
        } else if str_eq(p, "Boolean") {
            ValueKind::Boolean
        } else if str_eq(p, "BooleanArray") {
            ValueKind::BooleanArray
        } else if str_eq(p, "Float") {
            ValueKind::Float
        } else if str_eq(p, "FloatArray") {
            ValueKind::FloatArray
        } else if str_eq(p, "Object") {
            ValueKind::Object
        } else if str_eq(p, "ObjectArray") {
            ValueKind::ObjectArray
        } else if str_eq(p, "Map") {
            ValueKind::ValueMap
        } else if str_eq(p, "MapArray") {
            ValueKind::MapArray
        } else {
            ValueKind::Other
        }
    }

    /// The array kind whose elements are this kind; `Other` for a kind
    /// whose arrays name no class.
    pub fn array_of(self) -> (r: ValueKind)
        ensures
            r == array_kind(self),
    {
        match self {
            ValueKind::String => ValueKind::StringArray,
            ValueKind::Integer => ValueKind::IntegerArray,
            ValueKind::Number => ValueKind::NumberArray,
            ValueKind::Boolean => ValueKind::BooleanArray,
            ValueKind::Float => ValueKind::FloatArray,
            ValueKind::Object => ValueKind::ObjectArray,
            ValueKind::ValueMap => ValueKind::MapArray,
            _ => ValueKind::Other,
        }
    }

    /// Whether this kind is one of the array shapes.
    pub fn is_array(self) -> (r: bool)
        ensures
            r == (self is StringArray || self is IntegerArray || self is NumberArray
                || self is BooleanArray || self is FloatArray || self is ObjectArray
                || self is MapArray),
    {
        match self {
            ValueKind::StringArray | ValueKind::IntegerArray | ValueKind::NumberArray
            | ValueKind::BooleanArray | ValueKind::FloatArray | ValueKind::ObjectArray
            | ValueKind::MapArray => true,
            _ => false,
        }
    }

    /// The `…Characteristic` class for this kind, if the v5 documents
    /// declare one.
    pub fn characteristic_type(self) -> (r: Option<&'static str>)
        ensures
            match r {
                Some(s) => characteristic_class(self) == Some(s@),
                None => characteristic_class(self) is None,
            },
    {
        let r = match self {
            ValueKind::String => Some("StringCharacteristic"),
            ValueKind::StringArray => Some("StringArrayCharacteristic"),
            ValueKind::Integer => Some("IntegerCharacteristic"),
            ValueKind::IntegerArray => Some("IntegerArrayCharacteristic"),
            ValueKind::Number => Some("NumberCharacteristic"),
            ValueKind::NumberArray => Some("NumberArrayCharacteristic"),
            ValueKind::Boolean => Some("BooleanCharacteristic"),
            ValueKind::BooleanArray => Some("BooleanArrayCharacteristic"),
            ValueKind::Float => Some("FloatCharacteristic"),
            ValueKind::FloatArray => Some("FloatArrayCharacteristic"),
            ValueKind::Object => Some("ObjectCharacteristic"),
            ValueKind::ObjectArray => Some("ObjectArrayCharacteristic"),
            _ => None,
        };
        proof {
            reveal_strlit("String");
            reveal_strlit("StringCharacteristic");
            reveal_strlit("StringArray");
            reveal_strlit("StringArrayCharacteristic");
            reveal_strlit("Integer");
            reveal_strlit("IntegerCharacteristic");
            reveal_strlit("IntegerArray");
            reveal_strlit("IntegerArrayCharacteristic");
            reveal_strlit("Number");
            reveal_strlit("NumberCharacteristic");
            reveal_strlit("NumberArray");
            reveal_strlit("NumberArrayCharacteristic");
            reveal_strlit("Boolean");
            reveal_strlit("BooleanCharacteristic");
            reveal_strlit("BooleanArray");
            reveal_strlit("BooleanArrayCharacteristic");
            reveal_strlit("Float");
            reveal_strlit("FloatCharacteristic");
            reveal_strlit("FloatArray");
            reveal_strlit("FloatArrayCharacteristic");
            reveal_strlit("Object");
            reveal_strlit("ObjectCharacteristic");
            reveal_strlit("ObjectArray");
            reveal_strlit("ObjectArrayCharacteristic");
            reveal_strlit("Map");
            reveal_strlit("MapArray");
            reveal_strlit("Characteristic");
            if let Some(s) = r {
                assert(s@ =~= prefix_of(self) + "Characteristic"@);
            }
        }
        r
    }

    /// The `…CharacteristicValueSpecification` class for this kind; `None`
    /// only for `Other`.
    pub fn value_specification_type(self) -> (r: Option<&'static str>)
        ensures
            match r {
                Some(s) => value_specification_class(self) == Some(s@),
                None => value_specification_class(self) is None,
            },
    {
        let r = match self {
            ValueKind::String => Some("StringCharacteristicValueSpecification"),
            ValueKind::StringArray => Some("StringArrayCharacteristicValueSpecification"),
            ValueKind::Integer => Some("IntegerCharacteristicValueSpecification"),
            ValueKind::IntegerArray => Some("IntegerArrayCharacteristicValueSpecification"),
            ValueKind::Number => Some("NumberCharacteristicValueSpecification"),
            ValueKind::NumberArray => Some("NumberArrayCharacteristicValueSpecification"),
            ValueKind::Boolean => Some("BooleanCharacteristicValueSpecification"),
            ValueKind::BooleanArray => Some("BooleanArrayCharacteristicValueSpecification"),
            ValueKind::Float => Some("FloatCharacteristicValueSpecification"),
            ValueKind::FloatArray => Some("FloatArrayCharacteristicValueSpecification"),
            ValueKind::Object => Some("ObjectCharacteristicValueSpecification"),
            ValueKind::ObjectArray => Some("ObjectArrayCharacteristicValueSpecification"),
            ValueKind::ValueMap => Some("MapCharacteristicValueSpecification"),
            ValueKind::MapArray => Some("MapArrayCharacteristicValueSpecification"),
            ValueKind::Other => None,
        };
        proof {
            reveal_strlit("String");
            reveal_strlit("StringCharacteristicValueSpecification");
            reveal_strlit("StringArray");
            reveal_strlit("StringArrayCharacteristicValueSpecification");
            reveal_strlit("Integer");
            reveal_strlit("IntegerCharacteristicValueSpecification");
            reveal_strlit("IntegerArray");
            reveal_strlit("IntegerArrayCharacteristicValueSpecification");
            reveal_strlit("Number");
            reveal_strlit("NumberCharacteristicValueSpecification");
            reveal_strlit("NumberArray");
            reveal_strlit("NumberArrayCharacteristicValueSpecification");
            reveal_strlit("Boolean");
            reveal_strlit("BooleanCharacteristicValueSpecification");
            reveal_strlit("BooleanArray");
            reveal_strlit("BooleanArrayCharacteristicValueSpecification");
            reveal_strlit("Float");
            reveal_strlit("FloatCharacteristicValueSpecification");
            reveal_strlit("FloatArray");
            reveal_strlit("FloatArrayCharacteristicValueSpecification");
            reveal_strlit("Object");
            reveal_strlit("ObjectCharacteristicValueSpecification");
            reveal_strlit("ObjectArray");
            reveal_strlit("ObjectArrayCharacteristicValueSpecification");
            reveal_strlit("Map");
            reveal_strlit("MapCharacteristicValueSpecification");
            reveal_strlit("MapArray");
            reveal_strlit("MapArrayCharacteristicValueSpecification");
            reveal_strlit("CharacteristicValueSpecification");
            if let Some(s) = r {
                assert(s@ =~= prefix_of(self) + "CharacteristicValueSpecification"@);
            }
        }
        r
    }

    /// The kind of a JSON value's shape.
    pub fn of_value(shape: &JsonShape) -> (r: ValueKind)
        ensures
            r == kind_of_shape(*shape),
    {
        match shape {
            JsonShape::Null => ValueKind::Other,
            JsonShape::Bool => ValueKind::Boolean,
            JsonShape::Integer => ValueKind::Integer,
            JsonShape::Fractional => ValueKind::Number,
            JsonShape::Text => ValueKind::String,
            JsonShape::Object => ValueKind::Object,
            JsonShape::Array(items) => {
                if items.len() == 0 {
                    return ValueKind::Other;
                }
                let first = element_kind_of(items[0]);
                let mut i: usize = 1;
                while i < items.len()
                    invariant
                        1 <= i <= items@.len(),
                        *shape == JsonShape::Array(*items),
                        first == element_kind(items@[0]),
                        forall|j: int| 0 <= j < i ==> element_kind(#[trigger] items@[j]) == first,
                    decreases items@.len() - i,
                {
                    if element_kind_of(items[i]) != first {
                        assert(element_kind(items@[i as int]) != element_kind(items@[0]));
                        return ValueKind::Other;
                    }
                    i = i + 1;
                }
                first.array_of()
            },
        }
    }
}

/// The kind of an array element's shape.
fn element_kind_of(shape: ElementShape) -> (r: ValueKind)
    ensures
        r == element_kind(shape),
{
    match shape {
        ElementShape::Null => ValueKind::Other,
        ElementShape::Bool => ValueKind::Boolean,
        ElementShape::Integer => ValueKind::Integer,
        ElementShape::Fractional => ValueKind::Number,
        ElementShape::Text => ValueKind::String,
        ElementShape::Object => ValueKind::Object,
        ElementShape::Array => ValueKind::Other,
    }
}

/// A characteristic: a named value, and the subclass its `@type` declares.
/// The value is held as its JSON text, with its shape beside it.
#[derive(Debug, Clone)]
pub struct Characteristic {
    /// Identifier of the characteristic.
    pub id: Option<String>,
    /// Its name.
    pub name: Option<String>,
    /// The kind of value, in words.
    pub value_type: Option<String>,
    /// The value, as JSON text.
    pub value: Option<String>,
    /// Relationships to other characteristics, as JSON text.
    pub characteristic_relationship: Option<String>,
    /// `@type`; empty when not given.
    pub at_type: String,
    /// `@baseType`.
    pub at_base_type: Option<String>,
    /// `@schemaLocation`.
    pub at_schema_location: Option<String>,
    /// Members beyond those above.
    pub extensions: Extensions,
}

impl TmfType for Characteristic {
    const TYPE_NAME: &'static str = "Characteristic";
    const REF_TYPE_NAME: &'static str = "EntityRef";
}

/// The class a payload declares: its `@type`, or `default` when empty.
pub open spec fn class_or(at_type: Seq<char>, default: Seq<char>) -> Seq<char> {
    if at_type.len() == 0 {
        default
    } else {
        at_type
    }
}

impl Characteristic {
    /// A characteristic named `name` holding the JSON `value` of the given
    /// shape, declaring the subclass that shape implies.
    pub fn new(name: &str, value: &str, shape: &JsonShape) -> (r: Self)
        ensures
            r.name matches Some(n) && n@ == name@,
            r.value matches Some(v) && v@ == value@,
            r.at_type@ == (match characteristic_class(kind_of_shape(*shape)) {
                Some(c) => c,
                None => "Characteristic"@,
            }),
            r.id is None,
            r.value_type is None,
            r.characteristic_relationship is None,
            r.at_base_type is None,
            r.at_schema_location is None,
            r.extensions@.len() == 0,
    {
        let base = Characteristic {
            id: None,
            name: Some(name.to_owned()),
            value_type: None,
            value: None,
            characteristic_relationship: None,
            at_type: crate::model::extensible::default_type::<Characteristic>(),
            at_base_type: None,
            at_schema_location: None,
            extensions: Extensions::new(),
        };
        base.with_value(value, shape)
    }

    /// Sets the JSON `value`, of the given shape, and the `@type` that shape
    /// implies; a shape that names no subclass leaves `@type` as it was.
    pub fn with_value(self, value: &str, shape: &JsonShape) -> (r: Self)
        ensures
            r.value matches Some(v) && v@ == value@,
            r.at_type@ == (match characteristic_class(kind_of_shape(*shape)) {
                Some(c) => c,
                None => self.at_type@,
            }),
            r.id == self.id,
            r.name == self.name,
            r.value_type == self.value_type,
            r.characteristic_relationship == self.characteristic_relationship,
            r.at_base_type == self.at_base_type,
            r.at_schema_location == self.at_schema_location,
            r.extensions == self.extensions,
    {
        let at_type = match ValueKind::of_value(shape).characteristic_type() {
            Some(class) => class.to_owned(),
            None => self.at_type,
        };
        Characteristic { value: Some(value.to_owned()), at_type, ..self }
    }

    /// Sets the kind of value, in words.
    pub fn with_value_type(self, value_type: &str) -> (r: Self)
        ensures
            r.value_type matches Some(t) && t@ == value_type@,
            r.id == self.id,
            r.name == self.name,
            r.value == self.value,
            r.characteristic_relationship == self.characteristic_relationship,
            r.at_type == self.at_type,
            r.at_base_type == self.at_base_type,
            r.at_schema_location == self.at_schema_location,
            r.extensions == self.extensions,
    {
        Characteristic { value_type: Some(value_type.to_owned()), ..self }
    }

    /// The class this characteristic declares, defaulting to `Characteristic`.
    pub fn class_name(&self) -> (r: String)
        ensures
            r@ == class_or(self.at_type@, "Characteristic"@),
    {
        if self.at_type.as_str().is_empty() {
            "Characteristic".to_owned()
        } else {
            self.at_type.clone()
        }
    }

    /// The kind of value the `@type` claims, which may differ from what the
    /// value is: see [`ValueKind::of_value`].
    pub fn value_kind(&self) -> (r: ValueKind)
        ensures
            r == kind_of_class(class_or(self.at_type@, "Characteristic"@)),
    {
        let name = self.class_name();
        ValueKind::from_type_name(name.as_str())
    }
}

/// A permissible value of a characteristic specification, and the subclass
/// its `@type` declares. The value is held as its JSON text.
#[derive(Debug, Clone)]
pub struct CharacteristicValueSpecification {
    /// The kind of value, in words.
    pub value_type: Option<String>,
    /// Whether this is the default value.
    pub is_default: Option<bool>,
    /// The unit of measure.
    pub unit_of_measure: Option<String>,
    /// When it applies, as JSON text.
    pub valid_for: Option<String>,
    /// Lower bound of a range.
    pub value_from: Option<i64>,
    /// Upper bound of a range.
    pub value_to: Option<i64>,
    /// How the range bounds are read.
    pub range_interval: Option<String>,
    /// A pattern values match.
    pub regex: Option<String>,
    /// The value, as JSON text.
    pub value: Option<String>,
    /// `@type`; empty when not given.
    pub at_type: String,
    /// `@baseType`.
    pub at_base_type: Option<String>,
    /// `@schemaLocation`.
    pub at_schema_location: Option<String>,
    /// Members beyond those above.
    pub extensions: Extensions,
}

impl TmfType for CharacteristicValueSpecification {
    const TYPE_NAME: &'static str = "CharacteristicValueSpecification";
    const REF_TYPE_NAME: &'static str = "EntityRef";
}

impl CharacteristicValueSpecification {
    /// A value specification holding the JSON `value` of the given shape,
    /// declaring the subclass that shape implies.
    pub fn new(value: &str, shape: &JsonShape) -> (r: Self)
        ensures
            r.value matches Some(v) && v@ == value@,
            r.at_type@ == (match value_specification_class(kind_of_shape(*shape)) {
                Some(c) => c,
                None => "CharacteristicValueSpecification"@,
            }),
            r.value_type is None,
            r.is_default is None,
            r.unit_of_measure is None,
            r.valid_for is None,
            r.value_from is None,
            r.value_to is None,
            r.range_interval is None,
            r.regex is None,
            r.at_base_type is None,
            r.at_schema_location is None,
            r.extensions@.len() == 0,
    {
        let base = CharacteristicValueSpecification {
            value_type: None,
            is_default: None,
            unit_of_measure: None,
            valid_for: None,
            value_from: None,
            value_to: None,
            range_interval: None,
            regex: None,
            value: None,
            at_type: crate::model::extensible::default_type::<CharacteristicValueSpecification>(),
            at_base_type: None,
            at_schema_location: None,
            extensions: Extensions::new(),
        };
        base.with_value(value, shape)
    }

    /// Sets the JSON `value`, of the given shape, and the `@type` that shape
    /// implies; a shape that names no subclass leaves `@type` as it was.
    pub fn with_value(self, value: &str, shape: &JsonShape) -> (r: Self)
        ensures
            r.value matches Some(v) && v@ == value@,
            r.at_type@ == (match value_specification_class(kind_of_shape(*shape)) {
                Some(c) => c,
                None => self.at_type@,
            }),
            r.value_type == self.value_type,
            r.is_default == self.is_default,
            r.unit_of_measure == self.unit_of_measure,
            r.valid_for == self.valid_for,
            r.value_from == self.value_from,
            r.value_to == self.value_to,
            r.range_interval == self.range_interval,
            r.regex == self.regex,
            r.at_base_type == self.at_base_type,
            r.at_schema_location == self.at_schema_location,
            r.extensions == self.extensions,
    {
        let at_type = match ValueKind::of_value(shape).value_specification_type() {
            Some(class) => class.to_owned(),
            None => self.at_type,
        };
        CharacteristicValueSpecification { value: Some(value.to_owned()), at_type, ..self }
    }

    /// The class this value specification declares, defaulting to
    /// `CharacteristicValueSpecification`.
    pub fn class_name(&self) -> (r: String)
        ensures
            r@ == class_or(self.at_type@, "CharacteristicValueSpecification"@),
    {
        if self.at_type.as_str().is_empty() {
            "CharacteristicValueSpecification".to_owned()
        } else {
            self.at_type.clone()
        }
    }

    /// The kind of value the `@type` claims.
    pub fn value_kind(&self) -> (r: ValueKind)
        ensures
            r == kind_of_class(class_or(self.at_type@, "CharacteristicValueSpecification"@)),
    {
        let name = self.class_name();
        ValueKind::from_type_name(name.as_str())
    }
}

/// The specification that owns a characteristic, as the target of a
/// reference.
#[derive(Debug, Clone, Copy, PartialEq, Eq, Structural)]
pub struct SpecificationTarget;

impl TmfType for SpecificationTarget {
    const TYPE_NAME: &'static str = "ProductSpecification";
    const REF_TYPE_NAME: &'static str = "ProductSpecificationRef";
}

} // verus!
