//! Attributes and where they attach on a function.
//!
//! An attribute has one of three shapes: an enum attribute (a builtin kind id
//! with an integer value), a string attribute (a key and a value, both raw
//! bytes), or a type attribute (a builtin kind id with a type). The shape is
//! decided once, when the attribute is built, and every accessor states which
//! shape it needs.

use vstd::pervasive::unreached;
use vstd::prelude::*;

verus! {

/// The largest flat index; it addresses the function itself.
pub const FUNCTION_INDEX: u32 = 0xffff_ffff;

/// The largest parameter number that has a flat index of its own.
pub const MAX_PARAM: u32 = 0xffff_fffd;

/// A type carried by a type attribute, known by its identity alone: two
/// `TypeRef`s stand for the same type exactly when their ids are equal.
#[derive(Clone, Copy, Debug, PartialEq, Eq, Structural, Hash)]
pub struct TypeRef {
    pub id: u64,
}

/// What an attribute holds, as mathematical values.
#[allow(inconsistent_fields)]
pub enum AttributeView {
    /// A builtin kind id with an integer value.
    Enum { kind_id: u32, value: u64 },
    /// A key and a value, both byte sequences.
    Str { key: Seq<u8>, value: Seq<u8> },
    /// A builtin kind id with a type.
    Type { kind_id: u32, ty: TypeRef },
}

impl AttributeView {
    pub open spec fn is_enum(self) -> bool {
        self is Enum
    }

    pub open spec fn is_string(self) -> bool {
        self is Str
    }

    pub open spec fn is_type(self) -> bool {
        self is Type
    }

    /// Enum and type attributes carry a builtin kind id.
    pub open spec fn has_kind_id(self) -> bool {
        self.is_enum() || self.is_type()
    }

    pub open spec fn kind_id(self) -> u32
        recommends
            self.has_kind_id(),
    {
        match self {
            AttributeView::Enum { kind_id, .. } => kind_id,
            AttributeView::Type { kind_id, .. } => kind_id,
            AttributeView::Str { .. } => 0,
        }
    }
}

/// The three shapes of an attribute, with their payloads.
#[allow(inconsistent_fields)]
#[derive(Clone, Debug, PartialEq, Eq)]
pub enum AttributeKind {
    /// A builtin kind id with an integer value (an alignment in bytes, or a
    /// flag given as 0 or 1).
    Enum { kind_id: u32, value: u64 },
    /// A key and a value, as raw bytes: neither need be valid UTF-8, and
    /// either may hold a zero byte.
    Str { key: Vec<u8>, value: Vec<u8> },
    /// A builtin kind id with a type.
    Type { kind_id: u32, ty: TypeRef },
}

impl View for AttributeKind {
    type V = AttributeView;

    open spec fn view(&self) -> AttributeView {
        match self {
            AttributeKind::Enum { kind_id, value } => AttributeView::Enum {
                kind_id: *kind_id,
                value: *value,
            },
            AttributeKind::Str { key, value } => AttributeView::Str { key: key@, value: value@ },
            AttributeKind::Type { kind_id, ty } => AttributeView::Type { kind_id: *kind_id, ty: *ty },
        }
    }
}

/// An attribute on a function, one of its parameters, or its return value.
/// Its shape is fixed when it is built; the accessors of one shape require it.
#[derive(Clone, Debug, PartialEq, Eq)]
pub struct Attribute {
    kind: AttributeKind,
}

impl View for Attribute {
    type V = AttributeView;

    closed spec fn view(&self) -> AttributeView {
        self.kind@
    }
}

impl Attribute {
    /// An attribute of the given shape and payload.
    pub fn new(kind: AttributeKind) -> (r: Attribute)
        ensures
            r@ == kind@,
    {
        Attribute { kind }
    }

    /// An enum attribute of builtin kind `kind_id` with value `value`.
    pub fn enum_attribute(kind_id: u32, value: u64) -> (r: Attribute)
        ensures
            r@ == (AttributeView::Enum { kind_id, value }),
    {
        Attribute { kind: AttributeKind::Enum { kind_id, value } }
    }

    /// A string attribute with key `key` and value `value`.
    pub fn string_attribute(key: Vec<u8>, value: Vec<u8>) -> (r: Attribute)
        ensures
            r@ == (AttributeView::Str { key: key@, value: value@ }),
    {
        Attribute { kind: AttributeKind::Str { key, value } }
    }

    /// A type attribute of builtin kind `kind_id` with type `ty`.
    pub fn type_attribute(kind_id: u32, ty: TypeRef) -> (r: Attribute)
        ensures
            r@ == (AttributeView::Type { kind_id, ty }),
    {
        Attribute { kind: AttributeKind::Type { kind_id, ty } }
    }

    /// The attribute's shape and payload, for a caller that matches on it.
    pub fn kind(&self) -> (r: &AttributeKind)
        ensures
            r@ == self@,
    {
        &self.kind
    }

    /// Whether this is an enum attribute.
    pub fn is_enum(&self) -> (r: bool)
        ensures
            r == self@.is_enum(),
    {
        match &self.kind {
            AttributeKind::Enum { .. } => true,
            _ => false,
        }
    }

    /// Whether this is a string attribute.
    pub fn is_string(&self) -> (r: bool)
        ensures
            r == self@.is_string(),
    {
        match &self.kind {
            AttributeKind::Str { .. } => true,
            _ => false,
        }
    }

    /// Whether this is a type attribute.
    pub fn is_type(&self) -> (r: bool)
        ensures
            r == self@.is_type(),
    {
        match &self.kind {
            AttributeKind::Type { .. } => true,
            _ => false,
        }
    }

    /// The builtin kind id of an enum or a type attribute.
    pub fn get_enum_kind_id(&self) -> (r: u32)
        requires
            self@.has_kind_id(),
        ensures
            r == self@.kind_id(),
    {
        match &self.kind {
            AttributeKind::Enum { kind_id, .. } => *kind_id,
            AttributeKind::Type { kind_id, .. } => *kind_id,
            AttributeKind::Str { .. } => unreached(),
        }
    }

    /// The value of an enum attribute.
    pub fn get_enum_value(&self) -> (r: u64)
        requires
            self@.is_enum(),
        ensures
            r == self@->Enum_value,
    {
        match &self.kind {
            AttributeKind::Enum { value, .. } => *value,
            _ => unreached(),
        }
    }

    /// The key of a string attribute, byte for byte.
    pub fn get_string_kind_id(&self) -> (r: &[u8])
        requires
            self@.is_string(),
        ensures
            r@ == self@->Str_key,
    {
        match &self.kind {
            AttributeKind::Str { key, .. } => key.as_slice(),
            _ => unreached(),
        }
    }

    /// The value of a string attribute, byte for byte.
    pub fn get_string_value(&self) -> (r: &[u8])
        requires
            self@.is_string(),
        ensures
            r@ == self@->Str_value,
    {
        match &self.kind {
            AttributeKind::Str { value, .. } => value.as_slice(),
            _ => unreached(),
        }
    }

    /// The type of a type attribute.
    pub fn get_type_value(&self) -> (r: TypeRef)
        requires
            self@.is_type(),
        ensures
            r == self@->ty,
    {
        match &self.kind {
            AttributeKind::Type { ty, .. } => *ty,
            _ => unreached(),
        }
    }
}

/// Where on a function an attribute is assigned.
#[derive(Clone, Copy, Debug, PartialEq, Eq, Structural, Hash)]
pub enum AttributeLoc {
    /// The function's return value.
    Return,
    /// One of the function's parameters, numbered from 0.
    Param(u32),
    /// The function itself.
    Function,
}

impl AttributeLoc {
    /// A location can be encoded unless it is a parameter whose flat index
    /// would reach the one reserved for the function.
    pub open spec fn encodable(self) -> bool {
        match self {
            AttributeLoc::Param(i) => i <= MAX_PARAM,
            _ => true,
        }
    }

    /// The flat index of a location: 0 for the return value, `i + 1` for
    /// parameter `i`, and the largest `u32` for the function.
    pub open spec fn index_of(self) -> int {
        match self {
            AttributeLoc::Return => 0,
            AttributeLoc::Param(i) => i + 1,
            AttributeLoc::Function => FUNCTION_INDEX as int,
        }
    }

    /// The flat index under which the attachment calls address this location.
    pub fn get_index(self) -> (r: u32)
        requires
            self.encodable(),
        ensures
            r as int == self.index_of(),
    {
        match self {
            AttributeLoc::Return => 0,
            AttributeLoc::Param(index) => index + 1,
            AttributeLoc::Function => FUNCTION_INDEX,
        }
    }
}

/// An enum attribute is classified as an enum attribute and as nothing else,
/// and gives back exactly the kind id and the value it was built with.
pub proof fn lemma_enum_attribute_round_trip(kind_id: u32, value: u64)
    ensures
        ({
            let a = AttributeView::Enum { kind_id, value };
            &&& a.is_enum()
            &&& !a.is_string()
            &&& !a.is_type()
            &&& a.kind_id() == kind_id
            &&& a->Enum_value == value
        }),
{
}

/// A string attribute is classified as a string attribute and as nothing
/// else, and gives back its key and its value byte for byte.
pub proof fn lemma_string_attribute_round_trip(key: Seq<u8>, value: Seq<u8>)
    ensures
        ({
            let a = AttributeView::Str { key, value };
            &&& a.is_string()
            &&& !a.is_enum()
            &&& !a.is_type()
            &&& a->Str_key == key
            &&& a->Str_value == value
        }),
{
}

/// A type attribute is classified as a type attribute and as nothing else,
/// and gives back exactly the kind id and the type it was built with.
pub proof fn lemma_type_attribute_round_trip(kind_id: u32, ty: TypeRef)
    ensures
        ({
            let a = AttributeView::Type { kind_id, ty };
            &&& a.is_type()
            &&& !a.is_enum()
            &&& !a.is_string()
            &&& a.kind_id() == kind_id
            &&& a->ty == ty
        }),
{
}

/// Classification is decided by the attribute alone: every attribute has
/// exactly one of the three shapes, and attributes with the same contents
/// answer every query alike, however often it is asked.
pub proof fn lemma_classification_is_stable(a: AttributeView, b: AttributeView)
    requires
        a == b,
    ensures
        a.is_enum() || a.is_string() || a.is_type(),
        !(a.is_enum() && a.is_string()),
        !(a.is_enum() && a.is_type()),
        !(a.is_string() && a.is_type()),
        a.is_enum() == b.is_enum(),
        a.is_string() == b.is_string(),
        a.is_type() == b.is_type(),
        a.has_kind_id() ==> a.kind_id() == b.kind_id(),
        a.is_enum() ==> a->Enum_value == b->Enum_value,
        a.is_string() ==> a->Str_key == b->Str_key && a->Str_value == b->Str_value,
        a.is_type() ==> a->ty == b->ty,
{
}

/// Every encodable location has its own flat index: the return value takes
/// 0, parameter `i` takes `i + 1`, and the function takes the largest `u32`,
/// which no parameter reaches; so two different locations never share one.
pub proof fn lemma_index_injective(a: AttributeLoc, b: AttributeLoc)
    requires
        a.encodable(),
        b.encodable(),
    ensures
        0 <= a.index_of() <= FUNCTION_INDEX,
        a.index_of() == b.index_of() <==> a == b,
{
}

} // verus!
