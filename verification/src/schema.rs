//! The schema as the generator reads it: nodes, fields, types and values.
use vstd::prelude::*;

verus! {

/// The discriminant value of a field that belongs to no union.
pub const NO_DISCRIMINANT: u16 = 0xffff;

/// How much room one element of a list takes.
#[derive(Clone, Copy, Debug, PartialEq, Eq, Structural)]
pub enum ElementSize {
    Empty,
    Bit,
    Byte,
    TwoBytes,
    FourBytes,
    EightBytes,
    Pointer,
    InlineComposite,
}

/// The type of a field or constant.
#[derive(Debug)]
pub enum Type {
    Void,
    Bool,
    Int8,
    Int16,
    Int32,
    Int64,
    Uint8,
    Uint16,
    Uint32,
    Uint64,
    Float32,
    Float64,
    Text,
    Data,
    /// A list, with the type of its elements.
    List(Box<Type>),
    /// An enum, with the id of its node.
    Enum(u64),
    /// A struct, with the id of its node.
    Struct(u64),
    /// An interface, with the id of its node.
    Interface(u64),
    AnyPointer,
    /// A kind of type that the decoder did not know.
    Unrecognized,
}

/// A default value or the value of a constant. Only the primitive values are
/// carried; of the others only the kind.
#[derive(Debug)]
#[allow(inconsistent_fields)]
pub enum Value {
    Void,
    Bool(bool),
    Int8(i8),
    Int16(i16),
    Int32(i32),
    Int64(i64),
    Uint8(u8),
    Uint16(u16),
    Uint32(u32),
    Uint64(u64),
    /// A 32-bit float: its bit pattern, and the number written in decimal.
    Float32 { bits: u32, text: String },
    /// A 64-bit float: its bit pattern, and the number written in decimal.
    Float64 { bits: u64, text: String },
    Text,
    Data,
    List,
    /// An enumerant, by its number in its enum.
    Enum(u16),
    Struct,
    Interface,
    AnyPointer,
    /// A kind of value that the decoder did not know.
    Unrecognized,
}

/// What a field is: a slot in the struct's own storage, or a group.
#[derive(Debug)]
pub enum FieldKind {
    Slot { offset: u32, typ: Type, default_value: Value },
    /// A group, with the id of the struct node that describes it.
    Group { type_id: u64 },
    /// A kind of field that the decoder did not know.
    Unrecognized,
}

/// A field of a struct.
#[derive(Debug)]
pub struct Field {
    pub name: String,
    /// The field's tag in the struct's union, or [`NO_DISCRIMINANT`].
    pub discriminant_value: u16,
    pub kind: FieldKind,
}

/// A declaration nested in a node: its name there, and its id.
#[derive(Debug)]
pub struct NestedNode {
    pub name: String,
    pub id: u64,
}

/// A method of an interface.
#[derive(Debug)]
pub struct Method {
    pub name: String,
    pub param_struct_type: u64,
    pub result_struct_type: u64,
}

/// What a struct node says of the struct's layout, and its fields in
/// declared order.
#[derive(Debug)]
pub struct StructNode {
    pub data_word_count: u16,
    pub pointer_count: u16,
    /// `None` where the decoder did not know the encoding.
    pub preferred_list_encoding: Option<ElementSize>,
    pub is_group: bool,
    pub discriminant_count: u16,
    pub discriminant_offset: u32,
    pub fields: Vec<Field>,
}

/// The methods of an interface in declared order: a method's ordinal is its
/// place here.
#[derive(Debug)]
pub struct InterfaceNode {
    pub methods: Vec<Method>,
    /// The ids of the interfaces that this one extends.
    pub extends: Vec<u64>,
}

/// The type and the value of a constant.
#[derive(Debug)]
pub struct ConstNode {
    pub typ: Type,
    pub value: Value,
}

/// What a node declares.
#[derive(Debug)]
pub enum NodeKind {
    File,
    Struct(StructNode),
    /// An enum, with the names of its enumerants in declared order.
    Enum(Vec<String>),
    Interface(InterfaceNode),
    Const(ConstNode),
    Annotation,
    /// A kind of node that the decoder did not know.
    Unrecognized,
}

/// A declaration of the schema.
#[derive(Debug)]
pub struct Node {
    pub id: u64,
    /// The id of the node in whose scope this one was declared, or 0.
    pub scope_id: u64,
    pub nested_nodes: Vec<NestedNode>,
    pub kind: NodeKind,
}

/// A file that a requested file imports: its id and the stem of its name.
#[derive(Debug)]
pub struct Import {
    pub id: u64,
    pub stem: String,
}

/// A file for which code is to be generated.
#[derive(Debug)]
pub struct RequestedFile {
    pub id: u64,
    /// The file's name without directory and extension.
    pub stem: String,
    pub imports: Vec<Import>,
}

/// What the schema compiler hands to the generator.
#[derive(Debug)]
pub struct CodeGeneratorRequest {
    pub nodes: Vec<Node>,
    pub requested_files: Vec<RequestedFile>,
}

impl Type {
    /// `Void`, `Bool`, an integer or a float.
    pub open spec fn is_primitive(self) -> bool {
        self is Void || self is Bool || self is Int8 || self is Int16 || self is Int32
            || self is Int64 || self is Uint8 || self is Uint16 || self is Uint32
            || self is Uint64 || self is Float32 || self is Float64
    }

    /// A type whose values lie behind a pointer and can be absent.
    pub open spec fn is_pointer(self) -> bool {
        self is Text || self is Data || self is List || self is Struct || self is AnyPointer
    }
}

impl Value {
    /// `Bool`, an integer or a float.
    pub open spec fn is_primitive(self) -> bool {
        self is Bool || self is Int8 || self is Int16 || self is Int32 || self is Int64
            || self is Uint8 || self is Uint16 || self is Uint32 || self is Uint64
            || self is Float32 || self is Float64
    }

    /// Whether the value is its type's zero. A float is zero whatever its sign,
    /// and an enumerant is zero where it is the first of its enum.
    pub open spec fn is_zero(self) -> bool {
        match self {
            Value::Bool(b) => !b,
            Value::Int8(i) => i == 0,
            Value::Int16(i) => i == 0,
            Value::Int32(i) => i == 0,
            Value::Int64(i) => i == 0,
            Value::Uint8(i) => i == 0,
            Value::Uint16(i) => i == 0,
            Value::Uint32(i) => i == 0,
            Value::Uint64(i) => i == 0,
            Value::Float32 { bits, .. } => bits == 0 || bits == 0x8000_0000u32,
            Value::Float64 { bits, .. } => bits == 0 || bits == 0x8000_0000_0000_0000u64,
            Value::Enum(e) => e == 0,
            _ => false,
        }
    }
}

impl Field {
    /// Whether the field is a member of its struct's union.
    pub open spec fn in_union(self) -> bool {
        self.discriminant_value != NO_DISCRIMINANT
    }
}

/// Pairs two values that are both present.
pub fn tuple_option<T, U>(t: Option<T>, u: Option<U>) -> (r: Option<(T, U)>)
    ensures
        r == match (t, u) {
            (Some(t1), Some(u1)) => Some((t1, u1)),
            _ => None,
        },
{
    match (t, u) {
        (Some(t1), Some(u1)) => Some((t1, u1)),
        _ => None,
    }
}

} // verus!
