//! How schema types and values are written in generated code.
use crate::error::GenError;
use crate::schema::{ElementSize, Type, Value};
use crate::scope::{lookup_error, module_of, paths, qualified_name};
use crate::strings::{decimal, signed_decimal, signed_to_string, unsigned_to_string};
use std::collections::HashMap;
use vstd::prelude::*;

verus! {

/// The name of an element size in the runtime library.
pub open spec fn element_size_name(e: ElementSize) -> Seq<char> {
    match e {
        ElementSize::Empty => "Void"@,
        ElementSize::Bit => "Bit"@,
        ElementSize::Byte => "Byte"@,
        ElementSize::TwoBytes => "TwoBytes"@,
        ElementSize::FourBytes => "FourBytes"@,
        ElementSize::EightBytes => "EightBytes"@,
        ElementSize::Pointer => "Pointer"@,
        ElementSize::InlineComposite => "InlineComposite"@,
    }
}

/// The element size of a list of a primitive type.
pub open spec fn element_size_of(typ: Type) -> ElementSize
    recommends
        typ.is_primitive(),
{
    match typ {
        Type::Void => ElementSize::Empty,
        Type::Bool => ElementSize::Bit,
        Type::Int8 | Type::Uint8 => ElementSize::Byte,
        Type::Int16 | Type::Uint16 => ElementSize::TwoBytes,
        Type::Int32 | Type::Uint32 | Type::Float32 => ElementSize::FourBytes,
        _ => ElementSize::EightBytes,
    }
}

/// The Rust type that holds a value of a primitive type; an enum is held as `u16`.
pub open spec fn prim_type_name(typ: Type) -> Seq<char>
    recommends
        typ.is_primitive() || typ is Enum,
{
    match typ {
        Type::Void => "()"@,
        Type::Bool => "bool"@,
        Type::Int8 => "i8"@,
        Type::Int16 => "i16"@,
        Type::Int32 => "i32"@,
        Type::Int64 => "i64"@,
        Type::Uint8 => "u8"@,
        Type::Uint16 => "u16"@,
        Type::Uint32 => "u32"@,
        Type::Uint64 => "u64"@,
        Type::Float32 => "f32"@,
        Type::Float64 => "f64"@,
        _ => "u16"@,
    }
}

/// A primitive value as it is written in Rust, without a type suffix.
pub open spec fn value_text(v: Value) -> Seq<char>
    recommends
        v.is_primitive(),
{
    match v {
        Value::Bool(b) => if b {
            "true"@
        } else {
            "false"@
        },
        Value::Int8(i) => signed_decimal(i as int),
        Value::Int16(i) => signed_decimal(i as int),
        Value::Int32(i) => signed_decimal(i as int),
        Value::Int64(i) => signed_decimal(i as int),
        Value::Uint8(i) => decimal(i as nat),
        Value::Uint16(i) => decimal(i as nat),
        Value::Uint32(i) => decimal(i as nat),
        Value::Uint64(i) => decimal(i as nat),
        Value::Float32 { text, .. } => text@,
        Value::Float64 { text, .. } => text@,
        _ => Seq::empty(),
    }
}

/// The suffix that marks a float literal's width; empty for every other value.
pub open spec fn float_suffix(v: Value) -> Seq<char> {
    match v {
        Value::Float32 { .. } => "f32"@,
        Value::Float64 { .. } => "f64"@,
        _ => Seq::empty(),
    }
}

/// The mask of a primitive default: nothing where the default is zero, and
/// otherwise the default as a literal, a float with its width.
pub open spec fn prim_default_text(v: Value) -> Option<Seq<char>>
    recommends
        v.is_primitive(),
{
    if v.is_zero() {
        None
    } else {
        Some(value_text(v) + float_suffix(v))
    }
}

/// The number of the enumerant that an enum slot with the default `value`
/// holds by default: the number of `value` where it is an enumerant, and 0,
/// the first enumerant, where the default is of another kind.
pub open spec fn enum_default(value: Value) -> u16 {
    match value {
        Value::Enum(e) => e,
        _ => 0,
    }
}

/// `Reader` or `Builder`.
pub open spec fn side(is_reader: bool) -> Seq<char> {
    if is_reader {
        "Reader"@
    } else {
        "Builder"@
    }
}

/// The failure of writing the type of a list's elements, where those are lists
/// of `typ`.
pub open spec fn list_param_error(scope: Map<u64, Seq<Seq<char>>>, typ: Type) -> Option<GenError>
    decreases typ,
{
    match typ {
        Type::Enum(id) => lookup_error(scope, id),
        Type::Struct(id) => lookup_error(scope, id),
        Type::List(elem) => list_param_error(scope, *elem),
        Type::AnyPointer => Some(GenError::Unsupported),
        Type::Interface(_) => Some(GenError::Unsupported),
        Type::Unrecognized => Some(GenError::Malformed),
        _ => None,
    }
}

/// The type of a list of `typ` as it stands inside a list of lists.
pub open spec fn list_param(
    scope: Map<u64, Seq<Seq<char>>>,
    typ: Type,
    is_reader: bool,
    lifetime: Seq<char>,
) -> Seq<char>
    decreases typ,
{
    match typ {
        Type::Enum(id) => "enum_list::"@ + side(is_reader) + "<"@ + lifetime + ","@ + module_of(
            scope,
            id,
        ) + "::Reader>"@,
        Type::Text => "text_list::"@ + side(is_reader) + "<"@ + lifetime + ">"@,
        Type::Data => "data_list::"@ + side(is_reader) + "<"@ + lifetime + ">"@,
        Type::Struct(id) => "struct_list::"@ + side(is_reader) + "<"@ + lifetime + ", "@
            + module_of(scope, id) + "::"@ + side(is_reader) + "<"@ + lifetime + ">>"@,
        Type::List(elem) => "list_list::"@ + side(is_reader) + "<"@ + lifetime + ", "@
            + list_param(scope, *elem, is_reader, lifetime) + ">"@,
        _ => "primitive_list::"@ + side(is_reader) + "<"@ + lifetime + ", "@ + prim_type_name(typ)
            + ">"@,
    }
}

impl Type {
    /// Whether the type is `Void`, `Bool`, an integer or a float.
    pub fn primitive(&self) -> (r: bool)
        ensures
            r == self.is_primitive(),
    {
        match self {
            Type::Void | Type::Bool | Type::Int8 | Type::Int16 | Type::Int32 | Type::Int64
            | Type::Uint8 | Type::Uint16 | Type::Uint32 | Type::Uint64 | Type::Float32
            | Type::Float64 => true,
            _ => false,
        }
    }

    /// Whether values of the type lie behind a pointer and can be absent.
    pub fn pointer(&self) -> (r: bool)
        ensures
            r == self.is_pointer(),
    {
        match self {
            Type::Text | Type::Data | Type::List(_) | Type::Struct(_) | Type::AnyPointer => true,
            _ => false,
        }
    }
}

impl Value {
    /// Whether the value is a `Bool`, an integer or a float.
    pub fn primitive(&self) -> (r: bool)
        ensures
            r == self.is_primitive(),
    {
        match self {
            Value::Bool(_) | Value::Int8(_) | Value::Int16(_) | Value::Int32(_) | Value::Int64(_)
            | Value::Uint8(_) | Value::Uint16(_) | Value::Uint32(_) | Value::Uint64(_)
            | Value::Float32 { .. } | Value::Float64 { .. } => true,
            _ => false,
        }
    }

    /// Whether the value is its type's zero.
    pub fn zero(&self) -> (r: bool)
        ensures
            r == self.is_zero(),
    {
        match self {
            Value::Bool(b) => !*b,
            Value::Int8(i) => *i == 0,
            Value::Int16(i) => *i == 0,
            Value::Int32(i) => *i == 0,
            Value::Int64(i) => *i == 0,
            Value::Uint8(i) => *i == 0,
            Value::Uint16(i) => *i == 0,
            Value::Uint32(i) => *i == 0,
            Value::Uint64(i) => *i == 0,
            Value::Float32 { bits, .. } => *bits == 0 || *bits == 0x8000_0000u32,
            Value::Float64 { bits, .. } => *bits == 0 || *bits == 0x8000_0000_0000_0000u64,
            Value::Enum(e) => *e == 0,
            _ => false,
        }
    }

    /// The number of the enumerant that an enum slot holds by default.
    pub fn default_enumerant(&self) -> (r: u16)
        ensures
            r == enum_default(*self),
    {
        match self {
            Value::Enum(e) => *e,
            _ => 0,
        }
    }

    /// The value as it is written in Rust, without a type suffix.
    pub fn literal(&self) -> (r: String)
        requires
            self.is_primitive(),
        ensures
            r@ == value_text(*self),
    {
        match self {
            Value::Bool(b) => if *b {
                String::from_str("true")
            } else {
                String::from_str("false")
            },
            Value::Int8(i) => signed_to_string(*i as i64),
            Value::Int16(i) => signed_to_string(*i as i64),
            Value::Int32(i) => signed_to_string(*i as i64),
            Value::Int64(i) => signed_to_string(*i),
            Value::Uint8(i) => unsigned_to_string(*i as u64),
            Value::Uint16(i) => unsigned_to_string(*i as u64),
            Value::Uint32(i) => unsigned_to_string(*i as u64),
            Value::Uint64(i) => unsigned_to_string(*i),
            Value::Float32 { text, .. } => text.clone(),
            Value::Float64 { text, .. } => text.clone(),
            _ => String::new(),
        }
    }
}

/// The name of an element size in the runtime library.
pub fn element_size_str(element_size: ElementSize) -> (r: &'static str)
    ensures
        r@ == element_size_name(element_size),
{
    match element_size {
        ElementSize::Empty => "Void",
        ElementSize::Bit => "Bit",
        ElementSize::Byte => "Byte",
        ElementSize::TwoBytes => "TwoBytes",
        ElementSize::FourBytes => "FourBytes",
        ElementSize::EightBytes => "EightBytes",
        ElementSize::Pointer => "Pointer",
        ElementSize::InlineComposite => "InlineComposite",
    }
}

/// The element size of a list of the primitive type `typ`.
pub fn element_size(typ: &Type) -> (r: ElementSize)
    requires
        typ.is_primitive(),
    ensures
        r == element_size_of(*typ),
{
    match typ {
        Type::Void => ElementSize::Empty,
        Type::Bool => ElementSize::Bit,
        Type::Int8 | Type::Uint8 => ElementSize::Byte,
        Type::Int16 | Type::Uint16 => ElementSize::TwoBytes,
        Type::Int32 | Type::Uint32 | Type::Float32 => ElementSize::FourBytes,
        _ => ElementSize::EightBytes,
    }
}

/// The Rust type that holds a value of the primitive or enum type `typ`.
pub fn prim_type_str(typ: &Type) -> (r: &'static str)
    requires
        typ.is_primitive() || *typ is Enum,
    ensures
        r@ == prim_type_name(*typ),
{
    match typ {
        Type::Void => "()",
        Type::Bool => "bool",
        Type::Int8 => "i8",
        Type::Int16 => "i16",
        Type::Int32 => "i32",
        Type::Int64 => "i64",
        Type::Uint8 => "u8",
        Type::Uint16 => "u16",
        Type::Uint32 => "u32",
        Type::Uint64 => "u64",
        Type::Float32 => "f32",
        Type::Float64 => "f64",
        _ => "u16",
    }
}

/// The mask of the primitive default `value`: `None` where it is zero.
pub fn prim_default(value: &Value) -> (r: Option<String>)
    requires
        value.is_primitive(),
    ensures
        match prim_default_text(*value) {
            Some(s) => r is Some && r->Some_0@ == s,
            None => r is None,
        },
{
    if value.zero() {
        None
    } else {
        let text = value.literal();
        match value {
            Value::Float32 { .. } => Some(text.concat("f32")),
            Value::Float64 { .. } => Some(text.concat("f64")),
            _ => {
                assert(text@ + Seq::<char>::empty() =~= text@);
                Some(text)
            },
        }
    }
}

/// `Reader` or `Builder`.
pub fn side_str(is_reader: bool) -> (r: &'static str)
    ensures
        r@ == side(is_reader),
{
    if is_reader {
        "Reader"
    } else {
        "Builder"
    }
}

/// The type of a list of `typ` as it stands inside a list of lists.
pub fn list_list_type_param(
    scope_map: &HashMap<u64, Vec<String>>,
    typ: &Type,
    is_reader: bool,
    lifetime_name: &str,
) -> (r: Result<String, GenError>)
    ensures
        match list_param_error(paths(scope_map@), *typ) {
            Some(e) => r == Err::<String, GenError>(e),
            None => r is Ok && r->Ok_0@ == list_param(
                paths(scope_map@),
                *typ,
                is_reader,
                lifetime_name@,
            ),
        },
    decreases typ,
{
    let module = side_str(is_reader);
    match typ {
        Type::Enum(id) => {
            let the_mod = qualified_name(scope_map, *id)?;
            Ok(
                String::from_str("enum_list::").concat(module).concat("<").concat(
                    lifetime_name,
                ).concat(",").concat(the_mod.as_str()).concat("::Reader>"),
            )
        },
        Type::Text => Ok(
            String::from_str("text_list::").concat(module).concat("<").concat(
                lifetime_name,
            ).concat(">"),
        ),
        Type::Data => Ok(
            String::from_str("data_list::").concat(module).concat("<").concat(
                lifetime_name,
            ).concat(">"),
        ),
        Type::Struct(id) => {
            let the_mod = qualified_name(scope_map, *id)?;
            Ok(
                String::from_str("struct_list::").concat(module).concat("<").concat(
                    lifetime_name,
                ).concat(", ").concat(the_mod.as_str()).concat("::").concat(module).concat(
                    "<",
                ).concat(lifetime_name).concat(">>"),
            )
        },
        Type::List(elem) => {
            let inner = list_list_type_param(scope_map, elem, is_reader, lifetime_name)?;
            Ok(
                String::from_str("list_list::").concat(module).concat("<").concat(
                    lifetime_name,
                ).concat(", ").concat(inner.as_str()).concat(">"),
            )
        },
        Type::AnyPointer => Err(GenError::Unsupported),
        Type::Interface(_) => Err(GenError::Unsupported),
        Type::Unrecognized => Err(GenError::Malformed),
        _ => Ok(
            String::from_str("primitive_list::").concat(module).concat("<").concat(
                lifetime_name,
            ).concat(", ").concat(prim_type_str(typ)).concat(">"),
        ),
    }
}

} // verus!
