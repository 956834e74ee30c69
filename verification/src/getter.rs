//! The getter of a field: its result type and the expression that reads it.
use crate::error::GenError;
use crate::schema::{Field, FieldKind, Node, Type, Value};
use crate::scope::{lookup_error, module_of, paths, qualified_name};
use crate::strings::{decimal, unsigned_to_string};
use crate::text::{line_of, FormattedText, TextTree};
use crate::types::{
    element_size, element_size_name, element_size_of, element_size_str, enum_default,
    list_list_type_param,
    list_param, list_param_error, prim_type_name, prim_type_str, side, side_str, value_text,
};
use std::collections::HashMap;
use vstd::prelude::*;

verus! {

/// The field of a generated accessor type that holds the runtime's handle.
pub open spec fn member(is_reader: bool) -> Seq<char> {
    if is_reader {
        "reader"@
    } else {
        "builder"@
    }
}

/// Whether `value` is of the kind that a default of the primitive or enum
/// type `typ` has.
pub open spec fn value_matches(typ: Type, value: Value) -> bool {
    match typ {
        Type::Void => value is Void,
        Type::Bool => value is Bool,
        Type::Int8 => value is Int8,
        Type::Int16 => value is Int16,
        Type::Int32 => value is Int32,
        Type::Int64 => value is Int64,
        Type::Uint8 => value is Uint8,
        Type::Uint16 => value is Uint16,
        Type::Uint32 => value is Uint32,
        Type::Uint64 => value is Uint64,
        Type::Float32 => value is Float32,
        Type::Float64 => value is Float64,
        Type::Enum(_) => value is Enum,
        _ => false,
    }
}

/// Why a list with elements of type `elem` has no getter.
pub open spec fn list_element_error(
    scope: Map<u64, Seq<Seq<char>>>,
    elem: Type,
) -> Option<GenError> {
    match elem {
        Type::Unrecognized => Some(GenError::Malformed),
        Type::Struct(id) => lookup_error(scope, id),
        Type::Enum(id) => lookup_error(scope, id),
        Type::List(inner) => list_param_error(scope, *inner),
        Type::Interface(_) => Some(GenError::Unsupported),
        Type::AnyPointer => Some(GenError::Unsupported),
        _ => None,
    }
}

/// Why a slot of type `typ` with default `value` has no getter.
pub open spec fn slot_getter_error(
    scope: Map<u64, Seq<Seq<char>>>,
    typ: Type,
    value: Value,
) -> Option<GenError> {
    if typ is Unrecognized || value is Unrecognized {
        Some(GenError::Malformed)
    } else {
        match typ {
            Type::Text => None,
            Type::Data => None,
            Type::AnyPointer => None,
            Type::List(elem) => list_element_error(scope, *elem),
            Type::Enum(id) => lookup_error(scope, id),
            Type::Struct(id) => lookup_error(scope, id),
            Type::Interface(id) => lookup_error(scope, id),
            _ => if value_matches(typ, value) {
                None
            } else {
                Some(GenError::Malformed)
            },
        }
    }
}

/// Why `field` has no getter: `None` where it has one.
pub open spec fn getter_error(scope: Map<u64, Seq<Seq<char>>>, field: Field) -> Option<GenError> {
    match field.kind {
        FieldKind::Unrecognized => Some(GenError::Malformed),
        FieldKind::Group { type_id } => lookup_error(scope, type_id),
        FieldKind::Slot { offset, typ, default_value } => slot_getter_error(
            scope,
            typ,
            default_value,
        ),
    }
}

/// The pointer field at `offset` of the accessor's handle.
pub open spec fn pointer_field(is_reader: bool, offset: u32) -> Seq<char> {
    "self."@ + member(is_reader) + ".get_pointer_field("@ + decimal(offset as nat) + ")"@
}

/// The read of a `Bool` at `offset`: masked where the default is `true`.
pub open spec fn bool_getter_expr(is_reader: bool, offset: u32, value: Value) -> Seq<char> {
    if value.is_zero() {
        "self."@ + member(is_reader) + ".get_bool_field("@ + decimal(offset as nat) + ")"@
    } else {
        "self."@ + member(is_reader) + ".get_bool_field_mask("@ + decimal(offset as nat)
            + ", true)"@
    }
}

/// The read of a number at `offset`: plain where the default is zero, and
/// otherwise masked with the default.
pub open spec fn data_getter_expr(
    is_reader: bool,
    offset: u32,
    typ: Type,
    value: Value,
) -> Seq<char> {
    if value.is_zero() {
        "self."@ + member(is_reader) + ".get_data_field::<"@ + prim_type_name(typ) + ">("@
            + decimal(offset as nat) + ")"@
    } else {
        "self."@ + member(is_reader) + ".get_data_field_mask::<"@ + prim_type_name(typ) + ">("@
            + decimal(offset as nat) + ", "@ + value_text(value) + prim_type_name(typ) + ")"@
    }
}

/// The read of the number of an enumerant at `offset`, where the slot holds
/// the enumerant with the number `default` by default: plain where that is
/// the first enumerant, and otherwise masked with the number, so that
/// storage that was never written reads as the default.
pub open spec fn enum_getter_expr(is_reader: bool, offset: u32, default: u16) -> Seq<char> {
    if default == 0 {
        "self."@ + member(is_reader) + ".get_data_field::<u16>("@ + decimal(offset as nat) + ")"@
    } else {
        "self."@ + member(is_reader) + ".get_data_field_mask::<u16>("@ + decimal(offset as nat)
            + ", "@ + decimal(default as nat) + "u16)"@
    }
}

/// The type that the getter of a list with elements of type `elem` returns.
pub open spec fn list_getter_type(
    scope: Map<u64, Seq<Seq<char>>>,
    elem: Type,
    is_reader: bool,
) -> Seq<char> {
    match elem {
        Type::Struct(id) => "struct_list::"@ + side(is_reader) + "<'a,"@ + module_of(scope, id)
            + "::"@ + side(is_reader) + "<'a>>"@,
        Type::Enum(id) => "enum_list::"@ + side(is_reader) + "<'a,"@ + module_of(scope, id)
            + "::Reader>"@,
        Type::List(inner) => "list_list::"@ + side(is_reader) + "<'a,"@ + list_param(
            scope,
            *inner,
            is_reader,
            "'a"@,
        ) + ">"@,
        Type::Text => "text_list::"@ + side(is_reader) + "<'a>"@,
        Type::Data => "data_list::"@ + side(is_reader) + "<'a>"@,
        _ => "primitive_list::"@ + side(is_reader) + "<'a,"@ + prim_type_name(elem) + ">"@,
    }
}

/// The expression that reads a list with elements of type `elem` at `offset`.
pub open spec fn list_getter_expr(
    scope: Map<u64, Seq<Seq<char>>>,
    elem: Type,
    is_reader: bool,
    offset: u32,
) -> Seq<char> {
    match elem {
        Type::Struct(id) => if is_reader {
            "struct_list::"@ + side(is_reader) + "::new("@ + pointer_field(is_reader, offset)
                + ".get_list("@ + module_of(scope, id)
                + "::STRUCT_SIZE.preferred_list_encoding, std::ptr::null()))"@
        } else {
            "struct_list::"@ + side(is_reader) + "::new("@ + pointer_field(is_reader, offset)
                + ".get_struct_list("@ + module_of(scope, id)
                + "::STRUCT_SIZE, std::ptr::null()))"@
        },
        Type::Enum(id) => "enum_list::"@ + side(is_reader) + "::new("@ + pointer_field(
            is_reader,
            offset,
        ) + ".get_list(layout::TwoBytes, std::ptr::null()))"@,
        Type::List(inner) => "list_list::"@ + side(is_reader) + "::new("@ + pointer_field(
            is_reader,
            offset,
        ) + ".get_list(layout::Pointer, std::ptr::null()))"@,
        Type::Text => "text_list::"@ + side(is_reader) + "::new("@ + pointer_field(
            is_reader,
            offset,
        ) + ".get_list(layout::Pointer, std::ptr::null()))"@,
        Type::Data => "data_list::"@ + side(is_reader) + "::new("@ + pointer_field(
            is_reader,
            offset,
        ) + ".get_list(layout::Pointer, std::ptr::null()))"@,
        _ => "primitive_list::"@ + side(is_reader) + "::new("@ + pointer_field(is_reader, offset)
            + ".get_list(layout::"@ + element_size_name(element_size_of(elem))
            + ", std::ptr::null()))"@,
    }
}

/// The type that the getter of a slot returns.
pub open spec fn slot_getter_type(
    scope: Map<u64, Seq<Seq<char>>>,
    typ: Type,
    is_reader: bool,
) -> Seq<char> {
    match typ {
        Type::Text => "text::"@ + side(is_reader) + "<'a>"@,
        Type::Data => "data::"@ + side(is_reader) + "<'a>"@,
        Type::List(elem) => list_getter_type(scope, *elem, is_reader),
        Type::Enum(id) => "Option<"@ + module_of(scope, id) + "::Reader>"@,
        Type::Struct(id) => module_of(scope, id) + "::"@ + side(is_reader) + "<'a>"@,
        Type::Interface(id) => module_of(scope, id) + "::Client"@,
        Type::AnyPointer => "any_pointer::"@ + side(is_reader) + "<'a>"@,
        _ => prim_type_name(typ),
    }
}

/// The expression that reads a slot.
pub open spec fn slot_getter_expr(
    scope: Map<u64, Seq<Seq<char>>>,
    offset: u32,
    typ: Type,
    value: Value,
    is_reader: bool,
) -> Seq<char> {
    match typ {
        Type::Void => "()"@,
        Type::Bool => bool_getter_expr(is_reader, offset, value),
        Type::Text => pointer_field(is_reader, offset) + ".get_text(std::ptr::null(), 0)"@,
        Type::Data => pointer_field(is_reader, offset) + ".get_data(std::ptr::null(), 0)"@,
        Type::List(elem) => list_getter_expr(scope, *elem, is_reader, offset),
        Type::Enum(id) => "FromPrimitive::from_u16("@ + enum_getter_expr(
            is_reader,
            offset,
            enum_default(value),
        ) + ")"@,
        Type::Struct(id) => if is_reader {
            "FromStruct"@ + side(is_reader) + "::new("@ + pointer_field(is_reader, offset)
                + ".get_struct( std::ptr::null()))"@
        } else {
            "FromStruct"@ + side(is_reader) + "::new("@ + pointer_field(is_reader, offset)
                + ".get_struct("@ + module_of(scope, id) + "::STRUCT_SIZE, std::ptr::null()))"@
        },
        Type::Interface(id) => "FromClientHook::new("@ + pointer_field(is_reader, offset)
            + ".get_capability())"@,
        Type::AnyPointer => "any_pointer::"@ + side(is_reader) + "::new("@ + pointer_field(
            is_reader,
            offset,
        ) + ")"@,
        _ => data_getter_expr(is_reader, offset, typ, value),
    }
}

/// The type that the getter of `field` returns.
pub open spec fn getter_type(
    scope: Map<u64, Seq<Seq<char>>>,
    field: Field,
    is_reader: bool,
) -> Seq<char> {
    match field.kind {
        FieldKind::Group { type_id } => module_of(scope, type_id) + "::"@ + side(is_reader)
            + "<'a>"@,
        FieldKind::Slot { offset, typ, default_value } => slot_getter_type(scope, typ, is_reader),
        FieldKind::Unrecognized => Seq::empty(),
    }
}

/// The expression that reads `field`.
pub open spec fn getter_expr(
    scope: Map<u64, Seq<Seq<char>>>,
    field: Field,
    is_reader: bool,
) -> Seq<char> {
    match field.kind {
        FieldKind::Group { type_id } => "FromStruct"@ + side(is_reader) + "::new(self."@ + member(
            is_reader,
        ) + ")"@,
        FieldKind::Slot { offset, typ, default_value } => slot_getter_expr(
            scope,
            offset,
            typ,
            default_value,
            is_reader,
        ),
        FieldKind::Unrecognized => Seq::empty(),
    }
}

/// `reader` or `builder`.
pub fn member_str(is_reader: bool) -> (r: &'static str)
    ensures
        r@ == member(is_reader),
{
    if is_reader {
        "reader"
    } else {
        "builder"
    }
}

/// Whether `value` is of the kind that a default of the primitive or enum
/// type `typ` has.
pub fn default_matches(typ: &Type, value: &Value) -> (r: bool)
    ensures
        r == value_matches(*typ, *value),
{
    match (typ, value) {
        (Type::Void, Value::Void) => true,
        (Type::Bool, Value::Bool(_)) => true,
        (Type::Int8, Value::Int8(_)) => true,
        (Type::Int16, Value::Int16(_)) => true,
        (Type::Int32, Value::Int32(_)) => true,
        (Type::Int64, Value::Int64(_)) => true,
        (Type::Uint8, Value::Uint8(_)) => true,
        (Type::Uint16, Value::Uint16(_)) => true,
        (Type::Uint32, Value::Uint32(_)) => true,
        (Type::Uint64, Value::Uint64(_)) => true,
        (Type::Float32, Value::Float32 { .. }) => true,
        (Type::Float64, Value::Float64 { .. }) => true,
        (Type::Enum(_), Value::Enum(_)) => true,
        _ => false,
    }
}

fn enum_getter(is_reader: bool, offset: u32, default: u16) -> (r: String)
    ensures
        r@ == enum_getter_expr(is_reader, offset, default),
{
    let start = String::from_str("self.").concat(member_str(is_reader));
    let at = unsigned_to_string(offset as u64);
    if default == 0 {
        start.concat(".get_data_field::<u16>(").concat(at.as_str()).concat(")")
    } else {
        start.concat(".get_data_field_mask::<u16>(").concat(at.as_str()).concat(", ").concat(
            unsigned_to_string(default as u64).as_str(),
        ).concat("u16)")
    }
}

/// The pointer field at `offset` of the accessor's handle.
pub fn pointer_field_str(is_reader: bool, offset: u32) -> (r: String)
    ensures
        r@ == pointer_field(is_reader, offset),
{
    String::from_str("self.").concat(member_str(is_reader)).concat(".get_pointer_field(").concat(
        unsigned_to_string(offset as u64).as_str(),
    ).concat(")")
}

fn list_getter(
    scope_map: &HashMap<u64, Vec<String>>,
    elem: &Type,
    is_reader: bool,
    offset: u32,
) -> (r: Result<(String, String), GenError>)
    ensures
        match list_element_error(paths(scope_map@), *elem) {
            Some(e) => r == Err::<(String, String), GenError>(e),
            None => r is Ok && r->Ok_0.0@ == list_getter_type(paths(scope_map@), *elem, is_reader)
                && r->Ok_0.1@ == list_getter_expr(paths(scope_map@), *elem, is_reader, offset),
        },
{
    let module = side_str(is_reader);
    let field = pointer_field_str(is_reader, offset);
    match elem {
        Type::Unrecognized => Err(GenError::Malformed),
        Type::Struct(id) => {
            let the_mod = qualified_name(scope_map, *id)?;
            let ty = String::from_str("struct_list::").concat(module).concat("<'a,").concat(
                the_mod.as_str(),
            ).concat("::").concat(module).concat("<'a>>");
            let start = String::from_str("struct_list::").concat(module).concat("::new(").concat(
                field.as_str(),
            );
            let get = if is_reader {
                start.concat(".get_list(").concat(the_mod.as_str()).concat(
                    "::STRUCT_SIZE.preferred_list_encoding, std::ptr::null()))",
                )
            } else {
                start.concat(".get_struct_list(").concat(the_mod.as_str()).concat(
                    "::STRUCT_SIZE, std::ptr::null()))",
                )
            };
            Ok((ty, get))
        },
        Type::Enum(id) => {
            let the_mod = qualified_name(scope_map, *id)?;
            let ty = String::from_str("enum_list::").concat(module).concat("<'a,").concat(
                the_mod.as_str(),
            ).concat("::Reader>");
            let get = String::from_str("enum_list::").concat(module).concat("::new(").concat(
                field.as_str(),
            ).concat(".get_list(layout::TwoBytes, std::ptr::null()))");
            Ok((ty, get))
        },
        Type::List(inner) => {
            let type_param = list_list_type_param(scope_map, inner, is_reader, "'a")?;
            let ty = String::from_str("list_list::").concat(module).concat("<'a,").concat(
                type_param.as_str(),
            ).concat(">");
            let get = String::from_str("list_list::").concat(module).concat("::new(").concat(
                field.as_str(),
            ).concat(".get_list(layout::Pointer, std::ptr::null()))");
            Ok((ty, get))
        },
        Type::Text => {
            let ty = String::from_str("text_list::").concat(module).concat("<'a>");
            let get = String::from_str("text_list::").concat(module).concat("::new(").concat(
                field.as_str(),
            ).concat(".get_list(layout::Pointer, std::ptr::null()))");
            Ok((ty, get))
        },
        Type::Data => {
            let ty = String::from_str("data_list::").concat(module).concat("<'a>");
            let get = String::from_str("data_list::").concat(module).concat("::new(").concat(
                field.as_str(),
            ).concat(".get_list(layout::Pointer, std::ptr::null()))");
            Ok((ty, get))
        },
        Type::Interface(_) => Err(GenError::Unsupported),
        Type::AnyPointer => Err(GenError::Unsupported),
        _ => {
            let ty = String::from_str("primitive_list::").concat(module).concat("<'a,").concat(
                prim_type_str(elem),
            ).concat(">");
            let get = String::from_str("primitive_list::").concat(module).concat("::new(").concat(
                field.as_str(),
            ).concat(".get_list(layout::").concat(element_size_str(element_size(elem))).concat(
                ", std::ptr::null()))",
            );
            Ok((ty, get))
        },
    }
}

fn data_getter(is_reader: bool, offset: u32, typ: &Type, value: &Value) -> (r: String)
    requires
        typ.is_primitive(),
        value.is_primitive(),
    ensures
        r@ == data_getter_expr(is_reader, offset, *typ, *value),
{
    let name = prim_type_str(typ);
    let start = String::from_str("self.").concat(member_str(is_reader));
    let at = unsigned_to_string(offset as u64);
    if value.zero() {
        start.concat(".get_data_field::<").concat(name).concat(">(").concat(at.as_str()).concat(
            ")",
        )
    } else {
        start.concat(".get_data_field_mask::<").concat(name).concat(">(").concat(
            at.as_str(),
        ).concat(", ").concat(value.literal().as_str()).concat(name).concat(")")
    }
}

fn slot_getter(
    scope_map: &HashMap<u64, Vec<String>>,
    offset: u32,
    typ: &Type,
    value: &Value,
    is_reader: bool,
) -> (r: Result<(String, String), GenError>)
    ensures
        match slot_getter_error(paths(scope_map@), *typ, *value) {
            Some(e) => r == Err::<(String, String), GenError>(e),
            None => r is Ok && r->Ok_0.0@ == slot_getter_type(paths(scope_map@), *typ, is_reader)
                && r->Ok_0.1@ == slot_getter_expr(
                paths(scope_map@),
                offset,
                *typ,
                *value,
                is_reader,
            ),
        },
{
    if let Type::Unrecognized = typ {
        return Err(GenError::Malformed);
    }
    if let Value::Unrecognized = value {
        return Err(GenError::Malformed);
    }
    let module = side_str(is_reader);
    let member = member_str(is_reader);
    match typ {
        Type::Text => Ok(
            (
                String::from_str("text::").concat(module).concat("<'a>"),
                pointer_field_str(is_reader, offset).concat(".get_text(std::ptr::null(), 0)"),
            ),
        ),
        Type::Data => Ok(
            (
                String::from_str("data::").concat(module).concat("<'a>"),
                pointer_field_str(is_reader, offset).concat(".get_data(std::ptr::null(), 0)"),
            ),
        ),
        Type::List(elem) => list_getter(scope_map, elem, is_reader, offset),
        Type::Enum(id) => {
            let the_mod = qualified_name(scope_map, *id)?;
            Ok(
                (
                    String::from_str("Option<").concat(the_mod.as_str()).concat("::Reader>"),
                    String::from_str("FromPrimitive::from_u16(").concat(
                        enum_getter(is_reader, offset, value.default_enumerant()).as_str(),
                    ).concat(")"),
                ),
            )
        },
        Type::Struct(id) => {
            let the_mod = qualified_name(scope_map, *id)?;
            let ty = String::from_str(the_mod.as_str()).concat("::").concat(module).concat("<'a>");
            let start = String::from_str("FromStruct").concat(module).concat("::new(").concat(
                pointer_field_str(is_reader, offset).as_str(),
            );
            let get = if is_reader {
                start.concat(".get_struct( std::ptr::null()))")
            } else {
                start.concat(".get_struct(").concat(the_mod.as_str()).concat(
                    "::STRUCT_SIZE, std::ptr::null()))",
                )
            };
            Ok((ty, get))
        },
        Type::Interface(id) => {
            let the_mod = qualified_name(scope_map, *id)?;
            Ok(
                (
                    the_mod.concat("::Client"),
                    String::from_str("FromClientHook::new(").concat(
                        pointer_field_str(is_reader, offset).as_str(),
                    ).concat(".get_capability())"),
                ),
            )
        },
        Type::AnyPointer => Ok(
            (
                String::from_str("any_pointer::").concat(module).concat("<'a>"),
                String::from_str("any_pointer::").concat(module).concat("::new(").concat(
                    pointer_field_str(is_reader, offset).as_str(),
                ).concat(")"),
            ),
        ),
        _ => {
            if !default_matches(typ, value) {
                return Err(GenError::Malformed);
            }
            let ty = String::from_str(prim_type_str(typ));
            let at = unsigned_to_string(offset as u64);
            let get = match typ {
                Type::Void => String::from_str("()"),
                Type::Bool => if value.zero() {
                    String::from_str("self.").concat(member).concat(".get_bool_field(").concat(
                        at.as_str(),
                    ).concat(")")
                } else {
                    String::from_str("self.").concat(member).concat(
                        ".get_bool_field_mask(",
                    ).concat(at.as_str()).concat(", true)")
                },
                _ => data_getter(is_reader, offset, typ, value),
            };
            Ok((ty, get))
        },
    }
}

/// The type that the getter of `field` returns, and the body of the getter.
pub fn getter_text(
    _node_map: &HashMap<u64, Node>,
    scope_map: &HashMap<u64, Vec<String>>,
    field: &Field,
    is_reader: bool,
) -> (r: Result<(String, FormattedText), GenError>)
    ensures
        match getter_error(paths(scope_map@), *field) {
            Some(e) => r == Err::<(String, FormattedText), GenError>(e),
            None => r is Ok && r->Ok_0.0@ == getter_type(paths(scope_map@), *field, is_reader)
                && r->Ok_0.1@ == TextTree::Line(getter_expr(paths(scope_map@), *field, is_reader)),
        },
{
    match &field.kind {
        FieldKind::Unrecognized => Err(GenError::Malformed),
        FieldKind::Group { type_id } => {
            let the_mod = qualified_name(scope_map, *type_id)?;
            let module = side_str(is_reader);
            let ty = the_mod.concat("::").concat(module).concat("<'a>");
            let get = String::from_str("FromStruct").concat(module).concat("::new(self.").concat(
                member_str(is_reader),
            ).concat(")");
            Ok((ty, line_of(get)))
        },
        FieldKind::Slot { offset, typ, default_value } => {
            let (ty, get) = slot_getter(scope_map, *offset, typ, default_value, is_reader)?;
            Ok((ty, line_of(get)))
        },
    }
}

} // verus!
