//! The setter and the initialiser of a field.
use crate::error::{delivers, GenError};
use crate::getter::{
    list_element_error, member, pointer_field, pointer_field_str, slot_getter_expr, value_matches,
};
use crate::schema::{Field, FieldKind, Node, Type, Value, NO_DISCRIMINANT};
use crate::scope::{lookup_error, module_of, paths, qualified_name};
use crate::strings::{decimal, unsigned_to_string};
use crate::text::{
    branch, indent, line_of, no_items, push_item, push_line, trees_of, FormattedText, TextTree,
};
use crate::types::{
    element_size, element_size_name, element_size_of, element_size_str, enum_default, float_suffix,
    list_list_type_param, list_param, prim_default, prim_default_text, prim_type_name,
    prim_type_str, value_text,
};
use crate::zeroing::{zero_fields_of_group, zeroing, zeroing_error};
use std::collections::HashMap;
use vstd::prelude::*;

verus! {

broadcast use vstd::std_specs::hash::group_hash_axioms;

/// The statement that marks `field` as the active member of its union: for a
/// member of the union one line that writes the field's discriminant value at
/// `discriminant_offset`, and for any other field nothing.
pub open spec fn union_tag(discriminant_offset: u32, field: Field) -> Seq<TextTree> {
    if field.in_union() {
        Seq::empty().push(
            TextTree::Line(
                "self.builder.set_data_field::<u16>("@ + decimal(discriminant_offset as nat)
                    + ", "@ + decimal(field.discriminant_value as nat) + ");"@,
            ),
        )
    } else {
        Seq::empty()
    }
}

/// Why a slot of type `typ` with default `value` has no setter.
pub open spec fn slot_setter_error(
    scope: Map<u64, Seq<Seq<char>>>,
    typ: Type,
    value: Value,
) -> Option<GenError> {
    match typ {
        Type::Unrecognized => Some(GenError::Malformed),
        Type::Void => None,
        Type::Text => None,
        Type::Data => None,
        Type::AnyPointer => None,
        Type::List(elem) => list_element_error(scope, *elem),
        Type::Enum(id) => lookup_error(scope, id),
        Type::Struct(id) => lookup_error(scope, id),
        Type::Interface(id) => lookup_error(scope, id),
        _ => if value.is_primitive() {
            None
        } else {
            Some(GenError::Malformed)
        },
    }
}

/// Why `field` has no setter: `None` where it has one.
pub open spec fn setter_error(
    nodes: Map<u64, Node>,
    scope: Map<u64, Seq<Seq<char>>>,
    field: Field,
) -> Option<GenError> {
    match field.kind {
        FieldKind::Unrecognized => Some(GenError::Malformed),
        FieldKind::Group { type_id } => match lookup_error(scope, type_id) {
            Some(e) => Some(e),
            None => zeroing_error(nodes, type_id, nodes.len()),
        },
        FieldKind::Slot { offset, typ, default_value } => slot_setter_error(
            scope,
            typ,
            default_value,
        ),
    }
}

/// The statement that writes the number of an enumerant at `offset`, where
/// the slot holds the enumerant with the number `default` by default: plain
/// where that is the first enumerant, and otherwise masked with the number,
/// as the getter reads it.
pub open spec fn enum_setter_line(offset: u32, default: u16) -> Seq<char> {
    if default == 0 {
        "self.builder.set_data_field::<u16>("@ + decimal(offset as nat) + ", value as u16)"@
    } else {
        "self.builder.set_data_field_mask::<u16>("@ + decimal(offset as nat)
            + ", value as u16, "@ + decimal(default as nat) + ")"@
    }
}

/// The statement that writes `value` into a slot; `None` for a slot that has
/// nothing to write.
pub open spec fn slot_setter_line(offset: u32, typ: Type, value: Value) -> Option<Seq<char>> {
    match typ {
        Type::Void => None,
        Type::AnyPointer => None,
        Type::Unrecognized => None,
        Type::Bool => Some(
            match prim_default_text(value) {
                None => "self.builder.set_bool_field("@ + decimal(offset as nat) + ", value);"@,
                Some(mask) => "self.builder.set_bool_field_mask("@ + decimal(offset as nat)
                    + ", value, "@ + mask + ");"@,
            },
        ),
        Type::Text => Some(pointer_field(false, offset) + ".set_text(value);"@),
        Type::Data => Some(pointer_field(false, offset) + ".set_data(value);"@),
        Type::List(_) => Some(pointer_field(false, offset) + ".set_list(&value.reader)"@),
        Type::Enum(_) => Some(enum_setter_line(offset, enum_default(value))),
        Type::Struct(_) => Some(
            pointer_field(false, offset) + ".set_struct(&value.struct_reader())"@,
        ),
        Type::Interface(_) => Some(
            pointer_field(false, offset) + ".set_capability(value.client.hook);"@,
        ),
        _ => Some(
            match prim_default_text(value) {
                None => "self.builder.set_data_field::<"@ + prim_type_name(typ) + ">("@ + decimal(
                    offset as nat,
                ) + ", value);"@,
                Some(mask) => "self.builder.set_data_field_mask::<"@ + prim_type_name(typ)
                    + ">("@ + decimal(offset as nat) + ", value, "@ + mask + ");"@,
            },
        ),
    }
}

/// The body of the setter of `field`: the union tag first, then the write.
pub open spec fn setter_interior(discriminant_offset: u32, field: Field) -> Seq<TextTree> {
    let tag = union_tag(discriminant_offset, field);
    match field.kind {
        FieldKind::Slot { offset, typ, default_value } => match slot_setter_line(
            offset,
            typ,
            default_value,
        ) {
            Some(s) => tag.push(TextTree::Line(s)),
            None => tag,
        },
        _ => tag,
    }
}

/// The type of the value that the setter of a list takes.
pub open spec fn list_setter_type(scope: Map<u64, Seq<Seq<char>>>, elem: Type) -> Seq<char> {
    match elem {
        Type::Enum(id) => "enum_list::Reader<'a,"@ + module_of(scope, id) + "::Reader>"@,
        Type::Struct(id) => "struct_list::Reader<'a,"@ + module_of(scope, id) + "::Reader<'a>>"@,
        Type::Text => "text_list::Reader"@,
        Type::Data => "data_list::Reader"@,
        Type::List(inner) => "list_list::Reader<'b, "@ + list_param(scope, *inner, true, "'b"@)
            + ">"@,
        _ => "primitive_list::Reader<'a,"@ + prim_type_name(elem) + ">"@,
    }
}

/// The type that the initialiser of a list returns.
pub open spec fn list_initter_type(scope: Map<u64, Seq<Seq<char>>>, elem: Type) -> Seq<char> {
    match elem {
        Type::Enum(id) => "enum_list::Builder<'a,"@ + module_of(scope, id) + "::Reader>"@,
        Type::Struct(id) => "struct_list::Builder<'a,"@ + module_of(scope, id)
            + "::Builder<'a>>"@,
        Type::Text => "text_list::Builder<'a>"@,
        Type::Data => "data_list::Builder<'a>"@,
        Type::List(inner) => "list_list::Builder<'a, "@ + list_param(scope, *inner, false, "'a"@)
            + ">"@,
        _ => "primitive_list::Builder<'a,"@ + prim_type_name(elem) + ">"@,
    }
}

/// `tag` followed by the statements that initialise a list at `offset`.
pub open spec fn list_initter_interior(
    scope: Map<u64, Seq<Seq<char>>>,
    tag: Seq<TextTree>,
    offset: u32,
    elem: Type,
) -> Seq<TextTree> {
    match elem {
        Type::Enum(id) => tag.push(
            TextTree::Line("enum_list::Builder::<'a, "@ + module_of(scope, id) + "::Reader>::new("@),
        ).push(
            TextTree::Indent(
                Box::new(
                    TextTree::Line(
                        pointer_field(false, offset) + ".init_list(layout::TwoBytes,size)"@,
                    ),
                ),
            ),
        ).push(TextTree::Line(")"@)),
        Type::Struct(id) => tag.push(
            TextTree::Line(
                "struct_list::Builder::<'a, "@ + module_of(scope, id) + "::Builder<'a>>::new("@,
            ),
        ).push(
            TextTree::Indent(
                Box::new(
                    TextTree::Line(
                        pointer_field(false, offset) + ".init_struct_list(size, "@ + module_of(
                            scope,
                            id,
                        ) + "::STRUCT_SIZE))"@,
                    ),
                ),
            ),
        ),
        Type::Text => tag.push(
            TextTree::Line(
                "text_list::Builder::<'a>::new("@ + pointer_field(false, offset)
                    + ".init_list(layout::Pointer, size))"@,
            ),
        ),
        Type::Data => tag.push(
            TextTree::Line(
                "data_list::Builder::<'a>::new("@ + pointer_field(false, offset)
                    + ".init_list(layout::Pointer, size))"@,
            ),
        ),
        Type::List(inner) => tag.push(
            TextTree::Line(
                "list_list::Builder::<'a,"@ + list_param(scope, *inner, false, "'a"@) + ">::new("@
                    + pointer_field(false, offset) + ".init_list(layout::Pointer,size))"@,
            ),
        ),
        _ => tag.push(
            TextTree::Line("primitive_list::Builder::<'a,"@ + prim_type_name(elem) + ">::new("@),
        ).push(
            TextTree::Indent(
                Box::new(
                    TextTree::Line(
                        pointer_field(false, offset) + ".init_list(layout::"@ + element_size_name(
                            element_size_of(elem),
                        ) + ",size)"@,
                    ),
                ),
            ),
        ).push(TextTree::Line(")"@)),
    }
}

/// The type of the value that the setter of `field` takes; `None` where the
/// field has no setter.
pub open spec fn setter_type(scope: Map<u64, Seq<Seq<char>>>, field: Field) -> Option<Seq<char>> {
    match field.kind {
        FieldKind::Slot { offset, typ, default_value } => match typ {
            Type::AnyPointer => None,
            Type::Unrecognized => None,
            Type::Text => Some("text::Reader"@),
            Type::Data => Some("data::Reader"@),
            Type::List(elem) => Some(list_setter_type(scope, *elem)),
            Type::Enum(id) => Some(module_of(scope, id) + "::Reader"@),
            Type::Struct(id) => Some(module_of(scope, id) + "::Reader"@),
            Type::Interface(id) => Some(module_of(scope, id) + "::Client"@),
            _ => Some(prim_type_name(typ)),
        },
        _ => None,
    }
}

/// The type that the initialiser of `field` returns; `None` where the field
/// has no initialiser.
pub open spec fn initter_type(scope: Map<u64, Seq<Seq<char>>>, field: Field) -> Option<Seq<char>> {
    match field.kind {
        FieldKind::Group { type_id } => Some(module_of(scope, type_id) + "::Builder<'a>"@),
        FieldKind::Slot { offset, typ, default_value } => match typ {
            Type::Text => Some("text::Builder<'a>"@),
            Type::Data => Some("data::Builder<'a>"@),
            Type::List(elem) => Some(list_initter_type(scope, *elem)),
            Type::Struct(id) => Some(module_of(scope, id) + "::Builder<'a>"@),
            Type::AnyPointer => Some("any_pointer::Builder<'a>"@),
            _ => None,
        },
        FieldKind::Unrecognized => None,
    }
}

/// `tag` followed by the statements that initialise a slot of type `typ` at
/// `offset`.
pub open spec fn slot_initter_interior(
    scope: Map<u64, Seq<Seq<char>>>,
    tag: Seq<TextTree>,
    offset: u32,
    typ: Type,
) -> Seq<TextTree> {
    match typ {
        Type::Text => tag.push(TextTree::Line(pointer_field(false, offset) + ".init_text(size)"@)),
        Type::Data => tag.push(TextTree::Line(pointer_field(false, offset) + ".init_data(size)"@)),
        Type::List(elem) => list_initter_interior(scope, tag, offset, *elem),
        Type::Struct(id) => tag.push(
            TextTree::Line(
                "FromStructBuilder::new("@ + pointer_field(false, offset) + ".init_struct("@
                    + module_of(scope, id) + "::STRUCT_SIZE))"@,
            ),
        ),
        Type::AnyPointer => tag.push(
            TextTree::Line(
                "let result = any_pointer::Builder::new("@ + pointer_field(false, offset) + ");"@,
            ),
        ).push(TextTree::Line("result.clear();"@)).push(TextTree::Line("result"@)),
        _ => tag,
    }
}

/// The body of the initialiser of `field`: the union tag first, then for a
/// group the clearing of its storage, then the expression that hands out the
/// new builder.
pub open spec fn initter_interior(
    nodes: Map<u64, Node>,
    scope: Map<u64, Seq<Seq<char>>>,
    discriminant_offset: u32,
    field: Field,
) -> Seq<TextTree> {
    let tag = union_tag(discriminant_offset, field);
    match field.kind {
        FieldKind::Group { type_id } => tag.push(zeroing(nodes, type_id, nodes.len())).push(
            TextTree::Line("FromStructBuilder::new(self.builder)"@),
        ),
        FieldKind::Slot { offset, typ, default_value } => slot_initter_interior(
            scope,
            tag,
            offset,
            typ,
        ),
        FieldKind::Unrecognized => tag,
    }
}

/// The name of the setter's parameter: `_value` where nothing is written.
pub open spec fn setter_param(field: Field) -> Seq<char> {
    match field.kind {
        FieldKind::Slot { offset, typ, default_value } => if typ is Void {
            "_value"@
        } else {
            "value"@
        },
        _ => "value"@,
    }
}

/// The lifetime parameter of the setter: one of its own for a list of lists.
pub open spec fn setter_lifetime(field: Field) -> Seq<char> {
    match field.kind {
        FieldKind::Slot { offset, typ, default_value } => match typ {
            Type::List(elem) => if *elem is List {
                "<'b>"@
            } else {
                Seq::empty()
            },
            _ => Seq::empty(),
        },
        _ => Seq::empty(),
    }
}

/// The parameters of the initialiser after `&self`: a size for text, data and
/// lists.
pub open spec fn initter_args(field: Field) -> Seq<char> {
    match field.kind {
        FieldKind::Slot { offset, typ, default_value } => if typ is Text || typ is Data
            || typ is List {
            "size : uint"@
        } else {
            Seq::empty()
        },
        _ => Seq::empty(),
    }
}

/// The setter of `field`, where it has one.
pub open spec fn setter_items(
    scope: Map<u64, Seq<Seq<char>>>,
    discriminant_offset: u32,
    name: Seq<char>,
    field: Field,
) -> Seq<TextTree> {
    match setter_type(scope, field) {
        Some(ty) => Seq::empty().push(TextTree::Line("#[inline]"@)).push(
            TextTree::Line(
                "pub fn set_"@ + name + setter_lifetime(field) + "(&self, "@ + setter_param(field)
                    + " : "@ + ty + ") {"@,
            ),
        ).push(
            TextTree::Indent(
                Box::new(TextTree::Branch(setter_interior(discriminant_offset, field))),
            ),
        ).push(TextTree::Line("}"@)),
        None => Seq::empty(),
    }
}

/// The setter of `field` and after it the initialiser, each where the field
/// has one.
pub open spec fn setter_text(
    nodes: Map<u64, Node>,
    scope: Map<u64, Seq<Seq<char>>>,
    discriminant_offset: u32,
    name: Seq<char>,
    field: Field,
) -> TextTree {
    let setter = setter_items(scope, discriminant_offset, name, field);
    match initter_type(scope, field) {
        Some(ty) => TextTree::Branch(
            setter.push(TextTree::Line("#[inline]"@)).push(
                TextTree::Line(
                    "pub fn init_"@ + name + "(&self, "@ + initter_args(field) + ") -> "@ + ty
                        + " {"@,
                ),
            ).push(
                TextTree::Indent(
                    Box::new(
                        TextTree::Branch(
                            initter_interior(nodes, scope, discriminant_offset, field),
                        ),
                    ),
                ),
            ).push(TextTree::Line("}"@)),
        ),
        None => TextTree::Branch(setter),
    }
}

/// Both the setter and the initialiser of a member of a union start with the
/// write of the member's discriminant value, so that the tag is in place
/// before the payload is written.
pub proof fn lemma_tag_precedes_payload(
    nodes: Map<u64, Node>,
    scope: Map<u64, Seq<Seq<char>>>,
    discriminant_offset: u32,
    field: Field,
)
    requires
        field.in_union(),
    ensures
        setter_interior(discriminant_offset, field).len() >= 1,
        setter_interior(discriminant_offset, field)[0] == union_tag(discriminant_offset, field)[0],
        initter_interior(nodes, scope, discriminant_offset, field).len() >= 1,
        initter_interior(nodes, scope, discriminant_offset, field)[0] == union_tag(
            discriminant_offset,
            field,
        )[0],
        union_tag(discriminant_offset, field) == Seq::<TextTree>::empty().push(
            TextTree::Line(
                "self.builder.set_data_field::<u16>("@ + decimal(discriminant_offset as nat)
                    + ", "@ + decimal(field.discriminant_value as nat) + ");"@,
            ),
        ),
{
}

/// Every primitive slot is read and written with the same mask: where its
/// default is the type's zero neither the getter nor the setter masks, and
/// where it is not, both mask with the default. This holds of a `Bool`, of a
/// number, and of an enum, which is held as the number of its enumerant.
pub proof fn lemma_mask_is_symmetric(
    scope: Map<u64, Seq<Seq<char>>>,
    offset: u32,
    typ: Type,
    value: Value,
    is_reader: bool,
)
    requires
        typ.is_primitive() || typ is Enum,
        !(typ is Void),
        value_matches(typ, value),
    ensures
        typ is Bool && value.is_zero() ==> {
            &&& slot_getter_expr(scope, offset, typ, value, is_reader) == "self."@ + member(
                is_reader,
            ) + ".get_bool_field("@ + decimal(offset as nat) + ")"@
            &&& slot_setter_line(offset, typ, value) == Some(
                "self.builder.set_bool_field("@ + decimal(offset as nat) + ", value);"@,
            )
        },
        typ is Bool && !value.is_zero() ==> {
            &&& slot_getter_expr(scope, offset, typ, value, is_reader) == "self."@ + member(
                is_reader,
            ) + ".get_bool_field_mask("@ + decimal(offset as nat) + ", true)"@
            &&& slot_setter_line(offset, typ, value) == Some(
                "self.builder.set_bool_field_mask("@ + decimal(offset as nat) + ", value, "@
                    + "true"@ + ");"@,
            )
        },
        typ is Enum && value.is_zero() ==> {
            &&& slot_getter_expr(scope, offset, typ, value, is_reader)
                == "FromPrimitive::from_u16("@ + ("self."@ + member(is_reader)
                + ".get_data_field::<u16>("@ + decimal(offset as nat) + ")"@) + ")"@
            &&& slot_setter_line(offset, typ, value) == Some(
                "self.builder.set_data_field::<u16>("@ + decimal(offset as nat)
                    + ", value as u16)"@,
            )
        },
        typ is Enum && !value.is_zero() ==> {
            &&& slot_getter_expr(scope, offset, typ, value, is_reader)
                == "FromPrimitive::from_u16("@ + ("self."@ + member(is_reader)
                + ".get_data_field_mask::<u16>("@ + decimal(offset as nat) + ", "@ + decimal(
                value->Enum_0 as nat,
            ) + "u16)"@) + ")"@
            &&& slot_setter_line(offset, typ, value) == Some(
                "self.builder.set_data_field_mask::<u16>("@ + decimal(offset as nat)
                    + ", value as u16, "@ + decimal(value->Enum_0 as nat) + ")"@,
            )
        },
        !(typ is Bool) && !(typ is Enum) && value.is_zero() ==> {
            &&& slot_getter_expr(scope, offset, typ, value, is_reader) == "self."@ + member(
                is_reader,
            ) + ".get_data_field::<"@ + prim_type_name(typ) + ">("@ + decimal(offset as nat)
                + ")"@
            &&& slot_setter_line(offset, typ, value) == Some(
                "self.builder.set_data_field::<"@ + prim_type_name(typ) + ">("@ + decimal(
                    offset as nat,
                ) + ", value);"@,
            )
        },
        !(typ is Bool) && !(typ is Enum) && !value.is_zero() ==> {
            &&& slot_getter_expr(scope, offset, typ, value, is_reader) == "self."@ + member(
                is_reader,
            ) + ".get_data_field_mask::<"@ + prim_type_name(typ) + ">("@ + decimal(
                offset as nat,
            ) + ", "@ + value_text(value) + prim_type_name(typ) + ")"@
            &&& slot_setter_line(offset, typ, value) == Some(
                "self.builder.set_data_field_mask::<"@ + prim_type_name(typ) + ">("@ + decimal(
                    offset as nat,
                ) + ", value, "@ + (value_text(value) + float_suffix(value)) + ");"@,
            )
        },
{
    if typ is Bool && !value.is_zero() {
        assert("true"@ + Seq::<char>::empty() =~= "true"@);
    }
}

/// What is known of a slot's accessors once its type has been looked at.
struct SlotParts {
    reader_type: Option<String>,
    builder_type: Option<String>,
    setter: Vec<FormattedText>,
    initter: Vec<FormattedText>,
}

fn list_parts(
    scope_map: &HashMap<u64, Vec<String>>,
    offset: u32,
    elem: &Type,
    initter: Vec<FormattedText>,
) -> (r: Result<(String, String, Vec<FormattedText>), GenError>)
    ensures
        match list_element_error(paths(scope_map@), *elem) {
            Some(e) => r == Err::<(String, String, Vec<FormattedText>), GenError>(e),
            None => r is Ok && r->Ok_0.0@ == list_setter_type(paths(scope_map@), *elem)
                && r->Ok_0.1@ == list_initter_type(paths(scope_map@), *elem) && trees_of(
                r->Ok_0.2@,
            ) == list_initter_interior(paths(scope_map@), trees_of(initter@), offset, *elem),
        },
{
    let mut initter = initter;
    let field = pointer_field_str(false, offset);
    match elem {
        Type::Unrecognized => Err(GenError::Malformed),
        Type::Enum(id) => {
            let the_mod = qualified_name(scope_map, *id)?;
            push_item(
                &mut initter,
                line_of(
                    String::from_str("enum_list::Builder::<'a, ").concat(the_mod.as_str()).concat(
                        "::Reader>::new(",
                    ),
                ),
            );
            push_item(
                &mut initter,
                indent(line_of(field.concat(".init_list(layout::TwoBytes,size)"))),
            );
            push_line(&mut initter, ")");
            Ok(
                (
                    String::from_str("enum_list::Reader<'a,").concat(the_mod.as_str()).concat(
                        "::Reader>",
                    ),
                    String::from_str("enum_list::Builder<'a,").concat(the_mod.as_str()).concat(
                        "::Reader>",
                    ),
                    initter,
                ),
            )
        },
        Type::Struct(id) => {
            let the_mod = qualified_name(scope_map, *id)?;
            push_item(
                &mut initter,
                line_of(
                    String::from_str("struct_list::Builder::<'a, ").concat(
                        the_mod.as_str(),
                    ).concat("::Builder<'a>>::new("),
                ),
            );
            push_item(
                &mut initter,
                indent(
                    line_of(
                        field.concat(".init_struct_list(size, ").concat(the_mod.as_str()).concat(
                            "::STRUCT_SIZE))",
                        ),
                    ),
                ),
            );
            Ok(
                (
                    String::from_str("struct_list::Reader<'a,").concat(the_mod.as_str()).concat(
                        "::Reader<'a>>",
                    ),
                    String::from_str("struct_list::Builder<'a,").concat(the_mod.as_str()).concat(
                        "::Builder<'a>>",
                    ),
                    initter,
                ),
            )
        },
        Type::Text => {
            push_item(
                &mut initter,
                line_of(
                    String::from_str("text_list::Builder::<'a>::new(").concat(
                        field.as_str(),
                    ).concat(".init_list(layout::Pointer, size))"),
                ),
            );
            Ok(
                (
                    String::from_str("text_list::Reader"),
                    String::from_str("text_list::Builder<'a>"),
                    initter,
                ),
            )
        },
        Type::Data => {
            push_item(
                &mut initter,
                line_of(
                    String::from_str("data_list::Builder::<'a>::new(").concat(
                        field.as_str(),
                    ).concat(".init_list(layout::Pointer, size))"),
                ),
            );
            Ok(
                (
                    String::from_str("data_list::Reader"),
                    String::from_str("data_list::Builder<'a>"),
                    initter,
                ),
            )
        },
        Type::List(inner) => {
            let type_param = list_list_type_param(scope_map, inner, false, "'a")?;
            push_item(
                &mut initter,
                line_of(
                    String::from_str("list_list::Builder::<'a,").concat(
                        type_param.as_str(),
                    ).concat(">::new(").concat(field.as_str()).concat(
                        ".init_list(layout::Pointer,size))",
                    ),
                ),
            );
            let reader_param = list_list_type_param(scope_map, inner, true, "'b")?;
            Ok(
                (
                    String::from_str("list_list::Reader<'b, ").concat(
                        reader_param.as_str(),
                    ).concat(">"),
                    String::from_str("list_list::Builder<'a, ").concat(
                        type_param.as_str(),
                    ).concat(">"),
                    initter,
                ),
            )
        },
        Type::AnyPointer => Err(GenError::Unsupported),
        Type::Interface(_) => Err(GenError::Unsupported),
        _ => {
            let type_str = prim_type_str(elem);
            let size_str = element_size_str(element_size(elem));
            push_item(
                &mut initter,
                line_of(
                    String::from_str("primitive_list::Builder::<'a,").concat(type_str).concat(
                        ">::new(",
                    ),
                ),
            );
            push_item(
                &mut initter,
                indent(
                    line_of(
                        field.concat(".init_list(layout::").concat(size_str).concat(",size)"),
                    ),
                ),
            );
            push_line(&mut initter, ")");
            Ok(
                (
                    String::from_str("primitive_list::Reader<'a,").concat(type_str).concat(">"),
                    String::from_str("primitive_list::Builder<'a,").concat(type_str).concat(">"),
                    initter,
                ),
            )
        },
    }
}

fn data_setter_line(offset: u32, typ: &Type, value: &Value) -> (r: String)
    requires
        typ.is_primitive(),
        !(*typ is Void),
        value.is_primitive(),
    ensures
        slot_setter_line(offset, *typ, *value) == Some(r@),
{
    let at = unsigned_to_string(offset as u64);
    match typ {
        Type::Bool => match prim_default(value) {
            None => String::from_str("self.builder.set_bool_field(").concat(at.as_str()).concat(
                ", value);",
            ),
            Some(mask) => String::from_str("self.builder.set_bool_field_mask(").concat(
                at.as_str(),
            ).concat(", value, ").concat(mask.as_str()).concat(");"),
        },
        _ => match prim_default(value) {
            None => String::from_str("self.builder.set_data_field::<").concat(
                prim_type_str(typ),
            ).concat(">(").concat(at.as_str()).concat(", value);"),
            Some(mask) => String::from_str("self.builder.set_data_field_mask::<").concat(
                prim_type_str(typ),
            ).concat(">(").concat(at.as_str()).concat(", value, ").concat(mask.as_str()).concat(
                ");",
            ),
        },
    }
}

fn slot_parts(
    scope_map: &HashMap<u64, Vec<String>>,
    discriminant_offset: u32,
    field: &Field,
    setter: Vec<FormattedText>,
    initter: Vec<FormattedText>,
) -> (r: Result<SlotParts, GenError>)
    requires
        field.kind is Slot,
        trees_of(setter@) == union_tag(discriminant_offset, *field),
        trees_of(initter@) == union_tag(discriminant_offset, *field),
    ensures
        match slot_setter_error(
            paths(scope_map@),
            field.kind->Slot_typ,
            field.kind->Slot_default_value,
        ) {
            Some(e) => r == Err::<SlotParts, GenError>(e),
            None => r is Ok && trees_of(r->Ok_0.setter@) == setter_interior(
                discriminant_offset,
                *field,
            ) && trees_of(r->Ok_0.initter@) == slot_initter_interior(
                paths(scope_map@),
                union_tag(discriminant_offset, *field),
                field.kind->Slot_offset,
                field.kind->Slot_typ,
            ) && match setter_type(paths(scope_map@), *field) {
                Some(t) => r->Ok_0.reader_type is Some && r->Ok_0.reader_type->Some_0@ == t,
                None => r->Ok_0.reader_type is None,
            } && match initter_type(paths(scope_map@), *field) {
                Some(t) => r->Ok_0.builder_type is Some && r->Ok_0.builder_type->Some_0@ == t,
                None => r->Ok_0.builder_type is None,
            },
        },
{
    let mut setter = setter;
    let mut initter = initter;
    match &field.kind {
        FieldKind::Slot { offset, typ, default_value } => {
            let at = pointer_field_str(false, *offset);
            match typ {
                Type::Unrecognized => Err(GenError::Malformed),
                Type::Void => Ok(
                    SlotParts {
                        reader_type: Some(String::from_str("()")),
                        builder_type: None,
                        setter,
                        initter,
                    },
                ),
                Type::Text => {
                    push_item(&mut setter, line_of(at.clone().concat(".set_text(value);")));
                    push_item(&mut initter, line_of(at.concat(".init_text(size)")));
                    Ok(
                        SlotParts {
                            reader_type: Some(String::from_str("text::Reader")),
                            builder_type: Some(String::from_str("text::Builder<'a>")),
                            setter,
                            initter,
                        },
                    )
                },
                Type::Data => {
                    push_item(&mut setter, line_of(at.clone().concat(".set_data(value);")));
                    push_item(&mut initter, line_of(at.concat(".init_data(size)")));
                    Ok(
                        SlotParts {
                            reader_type: Some(String::from_str("data::Reader")),
                            builder_type: Some(String::from_str("data::Builder<'a>")),
                            setter,
                            initter,
                        },
                    )
                },
                Type::List(elem) => {
                    push_item(&mut setter, line_of(at.concat(".set_list(&value.reader)")));
                    let (reader_type, builder_type, initter) = list_parts(
                        scope_map,
                        *offset,
                        elem,
                        initter,
                    )?;
                    Ok(
                        SlotParts {
                            reader_type: Some(reader_type),
                            builder_type: Some(builder_type),
                            setter,
                            initter,
                        },
                    )
                },
                Type::Enum(id) => {
                    let the_mod = qualified_name(scope_map, *id)?;
                    let default = default_value.default_enumerant();
                    let at = unsigned_to_string(*offset as u64);
                    let write = if default == 0 {
                        String::from_str("self.builder.set_data_field::<u16>(").concat(
                            at.as_str(),
                        ).concat(", value as u16)")
                    } else {
                        String::from_str("self.builder.set_data_field_mask::<u16>(").concat(
                            at.as_str(),
                        ).concat(", value as u16, ").concat(
                            unsigned_to_string(default as u64).as_str(),
                        ).concat(")")
                    };
                    push_item(&mut setter, line_of(write));
                    Ok(
                        SlotParts {
                            reader_type: Some(the_mod.concat("::Reader")),
                            builder_type: None,
                            setter,
                            initter,
                        },
                    )
                },
                Type::Struct(id) => {
                    let the_mod = qualified_name(scope_map, *id)?;
                    push_item(
                        &mut setter,
                        line_of(at.clone().concat(".set_struct(&value.struct_reader())")),
                    );
                    push_item(
                        &mut initter,
                        line_of(
                            String::from_str("FromStructBuilder::new(").concat(
                                at.as_str(),
                            ).concat(".init_struct(").concat(the_mod.as_str()).concat(
                                "::STRUCT_SIZE))",
                            ),
                        ),
                    );
                    Ok(
                        SlotParts {
                            reader_type: Some(the_mod.clone().concat("::Reader")),
                            builder_type: Some(the_mod.concat("::Builder<'a>")),
                            setter,
                            initter,
                        },
                    )
                },
                Type::Interface(id) => {
                    let the_mod = qualified_name(scope_map, *id)?;
                    push_item(
                        &mut setter,
                        line_of(at.concat(".set_capability(value.client.hook);")),
                    );
                    Ok(
                        SlotParts {
                            reader_type: Some(the_mod.concat("::Client")),
                            builder_type: None,
                            setter,
                            initter,
                        },
                    )
                },
                Type::AnyPointer => {
                    push_item(
                        &mut initter,
                        line_of(
                            String::from_str("let result = any_pointer::Builder::new(").concat(
                                at.as_str(),
                            ).concat(");"),
                        ),
                    );
                    push_line(&mut initter, "result.clear();");
                    push_line(&mut initter, "result");
                    Ok(
                        SlotParts {
                            reader_type: None,
                            builder_type: Some(String::from_str("any_pointer::Builder<'a>")),
                            setter,
                            initter,
                        },
                    )
                },
                _ => {
                    if !default_value.primitive() {
                        return Err(GenError::Malformed);
                    }
                    push_item(&mut setter, line_of(data_setter_line(*offset, typ, default_value)));
                    Ok(
                        SlotParts {
                            reader_type: Some(String::from_str(prim_type_str(typ))),
                            builder_type: None,
                            setter,
                            initter,
                        },
                    )
                },
            }
        },
        _ => Err(GenError::Malformed),
    }
}

fn tag_line(discriminant_offset: u32, field: &Field) -> (r: Vec<FormattedText>)
    ensures
        trees_of(r@) == union_tag(discriminant_offset, *field),
{
    let mut items = no_items();
    if field.discriminant_value != NO_DISCRIMINANT {
        push_item(
            &mut items,
            line_of(
                String::from_str("self.builder.set_data_field::<u16>(").concat(
                    unsigned_to_string(discriminant_offset as u64).as_str(),
                ).concat(", ").concat(
                    unsigned_to_string(field.discriminant_value as u64).as_str(),
                ).concat(");"),
            ),
        );
    }
    assert(trees_of(items@) =~= union_tag(discriminant_offset, *field));
    items
}

/// The setter of `field` and after it the initialiser, each where the field
/// has one, under the name `styled_name`.
pub fn generate_setter(
    node_map: &HashMap<u64, Node>,
    scope_map: &HashMap<u64, Vec<String>>,
    discriminant_offset: u32,
    styled_name: &str,
    field: &Field,
) -> (r: Result<FormattedText, GenError>)
    ensures
        delivers(
            r,
            setter_error(node_map@, paths(scope_map@), *field),
            setter_text(node_map@, paths(scope_map@), discriminant_offset, styled_name@, *field),
        ),
{
    let setter_interior = tag_line(discriminant_offset, field);
    let mut initter_interior = tag_line(discriminant_offset, field);
    let mut setter_param = "value";
    let mut setter_lifetime_param = "";
    let mut initter_params = "";
    proof {
        reveal_strlit("");
        assert(""@ =~= Seq::<char>::empty());
    }
    let parts = match &field.kind {
        FieldKind::Unrecognized => {
            return Err(GenError::Malformed);
        },
        FieldKind::Group { type_id } => {
            let the_mod = qualified_name(scope_map, *type_id)?;
            let clearing = zero_fields_of_group(node_map, *type_id)?;
            push_item(&mut initter_interior, clearing);
            push_line(&mut initter_interior, "FromStructBuilder::new(self.builder)");
            SlotParts {
                reader_type: None,
                builder_type: Some(the_mod.concat("::Builder<'a>")),
                setter: setter_interior,
                initter: initter_interior,
            }
        },
        FieldKind::Slot { offset, typ, default_value } => {
            match typ {
                Type::Void => {
                    setter_param = "_value";
                },
                Type::Text | Type::Data => {
                    initter_params = "size : uint";
                },
                Type::List(elem) => {
                    initter_params = "size : uint";
                    if let Type::List(_) = &**elem {
                        setter_lifetime_param = "<'b>";
                    }
                },
                _ => {},
            }
            slot_parts(scope_map, discriminant_offset, field, setter_interior, initter_interior)?
        },
    };
    let mut result = no_items();
    match parts.reader_type {
        Some(reader_type) => {
            push_line(&mut result, "#[inline]");
            push_item(
                &mut result,
                line_of(
                    String::from_str("pub fn set_").concat(styled_name).concat(
                        setter_lifetime_param,
                    ).concat("(&self, ").concat(setter_param).concat(" : ").concat(
                        reader_type.as_str(),
                    ).concat(") {"),
                ),
            );
            push_item(&mut result, indent(branch(parts.setter)));
            push_line(&mut result, "}");
        },
        None => {},
    }
    assert(trees_of(result@) =~= setter_items(
        paths(scope_map@),
        discriminant_offset,
        styled_name@,
        *field,
    ));
    match parts.builder_type {
        Some(builder_type) => {
            push_line(&mut result, "#[inline]");
            push_item(
                &mut result,
                line_of(
                    String::from_str("pub fn init_").concat(styled_name).concat("(&self, ").concat(
                        initter_params,
                    ).concat(") -> ").concat(builder_type.as_str()).concat(" {"),
                ),
            );
            push_item(&mut result, indent(branch(parts.initter)));
            push_line(&mut result, "}");
        },
        None => {},
    }
    Ok(branch(result))
}

} // verus!
