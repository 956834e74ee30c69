//! The smaller pieces of a generated struct: the imports, the `has_`
//! predicates and the getters of the pipeline.
use crate::error::{delivers, GenError};
use crate::getter::{member, member_str, pointer_field, pointer_field_str};
use crate::ident::{camel_to_snake_case, is_alphanumeric_name, is_identifier, snake};
use crate::schema::{Field, FieldKind, Node, Type, NO_DISCRIMINANT};
use crate::scope::{module_of, paths, qualified_name};
use crate::strings::{decimal, unsigned_to_string};
use crate::text::{
    branch, indent, line, line_of, no_items, push_item, push_line, trees_of, FormattedText,
    TextTree,
};
use std::collections::HashMap;
use vstd::prelude::*;

verus! {

/// The imports that every generated struct module starts with.
pub open spec fn import_statements() -> TextTree {
    TextTree::Branch(
        Seq::empty().push(TextTree::Line("use std;"@)).push(
            TextTree::Line("use capnp::any_pointer;"@),
        ).push(
            TextTree::Line("use capnp::capability::{FromClientHook, FromTypelessPipeline};"@),
        ).push(TextTree::Line("use capnp::{text, data};"@)).push(
            TextTree::Line("use capnp::layout;"@),
        ).push(
            TextTree::Line(
                "use capnp::layout::{FromStructBuilder, FromStructReader, ToStructReader};"@,
            ),
        ).push(
            TextTree::Line(
                "use capnp::{primitive_list, enum_list, struct_list, text_list, data_list, list_list};"@,
            ),
        ).push(TextTree::Line("use capnp::list::ToU16;"@)),
    )
}

/// The imports that every generated struct module starts with.
pub fn generate_import_statements() -> (r: FormattedText)
    ensures
        r@ == import_statements(),
{
    let mut items = no_items();
    push_line(&mut items, "use std;");
    push_line(&mut items, "use capnp::any_pointer;");
    push_line(&mut items, "use capnp::capability::{FromClientHook, FromTypelessPipeline};");
    push_line(&mut items, "use capnp::{text, data};");
    push_line(&mut items, "use capnp::layout;");
    push_line(
        &mut items,
        "use capnp::layout::{FromStructBuilder, FromStructReader, ToStructReader};",
    );
    push_line(
        &mut items,
        "use capnp::{primitive_list, enum_list, struct_list, text_list, data_list, list_list};",
    );
    push_line(&mut items, "use capnp::list::ToU16;");
    branch(items)
}

/// Whether `field` gets a `has_` predicate: it is a slot whose value lies
/// behind a pointer.
pub open spec fn has_haser(field: Field) -> bool {
    field.kind matches FieldKind::Slot { offset, typ, default_value } && typ.is_pointer()
}

/// The body of the `has_` predicate of `field`: for a member of a union the
/// test of the discriminant first, then the test of the pointer.
pub open spec fn haser_interior(
    discriminant_offset: u32,
    field: Field,
    is_reader: bool,
) -> Seq<TextTree> {
    let test = TextTree::Line(
        "!"@ + pointer_field(is_reader, field.kind->Slot_offset) + ".is_null()"@,
    );
    if field.in_union() {
        Seq::empty().push(
            TextTree::Line(
                "if self."@ + member(is_reader) + ".get_data_field::<u16>("@ + decimal(
                    discriminant_offset as nat,
                ) + ") != "@ + decimal(field.discriminant_value as nat) + " { return false; }"@,
            ),
        ).push(test)
    } else {
        Seq::empty().push(test)
    }
}

/// The `has_` predicate of `field` under the name `name`; nothing for a field
/// that gets none.
pub open spec fn haser_text(
    discriminant_offset: u32,
    name: Seq<char>,
    field: Field,
    is_reader: bool,
) -> TextTree {
    if has_haser(field) {
        TextTree::Branch(
            Seq::empty().push(TextTree::Line("pub fn has_"@ + name + "(&self) -> bool {"@)).push(
                TextTree::Indent(
                    Box::new(
                        TextTree::Branch(haser_interior(discriminant_offset, field, is_reader)),
                    ),
                ),
            ).push(TextTree::Line("}"@)),
        )
    } else {
        TextTree::Branch(Seq::empty())
    }
}

/// The `has_` predicate of `field` under the name `styled_name`; nothing for a
/// field whose value does not lie behind a pointer.
pub fn generate_haser(
    discriminant_offset: u32,
    styled_name: &str,
    field: &Field,
    is_reader: bool,
) -> (r: FormattedText)
    ensures
        r@ == haser_text(discriminant_offset, styled_name@, *field, is_reader),
{
    let mut result = no_items();
    let mut interior = no_items();
    let member = member_str(is_reader);
    if field.discriminant_value != NO_DISCRIMINANT {
        push_item(
            &mut interior,
            line_of(
                String::from_str("if self.").concat(member).concat(".get_data_field::<u16>(").concat(
                    unsigned_to_string(discriminant_offset as u64).as_str(),
                ).concat(") != ").concat(
                    unsigned_to_string(field.discriminant_value as u64).as_str(),
                ).concat(" { return false; }"),
            ),
        );
    }
    match &field.kind {
        FieldKind::Slot { offset, typ, default_value } => {
            if typ.pointer() {
                push_item(
                    &mut interior,
                    line_of(
                        String::from_str("!").concat(
                            pointer_field_str(is_reader, *offset).as_str(),
                        ).concat(".is_null()"),
                    ),
                );
                push_item(
                    &mut result,
                    line_of(
                        String::from_str("pub fn has_").concat(styled_name).concat(
                            "(&self) -> bool {",
                        ),
                    ),
                );
                assert(trees_of(interior@) =~= haser_interior(
                    discriminant_offset,
                    *field,
                    is_reader,
                ));
                push_item(&mut result, indent(branch(interior)));
                push_line(&mut result, "}");
            }
        },
        _ => {},
    }
    branch(result)
}

/// Why `field` has no getter on the pipeline.
pub open spec fn pipeline_getter_error(
    scope: Map<u64, Seq<Seq<char>>>,
    field: Field,
) -> Option<GenError> {
    let target = match field.kind {
        FieldKind::Group { type_id } => Some(type_id),
        FieldKind::Slot { offset, typ, default_value } => match typ {
            Type::Struct(id) => Some(id),
            Type::Interface(id) => Some(id),
            _ => None,
        },
        FieldKind::Unrecognized => None,
    };
    if field.kind is Unrecognized || (field.kind is Slot && field.kind->Slot_typ is Unrecognized) {
        Some(GenError::Malformed)
    } else {
        match target {
            None => None,
            Some(id) => if !scope.contains_key(id) {
                Some(GenError::MissingNode)
            } else if !is_identifier(field.name@) {
                Some(GenError::InvalidIdentifier)
            } else {
                None
            },
        }
    }
}

/// The getter of `field` on the pipeline: one for a group, a struct or an
/// interface, and nothing for any other field.
pub open spec fn pipeline_getter_text(scope: Map<u64, Seq<Seq<char>>>, field: Field) -> TextTree {
    match field.kind {
        FieldKind::Group { type_id } => TextTree::Branch(
            Seq::empty().push(
                TextTree::Line(
                    "pub fn get_"@ + snake(field.name@) + "(&self) -> "@ + module_of(
                        scope,
                        type_id,
                    ) + "::Pipeline {"@,
                ),
            ).push(
                TextTree::Indent(
                    Box::new(
                        TextTree::Line("FromTypelessPipeline::new(self._typeless.noop())"@),
                    ),
                ),
            ).push(TextTree::Line("}"@)),
        ),
        FieldKind::Slot { offset, typ, default_value } => match typ {
            Type::Struct(id) => TextTree::Branch(
                Seq::empty().push(
                    TextTree::Line(
                        "pub fn get_"@ + snake(field.name@) + "(&self) -> "@ + module_of(scope, id)
                            + "::Pipeline {"@,
                    ),
                ).push(
                    TextTree::Indent(
                        Box::new(
                            TextTree::Line(
                                "FromTypelessPipeline::new(self._typeless.get_pointer_field("@
                                    + decimal(offset as nat) + "))"@,
                            ),
                        ),
                    ),
                ).push(TextTree::Line("}"@)),
            ),
            Type::Interface(id) => TextTree::Branch(
                Seq::empty().push(
                    TextTree::Line(
                        "pub fn get_"@ + snake(field.name@) + "(&self) -> "@ + module_of(scope, id)
                            + "::Client {"@,
                    ),
                ).push(
                    TextTree::Indent(
                        Box::new(
                            TextTree::Line(
                                "FromClientHook::new(self._typeless.get_pointer_field("@ + decimal(
                                    offset as nat,
                                ) + ").as_cap())"@,
                            ),
                        ),
                    ),
                ).push(TextTree::Line("}"@)),
            ),
            _ => TextTree::Branch(Seq::empty()),
        },
        FieldKind::Unrecognized => TextTree::Branch(Seq::empty()),
    }
}

/// The getter of `field` on the pipeline.
pub fn generate_pipeline_getter(
    _node_map: &HashMap<u64, Node>,
    scope_map: &HashMap<u64, Vec<String>>,
    field: &Field,
) -> (r: Result<FormattedText, GenError>)
    ensures
        delivers(
            r,
            pipeline_getter_error(paths(scope_map@), *field),
            pipeline_getter_text(paths(scope_map@), *field),
        ),
{
    let mut items = no_items();
    match &field.kind {
        FieldKind::Unrecognized => {
            return Err(GenError::Malformed);
        },
        FieldKind::Group { type_id } => {
            let the_mod = qualified_name(scope_map, *type_id)?;
            if !is_alphanumeric_name(field.name.as_str()) {
                return Err(GenError::InvalidIdentifier);
            }
            push_item(
                &mut items,
                line_of(
                    String::from_str("pub fn get_").concat(
                        camel_to_snake_case(field.name.as_str()).as_str(),
                    ).concat("(&self) -> ").concat(the_mod.as_str()).concat("::Pipeline {"),
                ),
            );
            push_item(
                &mut items,
                indent(line("FromTypelessPipeline::new(self._typeless.noop())")),
            );
            push_line(&mut items, "}");
        },
        FieldKind::Slot { offset, typ, default_value } => match typ {
            Type::Unrecognized => {
                return Err(GenError::Malformed);
            },
            Type::Struct(id) => {
                let the_mod = qualified_name(scope_map, *id)?;
                if !is_alphanumeric_name(field.name.as_str()) {
                    return Err(GenError::InvalidIdentifier);
                }
                push_item(
                    &mut items,
                    line_of(
                        String::from_str("pub fn get_").concat(
                            camel_to_snake_case(field.name.as_str()).as_str(),
                        ).concat("(&self) -> ").concat(the_mod.as_str()).concat("::Pipeline {"),
                    ),
                );
                push_item(
                    &mut items,
                    indent(
                        line_of(
                            String::from_str(
                                "FromTypelessPipeline::new(self._typeless.get_pointer_field(",
                            ).concat(unsigned_to_string(*offset as u64).as_str()).concat("))"),
                        ),
                    ),
                );
                push_line(&mut items, "}");
            },
            Type::Interface(id) => {
                let the_mod = qualified_name(scope_map, *id)?;
                if !is_alphanumeric_name(field.name.as_str()) {
                    return Err(GenError::InvalidIdentifier);
                }
                push_item(
                    &mut items,
                    line_of(
                        String::from_str("pub fn get_").concat(
                            camel_to_snake_case(field.name.as_str()).as_str(),
                        ).concat("(&self) -> ").concat(the_mod.as_str()).concat("::Client {"),
                    ),
                );
                push_item(
                    &mut items,
                    indent(
                        line_of(
                            String::from_str(
                                "FromClientHook::new(self._typeless.get_pointer_field(",
                            ).concat(unsigned_to_string(*offset as u64).as_str()).concat(
                                ").as_cap())",
                            ),
                        ),
                    ),
                );
                push_line(&mut items, "}");
            },
            _ => {},
        },
    }
    Ok(branch(items))
}

} // verus!
