//! The union of a struct: the `Which` enum and the accessor that reads it.
use crate::accessors::{generate_import_statements, import_statements};
use crate::error::GenError;
use crate::getter::{getter_error, getter_expr, getter_text, getter_type, member, member_str};
use crate::ident::{capitalize_first_letter, capitalized};
use crate::schema::{Field, FieldKind, Node};
use crate::scope::paths;
use crate::strings::{decimal, join, joined, push_string, unsigned_to_string, views};
use crate::text::{
    blank, branch, indent, line, line_of, no_items, push_item, push_line, trees_of, FormattedText,
    TextTree,
};
use crate::types::{side, side_str};
use std::collections::HashMap;
use vstd::prelude::*;

verus! {

/// The fields that the references of `fields` point to.
pub open spec fn targets(fields: Seq<&Field>) -> Seq<Field> {
    Seq::new(fields.len(), |i: int| *fields[i])
}

/// Whether the arm of `field` holds a type with a lifetime, for which the
/// enum takes a type parameter: a group, or a slot that lies behind a pointer.
pub open spec fn is_generic_arm(field: Field) -> bool {
    field.kind is Group || (field.kind is Slot && field.kind->Slot_typ.is_pointer())
}

/// Why `field` has no arm: its name is empty, or it has no getter.
pub open spec fn arm_error(scope: Map<u64, Seq<Seq<char>>>, field: Field) -> Option<GenError> {
    if field.name@.len() == 0 {
        Some(GenError::InvalidIdentifier)
    } else {
        getter_error(scope, field)
    }
}

/// Why the union of `fields` cannot be generated: the failure of the first
/// field that has one.
pub open spec fn union_error(
    scope: Map<u64, Seq<Seq<char>>>,
    fields: Seq<Field>,
) -> Option<GenError>
    decreases fields.len(),
{
    if fields.len() == 0 {
        None
    } else {
        match union_error(scope, fields.drop_last()) {
            Some(e) => Some(e),
            None => arm_error(scope, fields.last()),
        }
    }
}

/// The fields whose arms take a type parameter, in order.
pub open spec fn generic_arms(fields: Seq<Field>) -> Seq<Field> {
    fields.filter(|f: Field| is_generic_arm(f))
}

/// The type parameters of the enum: `A0`, `A1` and so on, one for each arm
/// that takes one.
pub open spec fn type_params(fields: Seq<Field>) -> Seq<Seq<char>> {
    Seq::new(generic_arms(fields).len(), |i: int| "A"@ + decimal(i as nat))
}

/// The types that stand for the type parameters in the accessor's result:
/// for each arm that takes a parameter, the type that the field's getter returns.
pub open spec fn type_args(
    scope: Map<u64, Seq<Seq<char>>>,
    fields: Seq<Field>,
    is_reader: bool,
) -> Seq<Seq<char>> {
    Seq::new(
        generic_arms(fields).len(),
        |i: int| getter_type(scope, generic_arms(fields)[i], is_reader),
    )
}

/// The arm of the enum that belongs to `fields[i]`: the capitalised name of
/// the field, and the type that its getter returns or, for an arm that takes
/// a type parameter, that parameter: the arm's number among such arms.
pub open spec fn enum_arm(
    scope: Map<u64, Seq<Seq<char>>>,
    fields: Seq<Field>,
    i: int,
    is_reader: bool,
) -> TextTree {
    let payload = if is_generic_arm(fields[i]) {
        "A"@ + decimal(generic_arms(fields.take(i)).len())
    } else {
        getter_type(scope, fields[i], is_reader)
    };
    TextTree::Line(capitalized(fields[i].name@) + "("@ + payload + "),"@)
}

/// The arms of the enum, one for each field in order.
pub open spec fn enum_arms(
    scope: Map<u64, Seq<Seq<char>>>,
    fields: Seq<Field>,
    is_reader: bool,
) -> Seq<TextTree> {
    Seq::new(fields.len(), |i: int| enum_arm(scope, fields, i, is_reader))
}

/// The arm of the accessor's `match` that belongs to `field`: on the field's
/// discriminant value it returns the field's variant, holding what the
/// field's getter reads.
pub open spec fn which_arm(
    scope: Map<u64, Seq<Seq<char>>>,
    field: Field,
    is_reader: bool,
) -> TextTree {
    TextTree::Branch(
        Seq::empty().push(
            TextTree::Line(decimal(field.discriminant_value as nat) + " => {"@),
        ).push(
            TextTree::Indent(
                Box::new(
                    TextTree::Line(
                        "return std::option::Some("@ + capitalized(field.name@) + "("@,
                    ),
                ),
            ),
        ).push(
            TextTree::Indent(
                Box::new(
                    TextTree::Indent(
                        Box::new(TextTree::Line(getter_expr(scope, field, is_reader))),
                    ),
                ),
            ),
        ).push(TextTree::Indent(Box::new(TextTree::Line("));"@)))).push(TextTree::Line("}"@)),
    )
}

/// The arms of the accessor's `match`: one for each field in order, and a
/// last one that returns `None` for every other discriminant value.
pub open spec fn which_arms(
    scope: Map<u64, Seq<Seq<char>>>,
    fields: Seq<Field>,
    is_reader: bool,
) -> Seq<TextTree> {
    Seq::new(fields.len(), |i: int| which_arm(scope, fields[i], is_reader)).push(
        TextTree::Line("_ => return std::option::None"@),
    )
}

/// `<'a,` the parts separated by commas `>`, or nothing where there are no parts.
pub open spec fn generics(parts: Seq<Seq<char>>) -> Seq<char> {
    if parts.len() > 0 {
        "<'a,"@ + joined(parts, ","@) + ">"@
    } else {
        Seq::empty()
    }
}

/// The declaration of the enum `Which`.
pub open spec fn which_enum(
    scope: Map<u64, Seq<Seq<char>>>,
    fields: Seq<Field>,
    is_reader: bool,
) -> TextTree {
    TextTree::Branch(
        Seq::empty().push(
            TextTree::Branch(
                Seq::empty().push(
                    TextTree::Line("pub enum Which"@ + generics(type_params(fields)) + " {"@),
                ).push(
                    TextTree::Indent(
                        Box::new(TextTree::Branch(enum_arms(scope, fields, is_reader))),
                    ),
                ).push(TextTree::Line("}"@)),
            ),
        ),
    )
}

/// The declaration of the enum: as it is for a reader, and inside a module
/// `Which` of its own for a builder.
pub open spec fn union_text(
    scope: Map<u64, Seq<Seq<char>>>,
    fields: Seq<Field>,
    is_reader: bool,
) -> TextTree {
    if is_reader {
        which_enum(scope, fields, is_reader)
    } else {
        TextTree::Branch(
            Seq::empty().push(TextTree::Line("pub mod Which {"@)).push(
                TextTree::Indent(Box::new(import_statements())),
            ).push(TextTree::Blank).push(
                TextTree::Indent(Box::new(which_enum(scope, fields, is_reader))),
            ).push(TextTree::Line("}"@)),
        )
    }
}

/// The name of the enum as the accessor returns it: `WhichReader` or
/// `WhichBuilder`, with a lifetime where the enum has type parameters.
pub open spec fn concrete_type(fields: Seq<Field>, is_reader: bool) -> Seq<char> {
    if type_params(fields).len() > 0 {
        "Which"@ + side(is_reader) + "<'a>"@
    } else {
        "Which"@ + side(is_reader) + Seq::<char>::empty()
    }
}

/// The accessor `which()`: it reads the discriminant at
/// `discriminant_offset` and returns the variant of the field that has this
/// discriminant value, or `None` where no field has it.
pub open spec fn which_getter(
    scope: Map<u64, Seq<Seq<char>>>,
    discriminant_offset: u32,
    fields: Seq<Field>,
    is_reader: bool,
) -> TextTree {
    TextTree::Branch(
        Seq::empty().push(TextTree::Line("#[inline]"@)).push(
            TextTree::Line(
                "pub fn which(&self) -> std::option::Option<"@ + concrete_type(fields, is_reader)
                    + "> {"@,
            ),
        ).push(
            TextTree::Indent(
                Box::new(
                    TextTree::Branch(
                        Seq::empty().push(
                            TextTree::Line(
                                "match self."@ + member(is_reader) + ".get_data_field::<u16>("@
                                    + decimal(discriminant_offset as nat) + ") {"@,
                            ),
                        ).push(
                            TextTree::Indent(
                                Box::new(TextTree::Branch(which_arms(scope, fields, is_reader))),
                            ),
                        ).push(TextTree::Line("}"@)),
                    ),
                ),
            ),
        ).push(TextTree::Line("}"@)),
    )
}

/// The type alias that gives the enum its arguments.
pub open spec fn which_typedef(
    scope: Map<u64, Seq<Seq<char>>>,
    fields: Seq<Field>,
    is_reader: bool,
) -> TextTree {
    TextTree::Line(
        "pub type "@ + concrete_type(fields, is_reader) + " = Which"@ + generics(
            type_args(scope, fields, is_reader),
        ) + ";"@,
    )
}

/// Once a field has failed, the fields after it do not change the failure.
proof fn lemma_first_error_stays(scope: Map<u64, Seq<Seq<char>>>, fields: Seq<Field>, n: int)
    requires
        0 <= n <= fields.len(),
        union_error(scope, fields.take(n)) is Some,
    ensures
        union_error(scope, fields) == union_error(scope, fields.take(n)),
    decreases fields.len() - n,
{
    if n < fields.len() {
        assert(fields.take(n + 1).drop_last() =~= fields.take(n));
        lemma_first_error_stays(scope, fields, n + 1);
    } else {
        assert(fields.take(n) =~= fields);
    }
}

fn generics_str(parts: &Vec<String>) -> (r: String)
    ensures
        r@ == generics(views(parts@)),
{
    if parts.len() > 0 {
        String::from_str("<'a,").concat(join(parts, ",").as_str()).concat(">")
    } else {
        String::new()
    }
}

/// The parts of a union that is being put together.
struct Arms {
    getter_interior: Vec<FormattedText>,
    enum_interior: Vec<FormattedText>,
    ty_params: Vec<String>,
    ty_args: Vec<String>,
}

#[verifier::loop_isolation(false)]
fn collect_arms(
    node_map: &HashMap<u64, Node>,
    scope_map: &HashMap<u64, Vec<String>>,
    fields: &Vec<&Field>,
    is_reader: bool,
) -> (r: Result<Arms, GenError>)
    ensures
        match union_error(paths(scope_map@), targets(fields@)) {
            Some(e) => r == Err::<Arms, GenError>(e),
            None => r is Ok && trees_of(r->Ok_0.getter_interior@) == Seq::new(
                fields@.len(),
                |i: int| which_arm(paths(scope_map@), targets(fields@)[i], is_reader),
            ) && trees_of(r->Ok_0.enum_interior@) == enum_arms(
                paths(scope_map@),
                targets(fields@),
                is_reader,
            ) && views(r->Ok_0.ty_params@) == type_params(targets(fields@)) && views(
                r->Ok_0.ty_args@,
            ) == type_args(paths(scope_map@), targets(fields@), is_reader),
        },
{
    let ghost scope = paths(scope_map@);
    let ghost all = targets(fields@);
    let mut getter_interior = no_items();
    let mut enum_interior = no_items();
    let mut ty_params: Vec<String> = Vec::new();
    let mut ty_args: Vec<String> = Vec::new();
    let mut i: usize = 0;
    proof {
        assert(all.take(0) =~= Seq::<Field>::empty());
        assert(trees_of(getter_interior@) =~= Seq::new(
            0,
            |j: int| which_arm(scope, all[j], is_reader),
        ));
        reveal(Seq::filter);
        assert(trees_of(enum_interior@) =~= Seq::new(
            0,
            |j: int| enum_arm(scope, all, j, is_reader),
        ));
        assert(views(ty_params@) =~= type_params(all.take(0)));
        assert(views(ty_args@) =~= type_args(scope, all.take(0), is_reader));
    }
    while i < fields.len()
        invariant
            i <= fields.len(),
            union_error(scope, all.take(i as int)) is None,
            trees_of(getter_interior@) == Seq::new(
                i as nat,
                |j: int| which_arm(scope, all[j], is_reader),
            ),
            trees_of(enum_interior@) == Seq::new(
                i as nat,
                |j: int| enum_arm(scope, all, j, is_reader),
            ),
            views(ty_params@) == type_params(all.take(i as int)),
            views(ty_args@) == type_args(scope, all.take(i as int), is_reader),
        decreases fields.len() - i,
    {
        let field: &Field = fields[i];
        proof {
            assert(all.take(i + 1).drop_last() =~= all.take(i as int));
            assert(all.take(i + 1).last() == *field);
            assert(union_error(scope, all.take(i + 1)) == arm_error(scope, *field));
        }
        if field.name.as_str().unicode_len() == 0 {
            proof {
                lemma_first_error_stays(scope, all, i + 1);
            }
            return Err(GenError::InvalidIdentifier);
        }
        let enumerant_name = capitalize_first_letter(field.name.as_str());
        let (ty, get) = match getter_text(node_map, scope_map, field, is_reader) {
            Ok(pair) => pair,
            Err(e) => {
                proof {
                    lemma_first_error_stays(scope, all, i + 1);
                }
                return Err(e);
            },
        };
        let mut arm = no_items();
        push_item(
            &mut arm,
            line_of(unsigned_to_string(field.discriminant_value as u64).concat(" => {")),
        );
        push_item(
            &mut arm,
            indent(
                line_of(
                    String::from_str("return std::option::Some(").concat(
                        enumerant_name.as_str(),
                    ).concat("("),
                ),
            ),
        );
        push_item(&mut arm, indent(indent(get)));
        push_item(&mut arm, indent(line("));")));
        push_line(&mut arm, "}");
        push_item(&mut getter_interior, branch(arm));
        let generic = match &field.kind {
            FieldKind::Group { .. } => true,
            FieldKind::Slot { offset, typ, default_value } => typ.pointer(),
            FieldKind::Unrecognized => false,
        };
        let ty1 = if generic {
            let param = String::from_str("A").concat(
                unsigned_to_string(ty_params.len() as u64).as_str(),
            );
            push_string(&mut ty_args, ty);
            push_string(&mut ty_params, param.clone());
            param
        } else {
            ty
        };
        push_item(
            &mut enum_interior,
            line_of(enumerant_name.concat("(").concat(ty1.as_str()).concat("),")),
        );
        proof {
            reveal(Seq::filter);
            assert(trees_of(getter_interior@) =~= Seq::new(
                (i + 1) as nat,
                |j: int| which_arm(scope, all[j], is_reader),
            ));
            assert(trees_of(enum_interior@) =~= Seq::new(
                (i + 1) as nat,
                |j: int| enum_arm(scope, all, j, is_reader),
            ));
            assert(views(ty_params@) =~= type_params(all.take(i + 1)));
            assert(views(ty_args@) =~= type_args(scope, all.take(i + 1), is_reader));
        }
        i += 1;
    }
    assert(all.take(fields.len() as int) =~= all);
    Ok(Arms { getter_interior, enum_interior, ty_params, ty_args })
}

/// The union of `fields`: the declaration of the enum `Which`, the accessor
/// `which()`, and the type alias that the accessor returns.
pub fn generate_union(
    node_map: &HashMap<u64, Node>,
    scope_map: &HashMap<u64, Vec<String>>,
    discriminant_offset: u32,
    fields: &Vec<&Field>,
    is_reader: bool,
) -> (r: Result<(FormattedText, FormattedText, FormattedText), GenError>)
    ensures
        match union_error(paths(scope_map@), targets(fields@)) {
            Some(e) => r == Err::<(FormattedText, FormattedText, FormattedText), GenError>(e),
            None => r is Ok && r->Ok_0.0@ == union_text(
                paths(scope_map@),
                targets(fields@),
                is_reader,
            ) && r->Ok_0.1@ == which_getter(
                paths(scope_map@),
                discriminant_offset,
                targets(fields@),
                is_reader,
            ) && r->Ok_0.2@ == which_typedef(paths(scope_map@), targets(fields@), is_reader),
        },
{
    let arms = collect_arms(node_map, scope_map, fields, is_reader)?;
    let mut getter_interior = arms.getter_interior;
    push_line(&mut getter_interior, "_ => return std::option::None");

    let mut declaration = no_items();
    push_item(
        &mut declaration,
        line_of(
            String::from_str("pub enum Which").concat(
                generics_str(&arms.ty_params).as_str(),
            ).concat(" {"),
        ),
    );
    push_item(&mut declaration, indent(branch(arms.enum_interior)));
    push_line(&mut declaration, "}");
    let mut interior = no_items();
    push_item(&mut interior, branch(declaration));

    let result = if is_reader {
        branch(interior)
    } else {
        let mut outer = no_items();
        push_line(&mut outer, "pub mod Which {");
        push_item(&mut outer, indent(generate_import_statements()));
        push_item(&mut outer, blank());
        push_item(&mut outer, indent(branch(interior)));
        push_line(&mut outer, "}");
        branch(outer)
    };

    let concrete_type = String::from_str("Which").concat(side_str(is_reader)).concat(
        if arms.ty_params.len() > 0 {
            "<'a>"
        } else {
            ""
        },
    );
    proof {
        reveal_strlit("");
        assert(""@ =~= Seq::<char>::empty());
    }
    let typedef = line_of(
        String::from_str("pub type ").concat(concrete_type.as_str()).concat(" = Which").concat(
            generics_str(&arms.ty_args).as_str(),
        ).concat(";"),
    );

    let mut matching = no_items();
    push_item(
        &mut matching,
        line_of(
            String::from_str("match self.").concat(member_str(is_reader)).concat(
                ".get_data_field::<u16>(",
            ).concat(unsigned_to_string(discriminant_offset as u64).as_str()).concat(") {"),
        ),
    );
    push_item(&mut matching, indent(branch(getter_interior)));
    push_line(&mut matching, "}");
    let mut getter = no_items();
    push_line(&mut getter, "#[inline]");
    push_item(
        &mut getter,
        line_of(
            String::from_str("pub fn which(&self) -> std::option::Option<").concat(
                concrete_type.as_str(),
            ).concat("> {"),
        ),
    );
    push_item(&mut getter, indent(branch(matching)));
    push_line(&mut getter, "}");

    Ok((result, branch(getter), typedef))
}

} // verus!
