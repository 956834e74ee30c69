//! Clearing the storage of a group before it is initialised.
use crate::error::{delivers, GenError};
use crate::schema::{Field, FieldKind, Node, NodeKind, StructNode, Type};
use crate::strings::{decimal, unsigned_to_string};
use crate::text::{branch, line_of, no_items, push_item, trees_of, FormattedText, TextTree};
use crate::types::{prim_type_name, prim_type_str};
use std::collections::HashMap;
use vstd::prelude::*;

verus! {

broadcast use vstd::std_specs::hash::group_hash_axioms;

/// The statement that clears a slot of type `typ` at `offset`; `None` for a
/// type that takes no room.
pub open spec fn clearing_line(offset: u32, typ: Type) -> Option<Seq<char>> {
    match typ {
        Type::Void => None,
        Type::Unrecognized => None,
        Type::Bool => Some(
            "self.builder.set_bool_field("@ + decimal(offset as nat) + ", false);"@,
        ),
        Type::Struct(_) => Some(
            "self.builder.get_pointer_field("@ + decimal(offset as nat) + ").clear();"@,
        ),
        Type::List(_) => Some(
            "self.builder.get_pointer_field("@ + decimal(offset as nat) + ").clear();"@,
        ),
        Type::Text => Some(
            "self.builder.get_pointer_field("@ + decimal(offset as nat) + ").clear();"@,
        ),
        Type::Data => Some(
            "self.builder.get_pointer_field("@ + decimal(offset as nat) + ").clear();"@,
        ),
        Type::AnyPointer => Some(
            "self.builder.get_pointer_field("@ + decimal(offset as nat) + ").clear();"@,
        ),
        Type::Interface(_) => Some(
            "self.builder.get_pointer_field("@ + decimal(offset as nat) + ").clear();"@,
        ),
        _ => Some(
            "self.builder.set_data_field::<"@ + prim_type_name(typ) + ">("@ + decimal(
                offset as nat,
            ) + ", 0);"@,
        ),
    }
}

/// `items` with the line `s` at its end, unless it holds that line already.
pub open spec fn with_line_once(items: Seq<TextTree>, s: Seq<char>) -> Seq<TextTree> {
    if items.contains(TextTree::Line(s)) {
        items
    } else {
        items.push(TextTree::Line(s))
    }
}

/// The statement that clears the discriminant of a struct with a union.
pub open spec fn tag_clearing(st: StructNode) -> Seq<TextTree> {
    if st.discriminant_count != 0 {
        Seq::empty().push(
            TextTree::Line(
                "self.builder.set_data_field::<u16>("@ + decimal(st.discriminant_offset as nat)
                    + ", 0);"@,
            ),
        )
    } else {
        Seq::empty()
    }
}

/// `start` followed by what clears each of `fields` in turn: for a slot one
/// statement, left out where the same statement stands there already, and for a
/// group the statements of the group, nested `depth` levels at most.
pub open spec fn zeroing_items(
    nodes: Map<u64, Node>,
    fields: Seq<Field>,
    start: Seq<TextTree>,
    depth: nat,
) -> Seq<TextTree>
    decreases depth, fields.len() + 1,
{
    if fields.len() == 0 {
        start
    } else {
        let before = zeroing_items(nodes, fields.drop_last(), start, depth);
        match fields.last().kind {
            FieldKind::Group { type_id } => before.push(zeroing(nodes, type_id, depth)),
            FieldKind::Slot { offset, typ, default_value } => match clearing_line(offset, typ) {
                Some(s) => with_line_once(before, s),
                None => before,
            },
            FieldKind::Unrecognized => before,
        }
    }
}

/// The statements that clear the storage of the group whose node is `id`.
pub open spec fn zeroing(nodes: Map<u64, Node>, id: u64, depth: nat) -> TextTree
    decreases depth, 0nat,
{
    if depth > 0 && nodes.contains_key(id) && nodes[id].kind is Struct {
        let st = nodes[id].kind->Struct_0;
        TextTree::Branch(zeroing_items(nodes, st.fields@, tag_clearing(st), (depth - 1) as nat))
    } else {
        TextTree::Branch(Seq::empty())
    }
}

/// Why the storage of `field` cannot be cleared.
pub open spec fn field_zeroing_error(
    nodes: Map<u64, Node>,
    field: Field,
    depth: nat,
) -> Option<GenError>
    decreases depth, 1nat,
{
    match field.kind {
        FieldKind::Unrecognized => Some(GenError::Malformed),
        FieldKind::Group { type_id } => zeroing_error(nodes, type_id, depth),
        FieldKind::Slot { offset, typ, default_value } => if typ is Unrecognized {
            Some(GenError::Malformed)
        } else {
            None
        },
    }
}

/// Why the storage of `fields` cannot be cleared: the failure of the first
/// field that has one.
pub open spec fn fields_zeroing_error(
    nodes: Map<u64, Node>,
    fields: Seq<Field>,
    depth: nat,
) -> Option<GenError>
    decreases depth, fields.len() + 2,
{
    if fields.len() == 0 {
        None
    } else {
        match fields_zeroing_error(nodes, fields.drop_last(), depth) {
            Some(e) => Some(e),
            None => field_zeroing_error(nodes, fields.last(), depth),
        }
    }
}

/// Why the storage of the group whose node is `id` cannot be cleared: the
/// node is unknown, it is no struct, or groups are nested more than `depth` deep.
pub open spec fn zeroing_error(nodes: Map<u64, Node>, id: u64, depth: nat) -> Option<GenError>
    decreases depth, 0nat,
{
    if !nodes.contains_key(id) {
        Some(GenError::MissingNode)
    } else if !(nodes[id].kind is Struct) {
        Some(GenError::Malformed)
    } else if depth == 0 {
        Some(GenError::TooDeep)
    } else {
        fields_zeroing_error(nodes, nodes[id].kind->Struct_0.fields@, (depth - 1) as nat)
    }
}

/// Whether `items` holds the line `s`.
pub fn holds_line(items: &Vec<FormattedText>, s: &String) -> (r: bool)
    ensures
        r == trees_of(items@).contains(TextTree::Line(s@)),
{
    let mut i: usize = 0;
    while i < items.len()
        invariant
            i <= items.len(),
            forall|j: int| 0 <= j < i ==> trees_of(items@)[j] != TextTree::Line(s@),
        decreases items.len() - i,
    {
        if let FormattedText::Line(t) = &items[i] {
            if *t == *s {
                assert(trees_of(items@)[i as int] == TextTree::Line(s@));
                return true;
            }
        }
        assert(trees_of(items@)[i as int] != TextTree::Line(s@));
        i += 1;
    }
    false
}

fn clearing_statement(offset: u32, typ: &Type) -> (r: Option<String>)
    ensures
        match clearing_line(offset, *typ) {
            Some(s) => r is Some && r->Some_0@ == s,
            None => r is None,
        },
{
    let at = unsigned_to_string(offset as u64);
    match typ {
        Type::Void => None,
        Type::Unrecognized => None,
        Type::Bool => Some(
            String::from_str("self.builder.set_bool_field(").concat(at.as_str()).concat(
                ", false);",
            ),
        ),
        Type::Struct(_) | Type::List(_) | Type::Text | Type::Data | Type::AnyPointer
        | Type::Interface(_) => Some(
            String::from_str("self.builder.get_pointer_field(").concat(at.as_str()).concat(
                ").clear();",
            ),
        ),
        _ => Some(
            String::from_str("self.builder.set_data_field::<").concat(prim_type_str(typ)).concat(
                ">(",
            ).concat(at.as_str()).concat(", 0);"),
        ),
    }
}

#[verifier::loop_isolation(false)]
fn zero_fields_bounded(node_map: &HashMap<u64, Node>, node_id: u64, depth: usize) -> (r: Result<
    FormattedText,
    GenError,
>)
    ensures
        delivers(
            r,
            zeroing_error(node_map@, node_id, depth as nat),
            zeroing(node_map@, node_id, depth as nat),
        ),
    decreases depth,
{
    let node = match node_map.get(&node_id) {
        Some(node) => node,
        None => return Err(GenError::MissingNode),
    };
    let st = match &node.kind {
        NodeKind::Struct(st) => st,
        _ => return Err(GenError::Malformed),
    };
    if depth == 0 {
        return Err(GenError::TooDeep);
    }
    let mut result = no_items();
    if st.discriminant_count != 0 {
        push_item(
            &mut result,
            line_of(
                String::from_str("self.builder.set_data_field::<u16>(").concat(
                    unsigned_to_string(st.discriminant_offset as u64).as_str(),
                ).concat(", 0);"),
            ),
        );
    }
    assert(trees_of(result@) =~= tag_clearing(*st));
    let ghost below = (depth - 1) as nat;
    let mut i: usize = 0;
    assert(st.fields@.take(0) =~= Seq::<Field>::empty());
    while i < st.fields.len()
        invariant
            i <= st.fields.len(),
            depth > 0,
            below == depth - 1,
            fields_zeroing_error(node_map@, st.fields@.take(i as int), below) is None,
            trees_of(result@) == zeroing_items(
                node_map@,
                st.fields@.take(i as int),
                tag_clearing(*st),
                below,
            ),
        decreases st.fields.len() - i,
    {
        let field = &st.fields[i];
        proof {
            assert(st.fields@.take(i + 1).drop_last() =~= st.fields@.take(i as int));
            assert(st.fields@.take(i + 1).last() == *field);
            assert(fields_zeroing_error(node_map@, st.fields@.take(i + 1), below)
                == field_zeroing_error(node_map@, *field, below));
        }
        match &field.kind {
            FieldKind::Unrecognized => {
                proof {
                    lemma_first_error_stays(node_map@, st.fields@, i + 1, below);
                }
                return Err(GenError::Malformed);
            },
            FieldKind::Group { type_id } => {
                match zero_fields_bounded(node_map, *type_id, depth - 1) {
                    Ok(inner) => push_item(&mut result, inner),
                    Err(e) => {
                        proof {
                            lemma_first_error_stays(node_map@, st.fields@, i + 1, below);
                        }
                        return Err(e);
                    },
                }
            },
            FieldKind::Slot { offset, typ, default_value } => {
                if let Type::Unrecognized = typ {
                    proof {
                        lemma_first_error_stays(node_map@, st.fields@, i + 1, below);
                    }
                    return Err(GenError::Malformed);
                }
                match clearing_statement(*offset, typ) {
                    Some(s) => {
                        if !holds_line(&result, &s) {
                            push_item(&mut result, line_of(s));
                        }
                    },
                    None => {},
                }
            },
        }
        i += 1;
    }
    assert(st.fields@.take(st.fields.len() as int) =~= st.fields@);
    Ok(branch(result))
}

/// Once a field has failed, the fields after it do not change the failure.
proof fn lemma_first_error_stays(nodes: Map<u64, Node>, fields: Seq<Field>, n: int, depth: nat)
    requires
        0 <= n <= fields.len(),
        fields_zeroing_error(nodes, fields.take(n), depth) is Some,
    ensures
        fields_zeroing_error(nodes, fields, depth) == fields_zeroing_error(
            nodes,
            fields.take(n),
            depth,
        ),
    decreases fields.len() - n,
{
    if n < fields.len() {
        assert(fields.take(n + 1).drop_last() =~= fields.take(n));
        lemma_first_error_stays(nodes, fields, n + 1, depth);
    } else {
        assert(fields.take(n) =~= fields);
    }
}

/// The statements that clear the storage of the group whose node is
/// `node_id`, the groups nested in it included.
pub fn zero_fields_of_group(node_map: &HashMap<u64, Node>, node_id: u64) -> (r: Result<
    FormattedText,
    GenError,
>)
    ensures
        delivers(
            r,
            zeroing_error(node_map@, node_id, node_map@.len()),
            zeroing(node_map@, node_id, node_map@.len()),
        ),
{
    zero_fields_bounded(node_map, node_id, node_map.len())
}

} // verus!
