//! The code generated for a node and for everything declared inside it.
use crate::error::{delivers, GenError};
use crate::getter::{default_matches, value_matches};
use crate::ident::{
    camel_to_upper_case, capitalize_first_letter, capitalized, is_alphanumeric_name, is_identifier,
    upper_snake,
};
use crate::interfaces::{generate_interface, interface_error, interface_text};
use crate::schema::{ConstNode, Field, FieldKind, Method, NestedNode, Node, NodeKind, Type, Value};
use crate::scope::{name_error, own_name, paths};
use crate::strings::{decimal, unsigned_to_string};
use crate::structs::{generate_struct, struct_error, struct_text};
use crate::text::{
    blank, branch, indent, line, line_of, no_items, push_item, push_line, trees_of, FormattedText,
    TextTree,
};
use crate::types::{float_suffix, prim_type_name, prim_type_str, value_text};
use std::collections::HashMap;
use vstd::prelude::*;

verus! {

broadcast use vstd::std_specs::hash::group_hash_axioms;

/// Why the module of the enum `id` cannot be generated: the scope map holds
/// no name for it, or one of its enumerants has an empty name.
pub open spec fn enum_error(
    scope: Map<u64, Seq<Seq<char>>>,
    id: u64,
    enumerants: Seq<String>,
) -> Option<GenError> {
    if name_error(scope, id) is Some {
        name_error(scope, id)
    } else if exists|i: int| 0 <= i < enumerants.len() && (#[trigger] enumerants[i])@.len() == 0 {
        Some(GenError::InvalidIdentifier)
    } else {
        None
    }
}

/// The variants of the enum: the enumerants in declared order, numbered from 0.
pub open spec fn enum_members(enumerants: Seq<String>) -> Seq<TextTree> {
    Seq::new(
        enumerants.len(),
        |i: int| TextTree::Line(capitalized(enumerants[i]@) + " = "@ + decimal(i as nat) + ","@),
    )
}

/// The module of the enum `id`: an enum `Reader` that is held as a `u16`,
/// and its conversion to `u16`.
pub open spec fn enum_text(
    scope: Map<u64, Seq<Seq<char>>>,
    id: u64,
    enumerants: Seq<String>,
) -> TextTree {
    TextTree::Branch(
        Seq::empty().push(TextTree::Blank).push(
            TextTree::Line("pub mod "@ + scope[id].last() + " {"@),
        ).push(TextTree::Indent(Box::new(TextTree::Line("use capnp::list::{ToU16};"@)))).push(
            TextTree::Blank,
        ).push(
            TextTree::Indent(
                Box::new(
                    TextTree::Branch(
                        Seq::empty().push(TextTree::Line("#[repr(u16)]"@)).push(
                            TextTree::Line("#[deriving(FromPrimitive)]"@),
                        ).push(TextTree::Line("#[deriving(PartialEq)]"@)).push(
                            TextTree::Line("pub enum Reader {"@),
                        ).push(
                            TextTree::Indent(
                                Box::new(TextTree::Branch(enum_members(enumerants))),
                            ),
                        ).push(TextTree::Line("}"@)),
                    ),
                ),
            ),
        ).push(
            TextTree::Indent(
                Box::new(
                    TextTree::Branch(
                        Seq::empty().push(TextTree::Line("impl ToU16 for Reader {"@)).push(
                            TextTree::Indent(Box::new(TextTree::Line("#[inline]"@))),
                        ).push(
                            TextTree::Indent(
                                Box::new(
                                    TextTree::Line("fn to_u16(self) -> u16 { self as u16 }"@),
                                ),
                            ),
                        ).push(TextTree::Line("}"@)),
                    ),
                ),
            ),
        ).push(TextTree::Line("}"@)),
    )
}

/// Whether `typ` lies behind a pointer or is an interface, and `value` is of
/// the kind that a value of this type has.
pub open spec fn is_compound(typ: Type, value: Value) -> bool {
    match typ {
        Type::Text => value is Text,
        Type::Data => value is Data,
        Type::List(_) => value is List,
        Type::Struct(_) => value is Struct,
        Type::Interface(_) => value is Interface,
        Type::AnyPointer => value is AnyPointer,
        _ => false,
    }
}

/// Why the constant `id` cannot be generated: the scope map holds no name
/// for it, the name is no identifier, its type or value was not recognised
/// or they do not fit each other, or it is no primitive constant.
pub open spec fn const_error(
    scope: Map<u64, Seq<Seq<char>>>,
    id: u64,
    c: ConstNode,
) -> Option<GenError> {
    if name_error(scope, id) is Some {
        name_error(scope, id)
    } else if !is_identifier(scope[id].last()) {
        Some(GenError::InvalidIdentifier)
    } else if c.typ is Unrecognized || c.value is Unrecognized {
        Some(GenError::Malformed)
    } else if c.typ.is_primitive() && value_matches(c.typ, c.value) {
        None
    } else if is_compound(c.typ, c.value) {
        Some(GenError::Unsupported)
    } else {
        Some(GenError::Malformed)
    }
}

/// The value of a constant as it is written in Rust.
pub open spec fn const_literal(value: Value) -> Seq<char> {
    if value is Void {
        "()"@
    } else {
        value_text(value) + float_suffix(value)
    }
}

/// The constant `id`: a static named after the node in upper snake case.
pub open spec fn const_text(scope: Map<u64, Seq<Seq<char>>>, id: u64, c: ConstNode) -> TextTree {
    TextTree::Branch(
        Seq::empty().push(
            TextTree::Line(
                "pub static "@ + upper_snake(scope[id].last()) + " : "@ + prim_type_name(c.typ)
                    + " = "@ + const_literal(c.value) + ";"@,
            ),
        ),
    )
}

/// Why the nodes nested in a node cannot be generated: the failure of the
/// first that has one.
pub open spec fn nested_error(
    nodes: Map<u64, Node>,
    scope: Map<u64, Seq<Seq<char>>>,
    children: Seq<NestedNode>,
    depth: nat,
) -> Option<GenError>
    decreases depth, children.len() + 1,
{
    if children.len() == 0 {
        None
    } else if nested_error(nodes, scope, children.drop_last(), depth) is Some {
        nested_error(nodes, scope, children.drop_last(), depth)
    } else if name_error(scope, children.last().id) is Some {
        name_error(scope, children.last().id)
    } else {
        node_error(nodes, scope, children.last().id, depth)
    }
}

/// Why the node of `field` cannot be generated; `None` for a slot.
pub open spec fn group_error(
    nodes: Map<u64, Node>,
    scope: Map<u64, Seq<Seq<char>>>,
    field: Field,
    depth: nat,
) -> Option<GenError>
    decreases depth, 1nat,
{
    match field.kind {
        FieldKind::Group { type_id } => if name_error(scope, type_id) is Some {
            name_error(scope, type_id)
        } else {
            node_error(nodes, scope, type_id, depth)
        },
        _ => None,
    }
}

/// Why the nodes of the groups among `fields` cannot be generated: the
/// failure of the first that has one.
pub open spec fn groups_error(
    nodes: Map<u64, Node>,
    scope: Map<u64, Seq<Seq<char>>>,
    fields: Seq<Field>,
    depth: nat,
) -> Option<GenError>
    decreases depth, fields.len() + 2,
{
    if fields.len() == 0 {
        None
    } else if groups_error(nodes, scope, fields.drop_last(), depth) is Some {
        groups_error(nodes, scope, fields.drop_last(), depth)
    } else {
        group_error(nodes, scope, fields.last(), depth)
    }
}

/// Whether the struct `id` was declared for a method alone: it is known and
/// has no scope.
pub open spec fn is_anonymous(nodes: Map<u64, Node>, id: u64) -> bool {
    nodes.contains_key(id) && nodes[id].scope_id == 0
}

/// Why the struct `id` of the parameters or results of `method` cannot be
/// generated; `None` for a struct that has a scope of its own.
pub open spec fn anonymous_error(
    nodes: Map<u64, Node>,
    scope: Map<u64, Seq<Seq<char>>>,
    method: Method,
    id: u64,
    depth: nat,
) -> Option<GenError>
    decreases depth, 1nat,
{
    if !is_anonymous(nodes, id) {
        None
    } else if method.name@.len() == 0 {
        Some(GenError::InvalidIdentifier)
    } else {
        node_error(nodes, scope, id, depth)
    }
}

/// Why the structs of the parameters and results of `methods` cannot be
/// generated: the failure of the first that has one.
pub open spec fn anonymous_structs_error(
    nodes: Map<u64, Node>,
    scope: Map<u64, Seq<Seq<char>>>,
    methods: Seq<Method>,
    depth: nat,
) -> Option<GenError>
    decreases depth, methods.len() + 2,
{
    if methods.len() == 0 {
        None
    } else if anonymous_structs_error(nodes, scope, methods.drop_last(), depth) is Some {
        anonymous_structs_error(nodes, scope, methods.drop_last(), depth)
    } else if anonymous_error(nodes, scope, methods.last(), methods.last().param_struct_type, depth)
        is Some {
        anonymous_error(nodes, scope, methods.last(), methods.last().param_struct_type, depth)
    } else {
        anonymous_error(nodes, scope, methods.last(), methods.last().result_struct_type, depth)
    }
}

/// Why no code can be generated for the node `id`: it is unknown, nodes are
/// nested more than `depth` deep, or something declared in it or the node
/// itself cannot be generated.
pub open spec fn node_error(
    nodes: Map<u64, Node>,
    scope: Map<u64, Seq<Seq<char>>>,
    id: u64,
    depth: nat,
) -> Option<GenError>
    decreases depth, 0nat,
{
    if !nodes.contains_key(id) {
        Some(GenError::MissingNode)
    } else if depth == 0 {
        Some(GenError::TooDeep)
    } else {
        let node = nodes[id];
        let below = (depth - 1) as nat;
        if nested_error(nodes, scope, node.nested_nodes@, below) is Some {
            nested_error(nodes, scope, node.nested_nodes@, below)
        } else {
            match node.kind {
                NodeKind::Struct(st) => if groups_error(nodes, scope, st.fields@, below)
                    is Some {
                    groups_error(nodes, scope, st.fields@, below)
                } else {
                    struct_error(nodes, scope, st)
                },
                NodeKind::Enum(enumerants) => enum_error(scope, id, enumerants@),
                NodeKind::Interface(iface) => if anonymous_structs_error(
                    nodes,
                    scope,
                    iface.methods@,
                    below,
                ) is Some {
                    anonymous_structs_error(nodes, scope, iface.methods@, below)
                } else {
                    interface_error(nodes, scope, id, iface)
                },
                NodeKind::Const(c) => const_error(scope, id, c),
                _ => None,
            }
        }
    }
}

/// The code of the nodes nested in a node, each under the last segment of its
/// path, in order.
pub open spec fn nested_texts(
    nodes: Map<u64, Node>,
    scope: Map<u64, Seq<Seq<char>>>,
    children: Seq<NestedNode>,
    depth: nat,
) -> Seq<TextTree>
    decreases depth, children.len() + 1,
{
    if children.len() == 0 {
        Seq::empty()
    } else {
        nested_texts(nodes, scope, children.drop_last(), depth).push(
            node_text(
                nodes,
                scope,
                children.last().id,
                scope[children.last().id].last(),
                depth,
            ),
        )
    }
}

/// `start` followed by the code of the node of each group among `fields`, each
/// under the last segment of its path, in order.
pub open spec fn group_texts(
    nodes: Map<u64, Node>,
    scope: Map<u64, Seq<Seq<char>>>,
    fields: Seq<Field>,
    start: Seq<TextTree>,
    depth: nat,
) -> Seq<TextTree>
    decreases depth, fields.len() + 1,
{
    if fields.len() == 0 {
        start
    } else {
        let before = group_texts(nodes, scope, fields.drop_last(), start, depth);
        match fields.last().kind {
            FieldKind::Group { type_id } => before.push(
                node_text(nodes, scope, type_id, scope[type_id].last(), depth),
            ),
            _ => before,
        }
    }
}

/// `start` followed by the code of the structs that were declared for
/// `methods` alone: for each method the struct of its parameters under the
/// method's capitalised name followed by `Params`, then the struct of its
/// results under that name followed by `Results`.
pub open spec fn anonymous_struct_texts(
    nodes: Map<u64, Node>,
    scope: Map<u64, Seq<Seq<char>>>,
    methods: Seq<Method>,
    start: Seq<TextTree>,
    depth: nat,
) -> Seq<TextTree>
    decreases depth, methods.len() + 1,
{
    if methods.len() == 0 {
        start
    } else {
        let method = methods.last();
        let before = anonymous_struct_texts(nodes, scope, methods.drop_last(), start, depth);
        let with_params = if is_anonymous(nodes, method.param_struct_type) {
            before.push(
                node_text(
                    nodes,
                    scope,
                    method.param_struct_type,
                    capitalized(method.name@) + "Params"@,
                    depth,
                ),
            )
        } else {
            before
        };
        if is_anonymous(nodes, method.result_struct_type) {
            with_params.push(
                node_text(
                    nodes,
                    scope,
                    method.result_struct_type,
                    capitalized(method.name@) + "Results"@,
                    depth,
                ),
            )
        } else {
            with_params
        }
    }
}

/// The code of the node `id` under the name `name`, with everything that is
/// declared inside it: for a file the code of the nested nodes, for a struct,
/// an enum or an interface a module, for a constant a static, and for an
/// annotation nothing.
pub open spec fn node_text(
    nodes: Map<u64, Node>,
    scope: Map<u64, Seq<Seq<char>>>,
    id: u64,
    name: Seq<char>,
    depth: nat,
) -> TextTree
    decreases depth, 0nat,
{
    if depth == 0 || !nodes.contains_key(id) {
        TextTree::Branch(Seq::empty())
    } else {
        let node = nodes[id];
        let below = (depth - 1) as nat;
        let nested = nested_texts(nodes, scope, node.nested_nodes@, below);
        match node.kind {
            NodeKind::File => TextTree::Branch(Seq::empty().push(TextTree::Branch(nested))),
            NodeKind::Struct(st) => struct_text(
                nodes,
                scope,
                st,
                name,
                group_texts(nodes, scope, st.fields@, nested, below),
            ),
            NodeKind::Enum(enumerants) => enum_text(scope, id, enumerants@),
            NodeKind::Interface(iface) => interface_text(
                nodes,
                scope,
                id,
                iface,
                anonymous_struct_texts(nodes, scope, iface.methods@, nested, below),
            ),
            NodeKind::Const(c) => const_text(scope, id, c),
            _ => TextTree::Branch(Seq::empty()),
        }
    }
}

/// The module of the enum `node_id` with the given enumerants.
#[verifier::loop_isolation(false)]
pub fn generate_enum(
    scope_map: &HashMap<u64, Vec<String>>,
    node_id: u64,
    enumerants: &Vec<String>,
) -> (r: Result<FormattedText, GenError>)
    ensures
        delivers(
            r,
            enum_error(paths(scope_map@), node_id, enumerants@),
            enum_text(paths(scope_map@), node_id, enumerants@),
        ),
{
    let name = own_name(scope_map, node_id)?;
    let mut members = no_items();
    let mut i: usize = 0;
    assert(trees_of(members@) =~= enum_members(enumerants@).take(0));
    while i < enumerants.len()
        invariant
            i <= enumerants.len(),
            forall|j: int| 0 <= j < i ==> (#[trigger] enumerants@[j])@.len() > 0,
            trees_of(members@) == enum_members(enumerants@).take(i as int),
        decreases enumerants.len() - i,
    {
        let enumerant = enumerants[i].as_str();
        if enumerant.unicode_len() == 0 {
            return Err(GenError::InvalidIdentifier);
        }
        push_item(
            &mut members,
            line_of(
                capitalize_first_letter(enumerant).concat(" = ").concat(
                    unsigned_to_string(i as u64).as_str(),
                ).concat(","),
            ),
        );
        assert(trees_of(members@) =~= enum_members(enumerants@).take(i + 1));
        i += 1;
    }
    assert(enum_members(enumerants@).take(enumerants.len() as int) =~= enum_members(enumerants@));

    let mut declaration = no_items();
    push_line(&mut declaration, "#[repr(u16)]");
    push_line(&mut declaration, "#[deriving(FromPrimitive)]");
    push_line(&mut declaration, "#[deriving(PartialEq)]");
    push_line(&mut declaration, "pub enum Reader {");
    push_item(&mut declaration, indent(branch(members)));
    push_line(&mut declaration, "}");

    let mut conversion = no_items();
    push_line(&mut conversion, "impl ToU16 for Reader {");
    push_item(&mut conversion, indent(line("#[inline]")));
    push_item(&mut conversion, indent(line("fn to_u16(self) -> u16 { self as u16 }")));
    push_line(&mut conversion, "}");

    let mut output = no_items();
    push_item(&mut output, blank());
    push_item(
        &mut output,
        line_of(String::from_str("pub mod ").concat(name.as_str()).concat(" {")),
    );
    push_item(&mut output, indent(line("use capnp::list::{ToU16};")));
    push_item(&mut output, blank());
    push_item(&mut output, indent(branch(declaration)));
    push_item(&mut output, indent(branch(conversion)));
    push_line(&mut output, "}");
    Ok(branch(output))
}

fn compound(typ: &Type, value: &Value) -> (r: bool)
    ensures
        r == is_compound(*typ, *value),
{
    match (typ, value) {
        (Type::Text, Value::Text) => true,
        (Type::Data, Value::Data) => true,
        (Type::List(_), Value::List) => true,
        (Type::Struct(_), Value::Struct) => true,
        (Type::Interface(_), Value::Interface) => true,
        (Type::AnyPointer, Value::AnyPointer) => true,
        _ => false,
    }
}

/// The static of the constant `node_id`.
pub fn generate_const(scope_map: &HashMap<u64, Vec<String>>, node_id: u64, c: &ConstNode) -> (r:
    Result<FormattedText, GenError>)
    ensures
        delivers(
            r,
            const_error(paths(scope_map@), node_id, *c),
            const_text(paths(scope_map@), node_id, *c),
        ),
{
    let name = own_name(scope_map, node_id)?;
    if !is_alphanumeric_name(name.as_str()) {
        return Err(GenError::InvalidIdentifier);
    }
    let styled_name = camel_to_upper_case(name.as_str());
    if let Type::Unrecognized = &c.typ {
        return Err(GenError::Malformed);
    }
    if let Value::Unrecognized = &c.value {
        return Err(GenError::Malformed);
    }
    if !(c.typ.primitive() && default_matches(&c.typ, &c.value)) {
        if compound(&c.typ, &c.value) {
            return Err(GenError::Unsupported);
        }
        return Err(GenError::Malformed);
    }
    let txt = match &c.value {
        Value::Void => String::from_str("()"),
        Value::Float32 { .. } => c.value.literal().concat("f32"),
        Value::Float64 { .. } => c.value.literal().concat("f64"),
        _ => {
            let text = c.value.literal();
            assert(text@ + Seq::<char>::empty() =~= text@);
            text
        },
    };
    let mut output = no_items();
    push_item(
        &mut output,
        line_of(
            String::from_str("pub static ").concat(styled_name.as_str()).concat(" : ").concat(
                prim_type_str(&c.typ),
            ).concat(" = ").concat(txt.as_str()).concat(";"),
        ),
    );
    Ok(branch(output))
}

/// Once a nested node has failed, those after it do not change the failure.
proof fn lemma_nested_error_stays(
    nodes: Map<u64, Node>,
    scope: Map<u64, Seq<Seq<char>>>,
    children: Seq<NestedNode>,
    n: int,
    depth: nat,
)
    requires
        0 <= n <= children.len(),
        nested_error(nodes, scope, children.take(n), depth) is Some,
    ensures
        nested_error(nodes, scope, children, depth) == nested_error(
            nodes,
            scope,
            children.take(n),
            depth,
        ),
    decreases children.len() - n,
{
    if n < children.len() {
        assert(children.take(n + 1).drop_last() =~= children.take(n));
        lemma_nested_error_stays(nodes, scope, children, n + 1, depth);
    } else {
        assert(children.take(n) =~= children);
    }
}

/// Once a group has failed, those after it do not change the failure.
proof fn lemma_groups_error_stays(
    nodes: Map<u64, Node>,
    scope: Map<u64, Seq<Seq<char>>>,
    fields: Seq<Field>,
    n: int,
    depth: nat,
)
    requires
        0 <= n <= fields.len(),
        groups_error(nodes, scope, fields.take(n), depth) is Some,
    ensures
        groups_error(nodes, scope, fields, depth) == groups_error(
            nodes,
            scope,
            fields.take(n),
            depth,
        ),
    decreases fields.len() - n,
{
    if n < fields.len() {
        assert(fields.take(n + 1).drop_last() =~= fields.take(n));
        lemma_groups_error_stays(nodes, scope, fields, n + 1, depth);
    } else {
        assert(fields.take(n) =~= fields);
    }
}

/// Once a method's struct has failed, those after it do not change the failure.
proof fn lemma_anonymous_error_stays(
    nodes: Map<u64, Node>,
    scope: Map<u64, Seq<Seq<char>>>,
    methods: Seq<Method>,
    n: int,
    depth: nat,
)
    requires
        0 <= n <= methods.len(),
        anonymous_structs_error(nodes, scope, methods.take(n), depth) is Some,
    ensures
        anonymous_structs_error(nodes, scope, methods, depth) == anonymous_structs_error(
            nodes,
            scope,
            methods.take(n),
            depth,
        ),
    decreases methods.len() - n,
{
    if n < methods.len() {
        assert(methods.take(n + 1).drop_last() =~= methods.take(n));
        lemma_anonymous_error_stays(nodes, scope, methods, n + 1, depth);
    } else {
        assert(methods.take(n) =~= methods);
    }
}

#[verifier::loop_isolation(false)]
fn generate_nested(
    node_map: &HashMap<u64, Node>,
    scope_map: &HashMap<u64, Vec<String>>,
    children: &Vec<NestedNode>,
    depth: usize,
) -> (r: Result<Vec<FormattedText>, GenError>)
    ensures
        match nested_error(node_map@, paths(scope_map@), children@, depth as nat) {
            Some(e) => r == Err::<Vec<FormattedText>, GenError>(e),
            None => r is Ok && trees_of(r->Ok_0@) == nested_texts(
                node_map@,
                paths(scope_map@),
                children@,
                depth as nat,
            ),
        },
    decreases depth, 1nat,
{
    let ghost nodes = node_map@;
    let ghost scope = paths(scope_map@);
    let mut output = no_items();
    let mut i: usize = 0;
    assert(children@.take(0) =~= Seq::<NestedNode>::empty());
    while i < children.len()
        invariant
            i <= children.len(),
            nested_error(nodes, scope, children@.take(i as int), depth as nat) is None,
            trees_of(output@) == nested_texts(nodes, scope, children@.take(i as int), depth as nat),
        decreases children.len() - i,
    {
        let id = children[i].id;
        proof {
            assert(children@.take(i + 1).drop_last() =~= children@.take(i as int));
            assert(children@.take(i + 1).last() == children@[i as int]);
        }
        let name = match own_name(scope_map, id) {
            Ok(name) => name,
            Err(e) => {
                proof {
                    lemma_nested_error_stays(nodes, scope, children@, i + 1, depth as nat);
                }
                return Err(e);
            },
        };
        match generate_node_bounded(node_map, scope_map, id, name.as_str(), depth) {
            Ok(text) => push_item(&mut output, text),
            Err(e) => {
                proof {
                    lemma_nested_error_stays(nodes, scope, children@, i + 1, depth as nat);
                }
                return Err(e);
            },
        }
        i += 1;
    }
    assert(children@.take(children.len() as int) =~= children@);
    Ok(output)
}

#[verifier::loop_isolation(false)]
fn generate_groups(
    node_map: &HashMap<u64, Node>,
    scope_map: &HashMap<u64, Vec<String>>,
    fields: &Vec<Field>,
    nested: Vec<FormattedText>,
    depth: usize,
) -> (r: Result<Vec<FormattedText>, GenError>)
    ensures
        match groups_error(node_map@, paths(scope_map@), fields@, depth as nat) {
            Some(e) => r == Err::<Vec<FormattedText>, GenError>(e),
            None => r is Ok && trees_of(r->Ok_0@) == group_texts(
                node_map@,
                paths(scope_map@),
                fields@,
                trees_of(nested@),
                depth as nat,
            ),
        },
    decreases depth, 1nat,
{
    let ghost nodes = node_map@;
    let ghost scope = paths(scope_map@);
    let ghost start = trees_of(nested@);
    let mut output = nested;
    let mut i: usize = 0;
    assert(fields@.take(0) =~= Seq::<Field>::empty());
    while i < fields.len()
        invariant
            i <= fields.len(),
            groups_error(nodes, scope, fields@.take(i as int), depth as nat) is None,
            trees_of(output@) == group_texts(
                nodes,
                scope,
                fields@.take(i as int),
                start,
                depth as nat,
            ),
        decreases fields.len() - i,
    {
        proof {
            assert(fields@.take(i + 1).drop_last() =~= fields@.take(i as int));
            assert(fields@.take(i + 1).last() == fields@[i as int]);
            assert(groups_error(nodes, scope, fields@.take(i + 1), depth as nat) == group_error(
                nodes,
                scope,
                fields@[i as int],
                depth as nat,
            ));
        }
        if let FieldKind::Group { type_id } = &fields[i].kind {
            let name = match own_name(scope_map, *type_id) {
                Ok(name) => name,
                Err(e) => {
                    proof {
                        lemma_groups_error_stays(nodes, scope, fields@, i + 1, depth as nat);
                    }
                    return Err(e);
                },
            };
            match generate_node_bounded(node_map, scope_map, *type_id, name.as_str(), depth) {
                Ok(text) => push_item(&mut output, text),
                Err(e) => {
                    proof {
                        lemma_groups_error_stays(nodes, scope, fields@, i + 1, depth as nat);
                    }
                    return Err(e);
                },
            }
        }
        i += 1;
    }
    assert(fields@.take(fields.len() as int) =~= fields@);
    Ok(output)
}

/// Appends the code of the struct `id` of a method's parameters or results
/// where the struct was declared for the method alone.
fn generate_anonymous(
    node_map: &HashMap<u64, Node>,
    scope_map: &HashMap<u64, Vec<String>>,
    method: &Method,
    id: u64,
    suffix: &str,
    output: &mut Vec<FormattedText>,
    depth: usize,
) -> (r: Result<(), GenError>)
    ensures
        match anonymous_error(node_map@, paths(scope_map@), *method, id, depth as nat) {
            Some(e) => r == Err::<(), GenError>(e),
            None => r is Ok && trees_of(final(output)@) == if is_anonymous(node_map@, id) {
                trees_of(old(output)@).push(
                    node_text(
                        node_map@,
                        paths(scope_map@),
                        id,
                        capitalized(method.name@) + suffix@,
                        depth as nat,
                    ),
                )
            } else {
                trees_of(old(output)@)
            },
        },
    decreases depth, 1nat,
{
    let anonymous = match node_map.get(&id) {
        Some(node) => node.scope_id == 0,
        None => false,
    };
    if anonymous {
        if method.name.as_str().unicode_len() == 0 {
            return Err(GenError::InvalidIdentifier);
        }
        let name = capitalize_first_letter(method.name.as_str()).concat(suffix);
        let text = generate_node_bounded(node_map, scope_map, id, name.as_str(), depth)?;
        push_item(output, text);
    }
    Ok(())
}

#[verifier::loop_isolation(false)]
fn generate_anonymous_structs(
    node_map: &HashMap<u64, Node>,
    scope_map: &HashMap<u64, Vec<String>>,
    methods: &Vec<Method>,
    nested: Vec<FormattedText>,
    depth: usize,
) -> (r: Result<Vec<FormattedText>, GenError>)
    ensures
        match anonymous_structs_error(node_map@, paths(scope_map@), methods@, depth as nat) {
            Some(e) => r == Err::<Vec<FormattedText>, GenError>(e),
            None => r is Ok && trees_of(r->Ok_0@) == anonymous_struct_texts(
                node_map@,
                paths(scope_map@),
                methods@,
                trees_of(nested@),
                depth as nat,
            ),
        },
    decreases depth, 2nat,
{
    let ghost nodes = node_map@;
    let ghost scope = paths(scope_map@);
    let ghost start = trees_of(nested@);
    let mut output = nested;
    let mut i: usize = 0;
    assert(methods@.take(0) =~= Seq::<Method>::empty());
    while i < methods.len()
        invariant
            i <= methods.len(),
            anonymous_structs_error(nodes, scope, methods@.take(i as int), depth as nat) is None,
            trees_of(output@) == anonymous_struct_texts(
                nodes,
                scope,
                methods@.take(i as int),
                start,
                depth as nat,
            ),
        decreases methods.len() - i,
    {
        let method = &methods[i];
        proof {
            assert(methods@.take(i + 1).drop_last() =~= methods@.take(i as int));
            assert(methods@.take(i + 1).last() == *method);
        }
        match generate_anonymous(
            node_map,
            scope_map,
            method,
            method.param_struct_type,
            "Params",
            &mut output,
            depth,
        ) {
            Ok(()) => {},
            Err(e) => {
                proof {
                    lemma_anonymous_error_stays(nodes, scope, methods@, i + 1, depth as nat);
                }
                return Err(e);
            },
        }
        match generate_anonymous(
            node_map,
            scope_map,
            method,
            method.result_struct_type,
            "Results",
            &mut output,
            depth,
        ) {
            Ok(()) => {},
            Err(e) => {
                proof {
                    lemma_anonymous_error_stays(nodes, scope, methods@, i + 1, depth as nat);
                }
                return Err(e);
            },
        }
        i += 1;
    }
    assert(methods@.take(methods.len() as int) =~= methods@);
    Ok(output)
}

fn generate_node_bounded(
    node_map: &HashMap<u64, Node>,
    scope_map: &HashMap<u64, Vec<String>>,
    node_id: u64,
    node_name: &str,
    depth: usize,
) -> (r: Result<FormattedText, GenError>)
    ensures
        delivers(
            r,
            node_error(node_map@, paths(scope_map@), node_id, depth as nat),
            node_text(node_map@, paths(scope_map@), node_id, node_name@, depth as nat),
        ),
    decreases depth, 0nat,
{
    let node = match node_map.get(&node_id) {
        Some(node) => node,
        None => return Err(GenError::MissingNode),
    };
    if depth == 0 {
        return Err(GenError::TooDeep);
    }
    let nested = generate_nested(node_map, scope_map, &node.nested_nodes, depth - 1)?;
    match &node.kind {
        NodeKind::File => {
            let mut output = no_items();
            push_item(&mut output, branch(nested));
            Ok(branch(output))
        },
        NodeKind::Struct(st) => {
            let all = generate_groups(node_map, scope_map, &st.fields, nested, depth - 1)?;
            generate_struct(node_map, scope_map, st, node_name, all)
        },
        NodeKind::Enum(enumerants) => generate_enum(scope_map, node_id, enumerants),
        NodeKind::Interface(iface) => {
            let all = generate_anonymous_structs(
                node_map,
                scope_map,
                &iface.methods,
                nested,
                depth - 1,
            )?;
            generate_interface(node_map, scope_map, node_id, iface, all)
        },
        NodeKind::Const(c) => generate_const(scope_map, node_id, c),
        NodeKind::Annotation => Ok(branch(no_items())),
        NodeKind::Unrecognized => Ok(branch(no_items())),
    }
}

/// The code of the node `node_id` under the name `node_name`, with
/// everything that is declared inside it. Nodes may be nested as deeply as
/// there are nodes.
pub fn generate_node(
    node_map: &HashMap<u64, Node>,
    scope_map: &HashMap<u64, Vec<String>>,
    node_id: u64,
    node_name: &str,
) -> (r: Result<FormattedText, GenError>)
    ensures
        delivers(
            r,
            node_error(node_map@, paths(scope_map@), node_id, node_map@.len()),
            node_text(node_map@, paths(scope_map@), node_id, node_name@, node_map@.len()),
        ),
{
    generate_node_bounded(node_map, scope_map, node_id, node_name, node_map.len())
}

} // verus!
