//! Why the limit on nesting stops only schemas in which a node is declared
//! inside itself.
use crate::accessors::pipeline_getter_error;
use crate::error::GenError;
use crate::getter::{getter_error, list_element_error};
use crate::interfaces::{extends_error, methods_error};
use crate::nesting::{children_cut_short, cut_short};
use crate::node::{
    anonymous_error, anonymous_structs_error, group_error, groups_error, nested_error, node_error,
};
use crate::schema::{Field, FieldKind, Method, NestedNode, Node, NodeKind, Type};
use crate::scope::{children_populate_error, named_groups, populate_error, scope_children};
use crate::structs::{field_error, fields_error, union_members};
use crate::types::list_param_error;
use crate::which::union_error;
use crate::zeroing::{field_zeroing_error, fields_zeroing_error, zeroing_error};
use vstd::prelude::*;

verus! {

/// Whether the known node `a` declares the node `b`: `b` is nested in `a`, is
/// the node of a group of `a`, or is the struct of the parameters or results
/// of a method of `a`.
pub open spec fn declares(nodes: Map<u64, Node>, a: u64, b: u64) -> bool {
    &&& nodes.contains_key(a)
    &&& {
        ||| exists|i: int|
            0 <= i < nodes[a].nested_nodes@.len() && (#[trigger] nodes[a].nested_nodes@[i]).id == b
        ||| nodes[a].kind is Struct && exists|i: int|
            0 <= i < nodes[a].kind->Struct_0.fields@.len() && is_group_of(
                #[trigger] nodes[a].kind->Struct_0.fields@[i],
                b,
            )
        ||| nodes[a].kind is Interface && exists|i: int|
            0 <= i < nodes[a].kind->Interface_0.methods@.len() && is_struct_of(
                #[trigger] nodes[a].kind->Interface_0.methods@[i],
                b,
            )
    }
}

/// Whether `field` is a group whose node is `id`.
pub open spec fn is_group_of(field: Field, id: u64) -> bool {
    field.kind is Group && field.kind->type_id == id
}

/// Whether `id` is the struct of the parameters or results of `method`.
pub open spec fn is_struct_of(method: Method, id: u64) -> bool {
    method.param_struct_type == id || method.result_struct_type == id
}

/// Whether every node of `chain` is known and declares the next.
pub open spec fn is_chain(nodes: Map<u64, Node>, chain: Seq<u64>) -> bool {
    &&& forall|i: int| 0 <= i < chain.len() ==> nodes.contains_key(#[trigger] chain[i])
    &&& forall|i: int|
        0 <= i < chain.len() - 1 ==> declares(nodes, #[trigger] chain[i], chain[i + 1])
}

/// Whether some known node is declared inside itself, directly or through
/// other nodes.
pub open spec fn nests_in_itself(nodes: Map<u64, Node>) -> bool {
    exists|chain: Seq<u64>| is_chain(nodes, chain) && !chain.no_duplicates()
}

/// A chain that is longer than the index is large holds some node twice.
pub proof fn lemma_long_chain_repeats(nodes: Map<u64, Node>, chain: Seq<u64>)
    requires
        nodes.dom().finite(),
        is_chain(nodes, chain),
        chain.len() > nodes.len(),
    ensures
        nests_in_itself(nodes),
{
    if chain.no_duplicates() {
        chain.unique_seq_to_set();
        assert(chain.to_set().subset_of(nodes.dom())) by {
            assert forall|x: u64| chain.to_set().contains(x) implies nodes.dom().contains(x) by {
                let i = choose|i: int| 0 <= i < chain.len() && chain[i] == x;
                assert(nodes.contains_key(chain[i]));
            }
        }
        vstd::set_lib::lemma_len_subset(chain.to_set(), nodes.dom());
    }
}

/// A chain with a known node in front that declares its first node is a chain.
proof fn lemma_extend_chain(nodes: Map<u64, Node>, a: u64, chain: Seq<u64>)
    requires
        is_chain(nodes, chain),
        chain.len() > 0,
        declares(nodes, a, chain[0]),
    ensures
        is_chain(nodes, Seq::empty().push(a) + chain),
        (Seq::empty().push(a) + chain).len() == chain.len() + 1,
        (Seq::empty().push(a) + chain)[0] == a,
{
    let longer = Seq::empty().push(a) + chain;
    assert forall|i: int| 0 <= i < longer.len() implies nodes.contains_key(
        #[trigger] longer[i],
    ) by {
        if i > 0 {
            assert(longer[i] == chain[i - 1]);
        }
    }
    assert forall|i: int| 0 <= i < longer.len() - 1 implies declares(
        nodes,
        #[trigger] longer[i],
        longer[i + 1],
    ) by {
        assert(longer[i + 1] == chain[i]);
        if i > 0 {
            assert(longer[i] == chain[i - 1]);
        }
    }
}

/// A known node alone is a chain.
proof fn lemma_single_chain(nodes: Map<u64, Node>, a: u64)
    requires
        nodes.contains_key(a),
    ensures
        is_chain(nodes, Seq::empty().push(a)),
{
}

/// Each named group is the node of a group among the fields.
proof fn lemma_named_groups_are_groups(fields: Seq<Field>, k: int)
    requires
        0 <= k < named_groups(fields).len(),
    ensures
        exists|i: int|
            0 <= i < fields.len() && is_group_of(#[trigger] fields[i], named_groups(fields)[k].1),
    decreases fields.len(),
{
    let before = named_groups(fields.drop_last());
    if k < before.len() {
        lemma_named_groups_are_groups(fields.drop_last(), k);
        let i = choose|i: int|
            0 <= i < fields.drop_last().len() && is_group_of(
                #[trigger] fields.drop_last()[i],
                before[k].1,
            );
        assert(fields[i] == fields.drop_last()[i]);
        assert(is_group_of(fields[i], named_groups(fields)[k].1));
    } else {
        assert(is_group_of(fields[fields.len() - 1], named_groups(fields)[k].1));
    }
}

/// A known node declares each of the nodes that it gives a name in the scope.
proof fn lemma_scope_children_are_declared(nodes: Map<u64, Node>, a: u64, k: int)
    requires
        nodes.contains_key(a),
        0 <= k < scope_children(nodes[a]).len(),
    ensures
        declares(nodes, a, scope_children(nodes[a])[k].1),
{
    let node = nodes[a];
    if k < node.nested_nodes@.len() {
        assert(node.nested_nodes@[k].id == scope_children(node)[k].1);
    } else {
        let st = node.kind->Struct_0;
        let j = k - node.nested_nodes@.len();
        lemma_named_groups_are_groups(st.fields@, j);
        assert(scope_children(node)[k] == named_groups(st.fields@)[j]);
    }
}

/// Recording that is cut short has followed a chain of as many nodes as the
/// limit allows, and one more.
proof fn lemma_cut_short_chain(nodes: Map<u64, Node>, id: u64, depth: nat) -> (chain: Seq<u64>)
    requires
        cut_short(nodes, id, depth),
    ensures
        is_chain(nodes, chain),
        chain.len() == depth + 1,
        chain[0] == id,
    decreases depth, 0nat,
{
    if depth == 0 {
        lemma_single_chain(nodes, id);
        Seq::empty().push(id)
    } else {
        let children = scope_children(nodes[id]);
        assert(children.take(children.len() as int) =~= children);
        let (k, rest) = lemma_children_cut_short_chain(
            nodes,
            children,
            children.len() as int,
            (depth - 1) as nat,
        );
        lemma_scope_children_are_declared(nodes, id, k);
        lemma_extend_chain(nodes, id, rest);
        Seq::empty().push(id) + rest
    }
}

proof fn lemma_children_cut_short_chain(
    nodes: Map<u64, Node>,
    children: Seq<(Seq<char>, u64)>,
    n: int,
    depth: nat,
) -> (r: (int, Seq<u64>))
    requires
        0 <= n <= children.len(),
        children_cut_short(nodes, children.take(n), depth),
    ensures
        0 <= r.0 < n,
        is_chain(nodes, r.1),
        r.1.len() == depth + 1,
        r.1[0] == children[r.0].1,
    decreases depth, n + 1,
{
    let these = children.take(n);
    assert(these.drop_last() =~= children.take(n - 1));
    assert(these.last() == children[n - 1]);
    if cut_short(nodes, children[n - 1].1, depth) {
        (n - 1, lemma_cut_short_chain(nodes, children[n - 1].1, depth))
    } else {
        lemma_children_cut_short_chain(nodes, children, n - 1, depth)
    }
}

/// Recording from `id` is cut short at the limit of as many levels as there
/// are nodes only where some node is declared inside itself.
pub proof fn lemma_cut_short_means_cycle(nodes: Map<u64, Node>, id: u64)
    requires
        nodes.dom().finite(),
        cut_short(nodes, id, nodes.len()),
    ensures
        nests_in_itself(nodes),
{
    let chain = lemma_cut_short_chain(nodes, id, nodes.len());
    lemma_long_chain_repeats(nodes, chain);
}

/// Recording that fails as too deep was cut short.
proof fn lemma_too_deep_is_cut_short(nodes: Map<u64, Node>, id: u64, depth: nat)
    requires
        populate_error(nodes, id, depth) == Some(GenError::TooDeep),
    ensures
        cut_short(nodes, id, depth),
    decreases depth, 0nat,
{
    if depth > 0 {
        lemma_children_too_deep_is_cut_short(
            nodes,
            scope_children(nodes[id]),
            (depth - 1) as nat,
        );
    }
}

proof fn lemma_children_too_deep_is_cut_short(
    nodes: Map<u64, Node>,
    children: Seq<(Seq<char>, u64)>,
    depth: nat,
)
    requires
        children_populate_error(nodes, children, depth) == Some(GenError::TooDeep),
    ensures
        children_cut_short(nodes, children, depth),
    decreases depth, children.len() + 1,
{
    if children_populate_error(nodes, children.drop_last(), depth) is Some {
        lemma_children_too_deep_is_cut_short(nodes, children.drop_last(), depth);
    } else {
        lemma_too_deep_is_cut_short(nodes, children.last().1, depth);
    }
}

/// Recording the scope from `id` fails as too deep, at the limit of as many
/// levels as there are nodes, only where some node is declared inside itself.
pub proof fn lemma_scope_too_deep_means_cycle(nodes: Map<u64, Node>, id: u64)
    requires
        nodes.dom().finite(),
        populate_error(nodes, id, nodes.len()) == Some(GenError::TooDeep),
    ensures
        nests_in_itself(nodes),
{
    lemma_too_deep_is_cut_short(nodes, id, nodes.len());
    lemma_cut_short_means_cycle(nodes, id);
}

/// Clearing that is too deep has followed a chain of as many groups as the
/// limit allows, and one more.
proof fn lemma_zeroing_chain(nodes: Map<u64, Node>, id: u64, depth: nat) -> (chain: Seq<u64>)
    requires
        zeroing_error(nodes, id, depth) == Some(GenError::TooDeep),
    ensures
        is_chain(nodes, chain),
        chain.len() == depth + 1,
        chain[0] == id,
    decreases depth, 0nat,
{
    if depth == 0 {
        lemma_single_chain(nodes, id);
        Seq::empty().push(id)
    } else {
        let fields = nodes[id].kind->Struct_0.fields@;
        assert(fields.take(fields.len() as int) =~= fields);
        let (k, rest) = lemma_fields_zeroing_chain(
            nodes,
            fields,
            fields.len() as int,
            (depth - 1) as nat,
        );
        assert(is_group_of(fields[k], rest[0]));
        lemma_extend_chain(nodes, id, rest);
        Seq::empty().push(id) + rest
    }
}

proof fn lemma_fields_zeroing_chain(
    nodes: Map<u64, Node>,
    fields: Seq<Field>,
    n: int,
    depth: nat,
) -> (r: (int, Seq<u64>))
    requires
        0 <= n <= fields.len(),
        fields_zeroing_error(nodes, fields.take(n), depth) == Some(GenError::TooDeep),
    ensures
        0 <= r.0 < n,
        is_chain(nodes, r.1),
        r.1.len() == depth + 1,
        is_group_of(fields[r.0], r.1[0]),
    decreases depth, n + 2,
{
    let these = fields.take(n);
    assert(these.drop_last() =~= fields.take(n - 1));
    assert(these.last() == fields[n - 1]);
    if fields_zeroing_error(nodes, fields.take(n - 1), depth) is Some {
        lemma_fields_zeroing_chain(nodes, fields, n - 1, depth)
    } else {
        assert(field_zeroing_error(nodes, fields[n - 1], depth) == Some(GenError::TooDeep));
        let id = fields[n - 1].kind->type_id;
        (n - 1, lemma_zeroing_chain(nodes, id, depth))
    }
}

/// The storage of a group is too deep to be cleared only where some node is
/// declared inside itself.
pub proof fn lemma_zeroing_too_deep_means_cycle(nodes: Map<u64, Node>, id: u64)
    requires
        nodes.dom().finite(),
        zeroing_error(nodes, id, nodes.len()) == Some(GenError::TooDeep),
    ensures
        nests_in_itself(nodes),
{
    let chain = lemma_zeroing_chain(nodes, id, nodes.len());
    lemma_long_chain_repeats(nodes, chain);
}

proof fn lemma_list_param_is_not_too_deep(scope: Map<u64, Seq<Seq<char>>>, typ: Type)
    ensures
        list_param_error(scope, typ) != Some(GenError::TooDeep),
    decreases typ,
{
    match typ {
        Type::List(elem) => lemma_list_param_is_not_too_deep(scope, *elem),
        _ => {},
    }
}

proof fn lemma_list_element_is_not_too_deep(scope: Map<u64, Seq<Seq<char>>>, elem: Type)
    ensures
        list_element_error(scope, elem) != Some(GenError::TooDeep),
{
    match elem {
        Type::List(inner) => lemma_list_param_is_not_too_deep(scope, *inner),
        _ => {},
    }
}

proof fn lemma_getter_is_not_too_deep(scope: Map<u64, Seq<Seq<char>>>, field: Field)
    ensures
        getter_error(scope, field) != Some(GenError::TooDeep),
        pipeline_getter_error(scope, field) != Some(GenError::TooDeep),
{
    match field.kind {
        FieldKind::Slot { offset, typ, default_value } => match typ {
            Type::List(elem) => lemma_list_element_is_not_too_deep(scope, *elem),
            _ => {},
        },
        _ => {},
    }
}

proof fn lemma_union_is_not_too_deep(scope: Map<u64, Seq<Seq<char>>>, fields: Seq<Field>)
    ensures
        union_error(scope, fields) != Some(GenError::TooDeep),
    decreases fields.len(),
{
    if fields.len() > 0 {
        lemma_union_is_not_too_deep(scope, fields.drop_last());
        lemma_getter_is_not_too_deep(scope, fields.last());
    }
}

/// A field is too deep only where it is a group whose storage is too deep to
/// be cleared.
proof fn lemma_field_too_deep(nodes: Map<u64, Node>, scope: Map<u64, Seq<Seq<char>>>, field: Field)
    requires
        field_error(nodes, scope, field) == Some(GenError::TooDeep),
    ensures
        field.kind is Group,
        zeroing_error(nodes, field.kind->type_id, nodes.len()) == Some(GenError::TooDeep),
{
    lemma_getter_is_not_too_deep(scope, field);
    match field.kind {
        FieldKind::Slot { offset, typ, default_value } => match typ {
            Type::List(elem) => lemma_list_element_is_not_too_deep(scope, *elem),
            _ => {},
        },
        _ => {},
    }
}

proof fn lemma_fields_too_deep(
    nodes: Map<u64, Node>,
    scope: Map<u64, Seq<Seq<char>>>,
    fields: Seq<Field>,
) -> (id: u64)
    requires
        fields_error(nodes, scope, fields) == Some(GenError::TooDeep),
    ensures
        zeroing_error(nodes, id, nodes.len()) == Some(GenError::TooDeep),
    decreases fields.len(),
{
    if fields_error(nodes, scope, fields.drop_last()) is Some {
        lemma_fields_too_deep(nodes, scope, fields.drop_last())
    } else {
        lemma_field_too_deep(nodes, scope, fields.last());
        fields.last().kind->type_id
    }
}

proof fn lemma_methods_are_not_too_deep(
    nodes: Map<u64, Node>,
    scope: Map<u64, Seq<Seq<char>>>,
    methods: Seq<Method>,
)
    ensures
        methods_error(nodes, scope, methods) != Some(GenError::TooDeep),
    decreases methods.len(),
{
    if methods.len() > 0 {
        lemma_methods_are_not_too_deep(nodes, scope, methods.drop_last());
    }
}

proof fn lemma_extends_are_not_too_deep(scope: Map<u64, Seq<Seq<char>>>, extends: Seq<u64>)
    ensures
        extends_error(scope, extends) != Some(GenError::TooDeep),
    decreases extends.len(),
{
    if extends.len() > 0 {
        lemma_extends_are_not_too_deep(scope, extends.drop_last());
    }
}

/// Generation that is too deep has followed a chain that is longer than the
/// limit on nesting, or longer than the index is large.
proof fn lemma_node_chain(
    nodes: Map<u64, Node>,
    scope: Map<u64, Seq<Seq<char>>>,
    id: u64,
    depth: nat,
) -> (chain: Seq<u64>)
    requires
        node_error(nodes, scope, id, depth) == Some(GenError::TooDeep),
    ensures
        is_chain(nodes, chain),
        chain.len() == nodes.len() + 1 || (chain.len() == depth + 1 && chain[0] == id),
    decreases depth, 0nat,
{
    if depth == 0 {
        lemma_single_chain(nodes, id);
        Seq::empty().push(id)
    } else {
        let node = nodes[id];
        let below = (depth - 1) as nat;
        assert(node.nested_nodes@.take(node.nested_nodes@.len() as int) =~= node.nested_nodes@);
        if nested_error(nodes, scope, node.nested_nodes@, below) is Some {
            let (k, rest) = lemma_nested_chain(
                nodes,
                scope,
                node.nested_nodes@,
                node.nested_nodes@.len() as int,
                below,
            );
            if rest.len() == nodes.len() + 1 {
                rest
            } else {
                assert(node.nested_nodes@[k].id == rest[0]);
                lemma_extend_chain(nodes, id, rest);
                Seq::empty().push(id) + rest
            }
        } else {
            match node.kind {
                NodeKind::Struct(st) => {
                    assert(st.fields@.take(st.fields@.len() as int) =~= st.fields@);
                    if groups_error(nodes, scope, st.fields@, below) is Some {
                        let (k, rest) = lemma_groups_chain(
                            nodes,
                            scope,
                            st.fields@,
                            st.fields@.len() as int,
                            below,
                        );
                        if rest.len() == nodes.len() + 1 {
                            rest
                        } else {
                            assert(is_group_of(st.fields@[k], rest[0]));
                            lemma_extend_chain(nodes, id, rest);
                            Seq::empty().push(id) + rest
                        }
                    } else {
                        lemma_union_is_not_too_deep(scope, union_members(st.fields@));
                        let group = lemma_fields_too_deep(nodes, scope, st.fields@);
                        lemma_zeroing_chain(nodes, group, nodes.len())
                    }
                },
                NodeKind::Interface(iface) => {
                    lemma_methods_are_not_too_deep(nodes, scope, iface.methods@);
                    lemma_extends_are_not_too_deep(scope, iface.extends@);
                    assert(iface.methods@.take(iface.methods@.len() as int) =~= iface.methods@);
                    let (k, rest) = lemma_anonymous_chain(
                        nodes,
                        scope,
                        iface.methods@,
                        iface.methods@.len() as int,
                        below,
                    );
                    if rest.len() == nodes.len() + 1 {
                        rest
                    } else {
                        assert(is_struct_of(iface.methods@[k], rest[0]));
                        lemma_extend_chain(nodes, id, rest);
                        Seq::empty().push(id) + rest
                    }
                },
                _ => {
                    assert(false);
                    Seq::empty()
                },
            }
        }
    }
}

proof fn lemma_nested_chain(
    nodes: Map<u64, Node>,
    scope: Map<u64, Seq<Seq<char>>>,
    children: Seq<NestedNode>,
    n: int,
    depth: nat,
) -> (r: (int, Seq<u64>))
    requires
        0 <= n <= children.len(),
        nested_error(nodes, scope, children.take(n), depth) == Some(GenError::TooDeep),
    ensures
        0 <= r.0 < n,
        is_chain(nodes, r.1),
        r.1.len() == nodes.len() + 1 || (r.1.len() == depth + 1 && r.1[0] == children[r.0].id),
    decreases depth, n + 1,
{
    let these = children.take(n);
    assert(these.drop_last() =~= children.take(n - 1));
    assert(these.last() == children[n - 1]);
    if nested_error(nodes, scope, children.take(n - 1), depth) is Some {
        lemma_nested_chain(nodes, scope, children, n - 1, depth)
    } else {
        (n - 1, lemma_node_chain(nodes, scope, children[n - 1].id, depth))
    }
}

proof fn lemma_groups_chain(
    nodes: Map<u64, Node>,
    scope: Map<u64, Seq<Seq<char>>>,
    fields: Seq<Field>,
    n: int,
    depth: nat,
) -> (r: (int, Seq<u64>))
    requires
        0 <= n <= fields.len(),
        groups_error(nodes, scope, fields.take(n), depth) == Some(GenError::TooDeep),
    ensures
        0 <= r.0 < n,
        is_chain(nodes, r.1),
        r.1.len() == nodes.len() + 1 || (r.1.len() == depth + 1 && is_group_of(
            fields[r.0],
            r.1[0],
        )),
    decreases depth, n + 2,
{
    let these = fields.take(n);
    assert(these.drop_last() =~= fields.take(n - 1));
    assert(these.last() == fields[n - 1]);
    if groups_error(nodes, scope, fields.take(n - 1), depth) is Some {
        lemma_groups_chain(nodes, scope, fields, n - 1, depth)
    } else {
        assert(group_error(nodes, scope, fields[n - 1], depth) == Some(GenError::TooDeep));
        (n - 1, lemma_node_chain(nodes, scope, fields[n - 1].kind->type_id, depth))
    }
}

proof fn lemma_anonymous_chain(
    nodes: Map<u64, Node>,
    scope: Map<u64, Seq<Seq<char>>>,
    methods: Seq<Method>,
    n: int,
    depth: nat,
) -> (r: (int, Seq<u64>))
    requires
        0 <= n <= methods.len(),
        anonymous_structs_error(nodes, scope, methods.take(n), depth) == Some(GenError::TooDeep),
    ensures
        0 <= r.0 < n,
        is_chain(nodes, r.1),
        r.1.len() == nodes.len() + 1 || (r.1.len() == depth + 1 && is_struct_of(
            methods[r.0],
            r.1[0],
        )),
    decreases depth, n + 2,
{
    let these = methods.take(n);
    assert(these.drop_last() =~= methods.take(n - 1));
    assert(these.last() == methods[n - 1]);
    let method = methods[n - 1];
    if anonymous_structs_error(nodes, scope, methods.take(n - 1), depth) is Some {
        lemma_anonymous_chain(nodes, scope, methods, n - 1, depth)
    } else if anonymous_error(nodes, scope, method, method.param_struct_type, depth) is Some {
        (n - 1, lemma_node_chain(nodes, scope, method.param_struct_type, depth))
    } else {
        assert(anonymous_error(nodes, scope, method, method.result_struct_type, depth) == Some(
            GenError::TooDeep,
        ));
        (n - 1, lemma_node_chain(nodes, scope, method.result_struct_type, depth))
    }
}

/// Code for a node is too deep to be generated, at the limit of as many
/// levels as there are nodes, only where some node is declared inside itself.
pub proof fn lemma_too_deep_means_cycle(
    nodes: Map<u64, Node>,
    scope: Map<u64, Seq<Seq<char>>>,
    id: u64,
)
    requires
        nodes.dom().finite(),
        node_error(nodes, scope, id, nodes.len()) == Some(GenError::TooDeep),
    ensures
        nests_in_itself(nodes),
{
    let chain = lemma_node_chain(nodes, scope, id, nodes.len());
    lemma_long_chain_repeats(nodes, chain);
}

} // verus!
