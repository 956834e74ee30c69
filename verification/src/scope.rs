//! The scope map: for each node, the qualified path of the module generated for it.
use crate::error::GenError;
use crate::ident::{capitalize_first_letter, capitalized};
use crate::schema::{Field, FieldKind, Node, NodeKind};
use crate::strings::{join, joined, push_string, views};
use std::collections::HashMap;
use vstd::prelude::*;

verus! {

broadcast use vstd::std_specs::hash::group_hash_axioms;

/// A scope map as a map from node id to path segments.
pub open spec fn paths(m: Map<u64, Vec<String>>) -> Map<u64, Seq<Seq<char>>> {
    m.map_values(|v: Vec<String>| views(v@))
}

/// The qualified name of the module of node `id`: its path segments joined by `::`.
pub open spec fn module_of(scope: Map<u64, Seq<Seq<char>>>, id: u64) -> Seq<char> {
    joined(scope[id], "::"@)
}

/// The failure of looking up a node that the scope map does not hold.
pub open spec fn lookup_error(scope: Map<u64, Seq<Seq<char>>>, id: u64) -> Option<GenError> {
    if scope.contains_key(id) {
        None
    } else {
        Some(GenError::MissingNode)
    }
}

/// The failure of asking for the own name of a node: the scope map does not
/// hold the node, or holds an empty path for it.
pub open spec fn name_error(scope: Map<u64, Seq<Seq<char>>>, id: u64) -> Option<GenError> {
    if scope.contains_key(id) && scope[id].len() > 0 {
        None
    } else {
        Some(GenError::MissingNode)
    }
}

/// The qualified name of the module of node `id`.
pub fn qualified_name(scope_map: &HashMap<u64, Vec<String>>, id: u64) -> (r: Result<
    String,
    GenError,
>)
    ensures
        match lookup_error(paths(scope_map@), id) {
            Some(e) => r == Err::<String, GenError>(e),
            None => r is Ok && r->Ok_0@ == module_of(paths(scope_map@), id),
        },
{
    match scope_map.get(&id) {
        Some(path) => Ok(join(path, "::")),
        None => Err(GenError::MissingNode),
    }
}

/// The own name of node `id`: the last segment of its path.
pub fn own_name(scope_map: &HashMap<u64, Vec<String>>, id: u64) -> (r: Result<String, GenError>)
    ensures
        match name_error(paths(scope_map@), id) {
            Some(e) => r == Err::<String, GenError>(e),
            None => r is Ok && r->Ok_0@ == paths(scope_map@)[id].last(),
        },
{
    match scope_map.get(&id) {
        Some(path) => {
            if path.len() == 0 {
                Err(GenError::MissingNode)
            } else {
                Ok(path[path.len() - 1].clone())
            }
        },
        None => Err(GenError::MissingNode),
    }
}

/// What a node declares under a name of its own, as pairs of the name and the
/// id of the declared node: what is nested in it, in order, and then, for a
/// struct, its groups, each under the capitalised name of its field. A group
/// whose field has no name is left out.
pub open spec fn scope_children(node: Node) -> Seq<(Seq<char>, u64)> {
    let nested = Seq::new(
        node.nested_nodes@.len(),
        |i: int| (node.nested_nodes@[i].name@, node.nested_nodes@[i].id),
    );
    match node.kind {
        NodeKind::Struct(st) => nested + named_groups(st.fields@),
        _ => nested,
    }
}

/// For a group whose field has a name, the capitalised name of the field and
/// the id of the group's node.
pub open spec fn named_group(field: Field) -> Option<(Seq<char>, u64)> {
    match field.kind {
        FieldKind::Group { type_id } => if field.name@.len() > 0 {
            Some((capitalized(field.name@), type_id))
        } else {
            None
        },
        _ => None,
    }
}

/// The groups among `fields` whose field has a name, in order.
pub open spec fn named_groups(fields: Seq<Field>) -> Seq<(Seq<char>, u64)> {
    fields.filter_map(|f: Field| named_group(f))
}

/// Whether one of `fields` is a group without a name.
pub open spec fn has_unnamed_group(fields: Seq<Field>) -> bool {
    exists|i: int|
        0 <= i < fields.len() && (#[trigger] fields[i]).kind is Group && fields[i].name@.len() == 0
}

/// Whether `node` is a struct with a group that has no name.
pub open spec fn is_unnamed(node: Node) -> bool {
    node.kind matches NodeKind::Struct(st) && has_unnamed_group(st.fields@)
}

/// `scope` after the node `id` has been recorded under `path` and, where the
/// node is known, everything that it declares under the path extended by its
/// name, down to `depth` levels below the node.
pub open spec fn populated(
    nodes: Map<u64, Node>,
    scope: Map<u64, Seq<Seq<char>>>,
    path: Seq<Seq<char>>,
    id: u64,
    depth: nat,
) -> Map<u64, Seq<Seq<char>>>
    decreases depth, 0nat,
{
    let recorded = scope.insert(id, path);
    if depth == 0 || !nodes.contains_key(id) {
        recorded
    } else {
        populated_children(nodes, recorded, path, scope_children(nodes[id]), (depth - 1) as nat)
    }
}

/// `scope` after each of `children` has been recorded, in order, under `path`
/// extended by its name.
pub open spec fn populated_children(
    nodes: Map<u64, Node>,
    scope: Map<u64, Seq<Seq<char>>>,
    path: Seq<Seq<char>>,
    children: Seq<(Seq<char>, u64)>,
    depth: nat,
) -> Map<u64, Seq<Seq<char>>>
    decreases depth, children.len() + 1,
{
    if children.len() == 0 {
        scope
    } else {
        populated(
            nodes,
            populated_children(nodes, scope, path, children.drop_last(), depth),
            path.push(children.last().0),
            children.last().1,
            depth,
        )
    }
}

/// The first of two failures.
pub open spec fn first_error(a: Option<GenError>, b: Option<GenError>) -> Option<GenError> {
    if a is Some {
        a
    } else {
        b
    }
}

/// Why the scope below the node `id` is not complete: a known node lies more
/// than `depth` levels below it, or a group has no name.
pub open spec fn populate_error(nodes: Map<u64, Node>, id: u64, depth: nat) -> Option<GenError>
    decreases depth, 0nat,
{
    if !nodes.contains_key(id) {
        None
    } else if depth == 0 {
        Some(GenError::TooDeep)
    } else if is_unnamed(nodes[id]) {
        Some(GenError::InvalidIdentifier)
    } else {
        children_populate_error(nodes, scope_children(nodes[id]), (depth - 1) as nat)
    }
}

/// The failure of the first of `children` that has one.
pub open spec fn children_populate_error(
    nodes: Map<u64, Node>,
    children: Seq<(Seq<char>, u64)>,
    depth: nat,
) -> Option<GenError>
    decreases depth, children.len() + 1,
{
    if children.len() == 0 {
        None
    } else {
        first_error(
            children_populate_error(nodes, children.drop_last(), depth),
            populate_error(nodes, children.last().1, depth),
        )
    }
}

/// The names and ids of a vector of children.
pub open spec fn children_of(v: Seq<(String, u64)>) -> Seq<(Seq<char>, u64)> {
    Seq::new(v.len(), |i: int| (v[i].0@, v[i].1))
}

/// `Ok` where there is no failure.
pub open spec fn status_of(error: Option<GenError>) -> Result<(), GenError> {
    match error {
        Some(e) => Err(e),
        None => Ok(()),
    }
}

/// A copy of `path`.
pub fn clone_path(path: &Vec<String>) -> (r: Vec<String>)
    ensures
        views(r@) == views(path@),
{
    let mut out: Vec<String> = Vec::new();
    let mut i: usize = 0;
    assert(views(out@) =~= views(path@).take(0));
    while i < path.len()
        invariant
            i <= path.len(),
            views(out@) == views(path@).take(i as int),
        decreases path.len() - i,
    {
        push_string(&mut out, path[i].clone());
        assert(views(out@) =~= views(path@).take(i + 1));
        i += 1;
    }
    assert(views(path@).take(path.len() as int) =~= views(path@));
    out
}

fn push_child(children: &mut Vec<(String, u64)>, name: String, id: u64)
    ensures
        children_of(final(children)@) == children_of(old(children)@).push((name@, id)),
{
    children.push((name, id));
    assert(children_of(children@) =~= children_of(old(children)@).push((name@, id)));
}

/// What `node` declares under a name of its own, and whether one of its
/// groups has no name.
#[verifier::loop_isolation(false)]
fn collect_children(node: &Node) -> (r: (Vec<(String, u64)>, bool))
    ensures
        children_of(r.0@) == scope_children(*node),
        r.1 == is_unnamed(*node),
{
    let mut children: Vec<(String, u64)> = Vec::new();
    let ghost nested = Seq::new(
        node.nested_nodes@.len(),
        |i: int| (node.nested_nodes@[i].name@, node.nested_nodes@[i].id),
    );
    let mut i: usize = 0;
    assert(children_of(children@) =~= nested.take(0));
    while i < node.nested_nodes.len()
        invariant
            i <= node.nested_nodes.len(),
            children_of(children@) == nested.take(i as int),
        decreases node.nested_nodes.len() - i,
    {
        let child = &node.nested_nodes[i];
        push_child(&mut children, child.name.clone(), child.id);
        assert(children_of(children@) =~= nested.take(i + 1));
        i += 1;
    }
    assert(nested.take(node.nested_nodes.len() as int) =~= nested);
    let mut unnamed = false;
    match &node.kind {
        NodeKind::Struct(st) => {
            let mut j: usize = 0;
            proof {
                assert(st.fields@.take(0) =~= Seq::<Field>::empty());
                assert(children_of(children@) =~= nested + named_groups(st.fields@.take(0)));
            }
            while j < st.fields.len()
                invariant
                    j <= st.fields.len(),
                    children_of(children@) == nested + named_groups(st.fields@.take(j as int)),
                    unnamed == has_unnamed_group(st.fields@.take(j as int)),
                decreases st.fields.len() - j,
            {
                let field = &st.fields[j];
                let ghost before = st.fields@.take(j as int);
                let ghost after = st.fields@.take(j + 1);
                proof {
                    assert(after.drop_last() =~= before);
                    assert(after.last() == *field);
                    assert(has_unnamed_group(after) == (has_unnamed_group(before) || (
                    field.kind is Group && field.name@.len() == 0))) by {
                        if has_unnamed_group(before) {
                            let w = choose|i: int|
                                0 <= i < before.len() && (#[trigger] before[i]).kind is Group
                                    && before[i].name@.len() == 0;
                            assert(after[w] == before[w]);
                        }
                        if field.kind is Group && field.name@.len() == 0 {
                            assert(after[j as int] == *field);
                        }
                        if has_unnamed_group(after) {
                            let w = choose|i: int|
                                0 <= i < after.len() && (#[trigger] after[i]).kind is Group
                                    && after[i].name@.len() == 0;
                            if w < j {
                                assert(before[w] == after[w]);
                            }
                        }
                    }
                }
                if let FieldKind::Group { type_id } = &field.kind {
                    if field.name.as_str().unicode_len() == 0 {
                        unnamed = true;
                    } else {
                        push_child(
                            &mut children,
                            capitalize_first_letter(field.name.as_str()),
                            *type_id,
                        );
                    }
                }
                assert(children_of(children@) =~= nested + named_groups(after));
                j += 1;
            }
            assert(st.fields@.take(st.fields.len() as int) =~= st.fields@);
        },
        _ => {},
    }
    (children, unnamed)
}

#[verifier::loop_isolation(false)]
fn populate_bounded(
    node_map: &HashMap<u64, Node>,
    scope_map: &mut HashMap<u64, Vec<String>>,
    scope_names: Vec<String>,
    node_id: u64,
    depth: usize,
) -> (r: Result<(), GenError>)
    ensures
        paths(final(scope_map)@) == populated(
            node_map@,
            paths(old(scope_map)@),
            views(scope_names@),
            node_id,
            depth as nat,
        ),
        r == status_of(populate_error(node_map@, node_id, depth as nat)),
    decreases depth,
{
    let ghost nodes = node_map@;
    let ghost path = views(scope_names@);
    scope_map.insert(node_id, clone_path(&scope_names));
    assert(paths(scope_map@) =~= paths(old(scope_map)@).insert(node_id, path));
    let node = match node_map.get(&node_id) {
        Some(node) => node,
        None => {
            return Ok(());
        },
    };
    if depth == 0 {
        return Err(GenError::TooDeep);
    }
    let ghost recorded = paths(scope_map@);
    let ghost below = (depth - 1) as nat;
    let (children, unnamed) = collect_children(node);
    let ghost all = children_of(children@);
    let mut status: Result<(), GenError> = Ok(());
    let mut i: usize = 0;
    assert(all.take(0) =~= Seq::<(Seq<char>, u64)>::empty());
    while i < children.len()
        invariant
            i <= children.len(),
            paths(scope_map@) == populated_children(
                nodes,
                recorded,
                path,
                all.take(i as int),
                below,
            ),
            status == status_of(children_populate_error(nodes, all.take(i as int), below)),
        decreases children.len() - i,
    {
        proof {
            assert(all.take(i + 1).drop_last() =~= all.take(i as int));
            assert(all.take(i + 1).last() == all[i as int]);
        }
        let mut names = clone_path(&scope_names);
        push_string(&mut names, children[i].0.clone());
        let outcome = populate_bounded(node_map, scope_map, names, children[i].1, depth - 1);
        if status.is_ok() {
            status = outcome;
        }
        i += 1;
    }
    assert(all.take(children.len() as int) =~= all);
    if unnamed {
        Err(GenError::InvalidIdentifier)
    } else {
        status
    }
}

/// Records the node `node_id` under the path `scope_names` and, where the
/// node is known, everything that it declares under the path extended by its
/// name: nested nodes under their names, groups under the capitalised names
/// of their fields. A path that was recorded before is overwritten. Fails
/// where a group has no name or known nodes are nested more deeply than there
/// are nodes; what can be recorded is recorded all the same.
pub fn populate_scope_map(
    node_map: &HashMap<u64, Node>,
    scope_map: &mut HashMap<u64, Vec<String>>,
    scope_names: Vec<String>,
    node_id: u64,
) -> (r: Result<(), GenError>)
    ensures
        paths(final(scope_map)@) == populated(
            node_map@,
            paths(old(scope_map)@),
            views(scope_names@),
            node_id,
            node_map@.len(),
        ),
        r == status_of(populate_error(node_map@, node_id, node_map@.len())),
{
    populate_bounded(node_map, scope_map, scope_names, node_id, node_map.len())
}

} // verus!
