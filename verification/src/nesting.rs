//! What the scope map holds once a tree of nodes has been recorded in it.
use crate::schema::Node;
use crate::scope::{
    children_populate_error, populate_error, populated, populated_children, scope_children,
};
use vstd::prelude::*;

verus! {

/// The ids that are recorded from the node `id` down, in the order in which
/// they are recorded.
pub open spec fn recorded_ids(nodes: Map<u64, Node>, id: u64, depth: nat) -> Seq<u64>
    decreases depth, 0nat,
{
    if depth == 0 || !nodes.contains_key(id) {
        Seq::empty().push(id)
    } else {
        Seq::empty().push(id) + children_recorded_ids(
            nodes,
            scope_children(nodes[id]),
            (depth - 1) as nat,
        )
    }
}

/// The ids that are recorded from each of `children` down, in order.
pub open spec fn children_recorded_ids(
    nodes: Map<u64, Node>,
    children: Seq<(Seq<char>, u64)>,
    depth: nat,
) -> Seq<u64>
    decreases depth, children.len() + 1,
{
    if children.len() == 0 {
        Seq::empty()
    } else {
        children_recorded_ids(nodes, children.drop_last(), depth) + recorded_ids(
            nodes,
            children.last().1,
            depth,
        )
    }
}

/// Whether recording from the node `id` down stops at a known node because
/// `depth` levels are used up.
pub open spec fn cut_short(nodes: Map<u64, Node>, id: u64, depth: nat) -> bool
    decreases depth, 0nat,
{
    nodes.contains_key(id) && (depth == 0 || children_cut_short(
        nodes,
        scope_children(nodes[id]),
        (depth - 1) as nat,
    ))
}

/// Whether recording from one of `children` down stops at a known node.
pub open spec fn children_cut_short(
    nodes: Map<u64, Node>,
    children: Seq<(Seq<char>, u64)>,
    depth: nat,
) -> bool
    decreases depth, children.len() + 1,
{
    children.len() > 0 && (children_cut_short(nodes, children.drop_last(), depth) || cut_short(
        nodes,
        children.last().1,
        depth,
    ))
}

proof fn lemma_contains_concat(a: Seq<u64>, b: Seq<u64>, x: u64)
    ensures
        (a + b).contains(x) <==> a.contains(x) || b.contains(x),
{
    if a.contains(x) {
        let i = choose|i: int| 0 <= i < a.len() && a[i] == x;
        assert((a + b)[i] == x);
    }
    if b.contains(x) {
        let j = choose|j: int| 0 <= j < b.len() && b[j] == x;
        assert((a + b)[a.len() + j] == x);
    }
    if (a + b).contains(x) {
        let k = choose|k: int| 0 <= k < (a + b).len() && (a + b)[k] == x;
        if k < a.len() {
            assert(a[k] == x);
        } else {
            assert(b[k - a.len()] == x);
        }
    }
}

proof fn lemma_no_duplicates_split(a: Seq<u64>, b: Seq<u64>)
    requires
        (a + b).no_duplicates(),
    ensures
        a.no_duplicates(),
        b.no_duplicates(),
        forall|x: u64| a.contains(x) ==> !b.contains(x),
{
    assert forall|i: int, j: int| 0 <= i < a.len() && 0 <= j < a.len() && i != j implies a[i]
        != a[j] by {
        assert((a + b)[i] == a[i]);
        assert((a + b)[j] == a[j]);
    }
    assert forall|i: int, j: int| 0 <= i < b.len() && 0 <= j < b.len() && i != j implies b[i]
        != b[j] by {
        assert((a + b)[a.len() + i] == b[i]);
        assert((a + b)[a.len() + j] == b[j]);
    }
    assert forall|x: u64| a.contains(x) implies !b.contains(x) by {
        if b.contains(x) {
            let i = choose|i: int| 0 <= i < a.len() && a[i] == x;
            let j = choose|j: int| 0 <= j < b.len() && b[j] == x;
            assert((a + b)[i] == x);
            assert((a + b)[a.len() + j] == x);
        }
    }
}

/// The node from which recording starts is the first that is recorded.
proof fn lemma_seed_is_recorded(nodes: Map<u64, Node>, id: u64, depth: nat)
    ensures
        recorded_ids(nodes, id, depth).len() > 0,
        recorded_ids(nodes, id, depth)[0] == id,
        recorded_ids(nodes, id, depth).contains(id),
{
    assert(recorded_ids(nodes, id, depth)[0] == id);
}

/// Each of `children` is recorded.
proof fn lemma_children_are_recorded(
    nodes: Map<u64, Node>,
    children: Seq<(Seq<char>, u64)>,
    depth: nat,
    k: int,
)
    requires
        0 <= k < children.len(),
    ensures
        children_recorded_ids(nodes, children, depth).contains(children[k].1),
    decreases children.len(),
{
    let before = children_recorded_ids(nodes, children.drop_last(), depth);
    let last = recorded_ids(nodes, children.last().1, depth);
    lemma_contains_concat(before, last, children[k].1);
    if k == children.len() - 1 {
        lemma_seed_is_recorded(nodes, children.last().1, depth);
    } else {
        assert(children.drop_last()[k] == children[k]);
        lemma_children_are_recorded(nodes, children.drop_last(), depth, k);
    }
}

/// Recording leaves alone what it does not record, and what it records is
/// in the scope map afterwards.
proof fn lemma_populated_frame(
    nodes: Map<u64, Node>,
    scope: Map<u64, Seq<Seq<char>>>,
    path: Seq<Seq<char>>,
    id: u64,
    depth: nat,
    x: u64,
)
    ensures
        recorded_ids(nodes, id, depth).contains(x) ==> populated(
            nodes,
            scope,
            path,
            id,
            depth,
        ).contains_key(x),
        !recorded_ids(nodes, id, depth).contains(x) ==> {
            &&& populated(nodes, scope, path, id, depth).contains_key(x) == scope.contains_key(x)
            &&& populated(nodes, scope, path, id, depth)[x] == scope[x]
        },
    decreases depth, 0nat,
{
    lemma_seed_is_recorded(nodes, id, depth);
    let ids = recorded_ids(nodes, id, depth);
    if depth == 0 || !nodes.contains_key(id) {
        if ids.contains(x) {
            let i = choose|i: int| 0 <= i < ids.len() && ids[i] == x;
            assert(x == id);
        }
    } else {
        let children = scope_children(nodes[id]);
        let below = (depth - 1) as nat;
        lemma_children_frame(nodes, scope.insert(id, path), path, children, below, x);
        lemma_contains_concat(
            Seq::empty().push(id),
            children_recorded_ids(nodes, children, below),
            x,
        );
        if x != id && Seq::<u64>::empty().push(id).contains(x) {
            let i = choose|i: int|
                0 <= i < Seq::<u64>::empty().push(id).len() && Seq::<u64>::empty().push(id)[i]
                    == x;
            assert(false);
        }
    }
}

proof fn lemma_children_frame(
    nodes: Map<u64, Node>,
    scope: Map<u64, Seq<Seq<char>>>,
    path: Seq<Seq<char>>,
    children: Seq<(Seq<char>, u64)>,
    depth: nat,
    x: u64,
)
    ensures
        children_recorded_ids(nodes, children, depth).contains(x) ==> populated_children(
            nodes,
            scope,
            path,
            children,
            depth,
        ).contains_key(x),
        !children_recorded_ids(nodes, children, depth).contains(x) ==> {
            &&& populated_children(nodes, scope, path, children, depth).contains_key(x)
                == scope.contains_key(x)
            &&& populated_children(nodes, scope, path, children, depth)[x] == scope[x]
        },
        scope.contains_key(x) ==> populated_children(
            nodes,
            scope,
            path,
            children,
            depth,
        ).contains_key(x),
    decreases depth, children.len() + 1,
{
    if children.len() == 0 {
        let none = children_recorded_ids(nodes, children, depth);
        if none.contains(x) {
            let i = choose|i: int| 0 <= i < none.len() && none[i] == x;
            assert(false);
        }
    } else {
        let before = populated_children(nodes, scope, path, children.drop_last(), depth);
        lemma_children_frame(nodes, scope, path, children.drop_last(), depth, x);
        lemma_populated_frame(
            nodes,
            before,
            path.push(children.last().0),
            children.last().1,
            depth,
            x,
        );
        lemma_contains_concat(
            children_recorded_ids(nodes, children.drop_last(), depth),
            recorded_ids(nodes, children.last().1, depth),
            x,
        );
    }
}

/// Where no node is recorded twice, the node from which recording starts
/// keeps the path that it was given.
proof fn lemma_seed_keeps_path(
    nodes: Map<u64, Node>,
    scope: Map<u64, Seq<Seq<char>>>,
    path: Seq<Seq<char>>,
    id: u64,
    depth: nat,
)
    requires
        recorded_ids(nodes, id, depth).no_duplicates(),
    ensures
        populated(nodes, scope, path, id, depth).contains_key(id),
        populated(nodes, scope, path, id, depth)[id] == path,
{
    if depth == 0 || !nodes.contains_key(id) {
    } else {
        let children = scope_children(nodes[id]);
        let below = (depth - 1) as nat;
        let rest = children_recorded_ids(nodes, children, below);
        lemma_no_duplicates_split(Seq::empty().push(id), rest);
        assert(Seq::<u64>::empty().push(id)[0] == id);
        assert(Seq::<u64>::empty().push(id).contains(id));
        lemma_children_frame(nodes, scope.insert(id, path), path, children, below, id);
    }
}

/// Where no node is recorded twice, each of `children` has the path
/// extended by its name.
proof fn lemma_children_have_paths(
    nodes: Map<u64, Node>,
    scope: Map<u64, Seq<Seq<char>>>,
    path: Seq<Seq<char>>,
    children: Seq<(Seq<char>, u64)>,
    depth: nat,
    k: int,
)
    requires
        children_recorded_ids(nodes, children, depth).no_duplicates(),
        0 <= k < children.len(),
    ensures
        populated_children(nodes, scope, path, children, depth).contains_key(children[k].1),
        populated_children(nodes, scope, path, children, depth)[children[k].1] == path.push(
            children[k].0,
        ),
    decreases children.len(),
{
    let before_ids = children_recorded_ids(nodes, children.drop_last(), depth);
    let last_ids = recorded_ids(nodes, children.last().1, depth);
    let before = populated_children(nodes, scope, path, children.drop_last(), depth);
    lemma_no_duplicates_split(before_ids, last_ids);
    if k == children.len() - 1 {
        lemma_seed_keeps_path(
            nodes,
            before,
            path.push(children.last().0),
            children.last().1,
            depth,
        );
    } else {
        assert(children.drop_last()[k] == children[k]);
        lemma_children_have_paths(nodes, scope, path, children.drop_last(), depth, k);
        lemma_children_are_recorded(nodes, children.drop_last(), depth, k);
        lemma_populated_frame(
            nodes,
            before,
            path.push(children.last().0),
            children.last().1,
            depth,
            children[k].1,
        );
    }
}

/// What a recorded, known node declares is recorded too, unless recording
/// was cut short.
proof fn lemma_declared_is_recorded(
    nodes: Map<u64, Node>,
    id: u64,
    depth: nat,
    parent: u64,
    k: int,
)
    requires
        !cut_short(nodes, id, depth),
        recorded_ids(nodes, id, depth).contains(parent),
        nodes.contains_key(parent),
        0 <= k < scope_children(nodes[parent]).len(),
    ensures
        recorded_ids(nodes, id, depth).contains(scope_children(nodes[parent])[k].1),
    decreases depth, 0nat,
{
    let ids = recorded_ids(nodes, id, depth);
    let child = scope_children(nodes[parent])[k].1;
    if depth == 0 || !nodes.contains_key(id) {
        let i = choose|i: int| 0 <= i < ids.len() && ids[i] == parent;
        assert(parent == id);
    } else {
        let children = scope_children(nodes[id]);
        let below = (depth - 1) as nat;
        let rest = children_recorded_ids(nodes, children, below);
        lemma_contains_concat(Seq::empty().push(id), rest, parent);
        lemma_contains_concat(Seq::empty().push(id), rest, child);
        if rest.contains(parent) {
            lemma_children_declared_is_recorded(nodes, children, below, parent, k);
        } else {
            let i = choose|i: int|
                0 <= i < Seq::<u64>::empty().push(id).len() && Seq::<u64>::empty().push(id)[i]
                    == parent;
            assert(parent == id);
            lemma_children_are_recorded(nodes, children, below, k);
        }
    }
}

proof fn lemma_children_declared_is_recorded(
    nodes: Map<u64, Node>,
    children: Seq<(Seq<char>, u64)>,
    depth: nat,
    parent: u64,
    k: int,
)
    requires
        !children_cut_short(nodes, children, depth),
        children_recorded_ids(nodes, children, depth).contains(parent),
        nodes.contains_key(parent),
        0 <= k < scope_children(nodes[parent]).len(),
    ensures
        children_recorded_ids(nodes, children, depth).contains(
            scope_children(nodes[parent])[k].1,
        ),
    decreases depth, children.len() + 1,
{
    let child = scope_children(nodes[parent])[k].1;
    if children.len() == 0 {
        let none = children_recorded_ids(nodes, children, depth);
        let i = choose|i: int| 0 <= i < none.len() && none[i] == parent;
        assert(false);
    } else {
        let before_ids = children_recorded_ids(nodes, children.drop_last(), depth);
        let last_ids = recorded_ids(nodes, children.last().1, depth);
        lemma_contains_concat(before_ids, last_ids, parent);
        lemma_contains_concat(before_ids, last_ids, child);
        if last_ids.contains(parent) {
            lemma_declared_is_recorded(nodes, children.last().1, depth, parent, k);
        } else {
            lemma_children_declared_is_recorded(nodes, children.drop_last(), depth, parent, k);
        }
    }
}

/// Where no node is recorded twice and recording is not cut short, every
/// node that a recorded, known node declares has the path of that node
/// extended by the name under which it is declared: a nested node by its
/// name, the node of a group by the capitalised name of the group's field.
pub proof fn lemma_declared_extends_parent(
    nodes: Map<u64, Node>,
    scope: Map<u64, Seq<Seq<char>>>,
    path: Seq<Seq<char>>,
    id: u64,
    depth: nat,
    parent: u64,
    k: int,
)
    requires
        recorded_ids(nodes, id, depth).no_duplicates(),
        !cut_short(nodes, id, depth),
        recorded_ids(nodes, id, depth).contains(parent),
        nodes.contains_key(parent),
        0 <= k < scope_children(nodes[parent]).len(),
    ensures
        populated(nodes, scope, path, id, depth).contains_key(parent),
        populated(nodes, scope, path, id, depth).contains_key(
            scope_children(nodes[parent])[k].1,
        ),
        populated(nodes, scope, path, id, depth)[scope_children(nodes[parent])[k].1] == populated(
            nodes,
            scope,
            path,
            id,
            depth,
        )[parent].push(scope_children(nodes[parent])[k].0),
    decreases depth, 0nat,
{
    let ids = recorded_ids(nodes, id, depth);
    if depth == 0 || !nodes.contains_key(id) {
        let i = choose|i: int| 0 <= i < ids.len() && ids[i] == parent;
        assert(parent == id);
    } else {
        let children = scope_children(nodes[id]);
        let below = (depth - 1) as nat;
        let rest = children_recorded_ids(nodes, children, below);
        let recorded = scope.insert(id, path);
        lemma_no_duplicates_split(Seq::empty().push(id), rest);
        lemma_contains_concat(Seq::empty().push(id), rest, parent);
        if rest.contains(parent) {
            lemma_children_declared_extends_parent(
                nodes,
                recorded,
                path,
                children,
                below,
                parent,
                k,
            );
        } else {
            let i = choose|i: int|
                0 <= i < Seq::<u64>::empty().push(id).len() && Seq::<u64>::empty().push(id)[i]
                    == parent;
            assert(parent == id);
            lemma_seed_keeps_path(nodes, scope, path, id, depth);
            lemma_children_have_paths(nodes, recorded, path, children, below, k);
        }
    }
}

proof fn lemma_children_declared_extends_parent(
    nodes: Map<u64, Node>,
    scope: Map<u64, Seq<Seq<char>>>,
    path: Seq<Seq<char>>,
    children: Seq<(Seq<char>, u64)>,
    depth: nat,
    parent: u64,
    k: int,
)
    requires
        children_recorded_ids(nodes, children, depth).no_duplicates(),
        !children_cut_short(nodes, children, depth),
        children_recorded_ids(nodes, children, depth).contains(parent),
        nodes.contains_key(parent),
        0 <= k < scope_children(nodes[parent]).len(),
    ensures
        populated_children(nodes, scope, path, children, depth).contains_key(parent),
        populated_children(nodes, scope, path, children, depth).contains_key(
            scope_children(nodes[parent])[k].1,
        ),
        populated_children(nodes, scope, path, children, depth)[scope_children(
            nodes[parent],
        )[k].1] == populated_children(nodes, scope, path, children, depth)[parent].push(
            scope_children(nodes[parent])[k].0,
        ),
    decreases depth, children.len() + 1,
{
    let child = scope_children(nodes[parent])[k].1;
    if children.len() == 0 {
        let none = children_recorded_ids(nodes, children, depth);
        let i = choose|i: int| 0 <= i < none.len() && none[i] == parent;
        assert(false);
    } else {
        let before_ids = children_recorded_ids(nodes, children.drop_last(), depth);
        let last_ids = recorded_ids(nodes, children.last().1, depth);
        let before = populated_children(nodes, scope, path, children.drop_last(), depth);
        let last_path = path.push(children.last().0);
        lemma_no_duplicates_split(before_ids, last_ids);
        lemma_contains_concat(before_ids, last_ids, parent);
        if last_ids.contains(parent) {
            lemma_declared_extends_parent(
                nodes,
                before,
                last_path,
                children.last().1,
                depth,
                parent,
                k,
            );
        } else {
            lemma_children_declared_extends_parent(
                nodes,
                scope,
                path,
                children.drop_last(),
                depth,
                parent,
                k,
            );
            lemma_children_declared_is_recorded(nodes, children.drop_last(), depth, parent, k);
            lemma_populated_frame(nodes, before, last_path, children.last().1, depth, parent);
            lemma_populated_frame(nodes, before, last_path, children.last().1, depth, child);
        }
    }
}

/// Recording that reports no failure was not cut short.
pub proof fn lemma_complete_is_not_cut_short(nodes: Map<u64, Node>, id: u64, depth: nat)
    requires
        populate_error(nodes, id, depth) is None,
    ensures
        !cut_short(nodes, id, depth),
    decreases depth, 0nat,
{
    if nodes.contains_key(id) && depth > 0 {
        lemma_children_complete_is_not_cut_short(
            nodes,
            scope_children(nodes[id]),
            (depth - 1) as nat,
        );
    }
}

proof fn lemma_children_complete_is_not_cut_short(
    nodes: Map<u64, Node>,
    children: Seq<(Seq<char>, u64)>,
    depth: nat,
)
    requires
        children_populate_error(nodes, children, depth) is None,
    ensures
        !children_cut_short(nodes, children, depth),
    decreases depth, children.len() + 1,
{
    if children.len() > 0 {
        lemma_children_complete_is_not_cut_short(nodes, children.drop_last(), depth);
        lemma_complete_is_not_cut_short(nodes, children.last().1, depth);
    }
}

} // verus!
