use capnpc_rust::error::GenError;
use capnpc_rust::schema::{
    ElementSize, Field, FieldKind, NestedNode, Node, NodeKind, StructNode, Type, Value,
    NO_DISCRIMINANT,
};
use capnpc_rust::scope::{clone_path, own_name, populate_scope_map, qualified_name};
use std::collections::HashMap;

fn path(segments: &[&str]) -> Vec<String> {
    segments.iter().map(|s| s.to_string()).collect()
}

fn nested(name: &str, id: u64) -> NestedNode {
    NestedNode { name: name.to_string(), id }
}

fn group(name: &str, type_id: u64) -> Field {
    Field {
        name: name.to_string(),
        discriminant_value: NO_DISCRIMINANT,
        kind: FieldKind::Group { type_id },
    }
}

fn slot(name: &str) -> Field {
    Field {
        name: name.to_string(),
        discriminant_value: NO_DISCRIMINANT,
        kind: FieldKind::Slot { offset: 0, typ: Type::Struct(3), default_value: Value::Struct },
    }
}

fn a_struct(id: u64, children: Vec<NestedNode>, fields: Vec<Field>) -> Node {
    Node {
        id,
        scope_id: 0,
        nested_nodes: children,
        kind: NodeKind::Struct(StructNode {
            data_word_count: 0,
            pointer_count: 0,
            preferred_list_encoding: Some(ElementSize::Empty),
            is_group: false,
            discriminant_count: 0,
            discriminant_offset: 0,
            fields,
        }),
    }
}

fn a_file(id: u64, children: Vec<NestedNode>) -> Node {
    Node { id, scope_id: 0, nested_nodes: children, kind: NodeKind::File }
}

fn index(nodes: Vec<Node>) -> HashMap<u64, Node> {
    let mut map = HashMap::new();
    for node in nodes {
        map.insert(node.id, node);
    }
    map
}

fn schema() -> HashMap<u64, Node> {
    index(vec![
        a_file(1, vec![nested("Outer", 2), nested("Color", 5)]),
        a_struct(2, vec![nested("Inner", 3)], vec![slot("plain"), group("myGroup", 4), group("x", 6)]),
        a_struct(3, vec![], vec![]),
        a_struct(4, vec![nested("Deep", 7)], vec![group("subGroup", 8)]),
        Node { id: 5, scope_id: 1, nested_nodes: vec![], kind: NodeKind::Enum(vec![]) },
        a_struct(6, vec![], vec![]),
        a_struct(7, vec![], vec![]),
        a_struct(8, vec![], vec![]),
    ])
}

#[test]
fn every_declared_node_gets_the_path_of_its_parent_and_its_name() {
    let nodes = schema();
    let mut scope = HashMap::new();
    assert_eq!(populate_scope_map(&nodes, &mut scope, path(&["test_capnp"]), 1), Ok(()));
    let mut expected = HashMap::new();
    expected.insert(1, path(&["test_capnp"]));
    expected.insert(2, path(&["test_capnp", "Outer"]));
    expected.insert(3, path(&["test_capnp", "Outer", "Inner"]));
    expected.insert(4, path(&["test_capnp", "Outer", "MyGroup"]));
    expected.insert(5, path(&["test_capnp", "Color"]));
    expected.insert(6, path(&["test_capnp", "Outer", "X"]));
    expected.insert(7, path(&["test_capnp", "Outer", "MyGroup", "Deep"]));
    expected.insert(8, path(&["test_capnp", "Outer", "MyGroup", "SubGroup"]));
    assert_eq!(scope, expected);
}

#[test]
fn the_path_of_a_child_starts_with_the_path_of_its_parent() {
    let nodes = schema();
    let mut scope = HashMap::new();
    populate_scope_map(&nodes, &mut scope, path(&["::dep_capnp"]), 1).unwrap();
    for (id, node) in nodes.iter() {
        let parent = &scope[id];
        for child in node.nested_nodes.iter() {
            let mut expected = parent.clone();
            expected.push(child.name.clone());
            assert_eq!(scope[&child.id], expected);
        }
    }
}

#[test]
fn a_node_that_is_not_indexed_is_recorded_but_not_entered() {
    let nodes = index(vec![a_file(1, vec![nested("Known", 2), nested("Unknown", 9)]), a_struct(2, vec![], vec![])]);
    let mut scope = HashMap::new();
    assert_eq!(populate_scope_map(&nodes, &mut scope, path(&["::x_capnp"]), 1), Ok(()));
    assert_eq!(scope.len(), 3);
    assert_eq!(scope[&9], path(&["::x_capnp", "Unknown"]));
    let mut scope = HashMap::new();
    assert_eq!(populate_scope_map(&nodes, &mut scope, path(&["root"]), 42), Ok(()));
    assert_eq!(scope.len(), 1);
    assert_eq!(scope[&42], path(&["root"]));
}

#[test]
fn of_two_paths_for_one_node_the_later_one_stays() {
    let nodes = index(vec![
        a_file(1, vec![nested("First", 2), nested("Second", 3)]),
        a_struct(2, vec![nested("Shared", 4)], vec![]),
        a_struct(3, vec![nested("Shared", 4)], vec![]),
        a_struct(4, vec![], vec![]),
    ]);
    let mut scope = HashMap::new();
    assert_eq!(populate_scope_map(&nodes, &mut scope, path(&["f"]), 1), Ok(()));
    assert_eq!(scope[&4], path(&["f", "Second", "Shared"]));
}

#[test]
fn what_was_recorded_before_stays_unless_it_is_recorded_again() {
    let nodes = schema();
    let mut scope = HashMap::new();
    scope.insert(100, path(&["other"]));
    scope.insert(3, path(&["stale"]));
    populate_scope_map(&nodes, &mut scope, path(&["test_capnp"]), 1).unwrap();
    assert_eq!(scope[&100], path(&["other"]));
    assert_eq!(scope[&3], path(&["test_capnp", "Outer", "Inner"]));
    assert_eq!(scope.len(), 9);
}

#[test]
fn recording_a_node_nested_in_itself_is_too_deep() {
    let nodes = index(vec![a_file(1, vec![nested("Again", 1)])]);
    let mut scope = HashMap::new();
    assert_eq!(populate_scope_map(&nodes, &mut scope, path(&["f"]), 1), Err(GenError::TooDeep));
    assert_eq!(scope[&1], path(&["f", "Again"]));
}

#[test]
fn a_chain_as_long_as_the_index_is_recorded_in_full() {
    let nodes = index(vec![
        a_file(1, vec![nested("A", 2)]),
        a_struct(2, vec![nested("B", 3)], vec![]),
        a_struct(3, vec![nested("C", 4)], vec![]),
        a_struct(4, vec![nested("D", 5)], vec![]),
    ]);
    let mut scope = HashMap::new();
    assert_eq!(populate_scope_map(&nodes, &mut scope, path(&["f"]), 1), Ok(()));
    assert_eq!(scope[&5], path(&["f", "A", "B", "C", "D"]));
}

#[test]
fn a_group_without_a_name_is_rejected_and_left_out() {
    let nodes = index(vec![
        a_file(1, vec![nested("S", 2)]),
        a_struct(2, vec![], vec![group("", 3), group("ok", 4)]),
        a_struct(3, vec![], vec![]),
        a_struct(4, vec![], vec![]),
    ]);
    let mut scope = HashMap::new();
    assert_eq!(
        populate_scope_map(&nodes, &mut scope, path(&["f"]), 1),
        Err(GenError::InvalidIdentifier)
    );
    assert!(!scope.contains_key(&3));
    assert_eq!(scope[&4], path(&["f", "S", "Ok"]));
}

#[test]
fn qualified_names_join_the_segments_with_double_colons() {
    let mut scope = HashMap::new();
    scope.insert(1, path(&["::a_capnp"]));
    scope.insert(2, path(&["::a_capnp", "Outer", "Inner"]));
    scope.insert(3, vec![]);
    assert_eq!(qualified_name(&scope, 1), Ok("::a_capnp".to_string()));
    assert_eq!(qualified_name(&scope, 2), Ok("::a_capnp::Outer::Inner".to_string()));
    assert_eq!(qualified_name(&scope, 3), Ok("".to_string()));
    assert_eq!(qualified_name(&scope, 4), Err(GenError::MissingNode));
    assert_eq!(own_name(&scope, 1), Ok("::a_capnp".to_string()));
    assert_eq!(own_name(&scope, 2), Ok("Inner".to_string()));
    assert_eq!(own_name(&scope, 3), Err(GenError::MissingNode));
    assert_eq!(own_name(&scope, 4), Err(GenError::MissingNode));
}

#[test]
fn a_copied_path_equals_the_path() {
    assert_eq!(clone_path(&path(&["a", "b", ""])), path(&["a", "b", ""]));
    assert_eq!(clone_path(&vec![]), Vec::<String>::new());
}
