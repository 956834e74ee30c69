use capnpc_rust::error::GenError;
use capnpc_rust::request::{generate_file, generate_files, index_nodes, root_name};
use capnpc_rust::schema::{
    CodeGeneratorRequest, ElementSize, Field, FieldKind, Import, NestedNode, Node, NodeKind,
    RequestedFile, StructNode, Type, Value, NO_DISCRIMINANT,
};
use std::collections::HashMap;

fn file(id: u64, children: Vec<(&str, u64)>) -> Node {
    Node {
        id,
        scope_id: 0,
        nested_nodes: children
            .into_iter()
            .map(|(name, id)| NestedNode { name: name.to_string(), id })
            .collect(),
        kind: NodeKind::File,
    }
}

fn a_struct(id: u64, scope_id: u64, fields: Vec<Field>) -> Node {
    Node {
        id,
        scope_id,
        nested_nodes: vec![],
        kind: NodeKind::Struct(StructNode {
            data_word_count: 1,
            pointer_count: 1,
            preferred_list_encoding: Some(ElementSize::InlineComposite),
            is_group: false,
            discriminant_count: 0,
            discriminant_offset: 0,
            fields,
        }),
    }
}

fn field(name: &str, typ: Type, default_value: Value) -> Field {
    Field {
        name: name.to_string(),
        discriminant_value: NO_DISCRIMINANT,
        kind: FieldKind::Slot { offset: 0, typ, default_value },
    }
}

fn requested(id: u64, stem: &str, imports: Vec<(u64, &str)>) -> RequestedFile {
    RequestedFile {
        id,
        stem: stem.to_string(),
        imports: imports
            .into_iter()
            .map(|(id, stem)| Import { id, stem: stem.to_string() })
            .collect(),
    }
}

#[test]
fn module_names_replace_dashes_and_end_in_capnp() {
    assert_eq!(root_name("test"), "test_capnp");
    assert_eq!(root_name("my-schema"), "my_schema_capnp");
    assert_eq!(root_name("a-b-c"), "a_b_c_capnp");
    assert_eq!(root_name("-"), "__capnp");
    assert_eq!(root_name(""), "_capnp");
    assert_eq!(root_name("under_score.v2"), "under_score.v2_capnp");
}

#[test]
fn of_two_nodes_with_one_id_the_later_one_is_indexed() {
    let map = index_nodes(vec![file(1, vec![]), file(2, vec![("A", 3)]), file(1, vec![("B", 4)])]);
    assert_eq!(map.len(), 2);
    assert_eq!(map[&1].nested_nodes.len(), 1);
    assert_eq!(map[&1].nested_nodes[0].name, "B");
    assert_eq!(map[&2].nested_nodes[0].id, 3);
    assert_eq!(index_nodes(vec![]).len(), 0);
}

#[test]
fn an_empty_file_holds_the_two_directives_only() {
    let request = CodeGeneratorRequest {
        nodes: vec![file(1, vec![])],
        requested_files: vec![requested(1, "empty", vec![])],
    };
    let files = generate_files(request).unwrap();
    assert_eq!(files.len(), 1);
    assert_eq!(files[0].name, "empty_capnp.rs");
    assert_eq!(files[0].text, "#![allow(unused_imports)]\n#![allow(dead_code)]\n");
}

#[test]
fn no_requested_file_gives_no_file() {
    let request = CodeGeneratorRequest { nodes: vec![file(1, vec![])], requested_files: vec![] };
    assert_eq!(generate_files(request).unwrap().len(), 0);
}

#[test]
fn the_file_itself_is_a_relative_root_and_an_import_an_absolute_one() {
    let nodes = vec![
        file(1, vec![("Holder", 2)]),
        a_struct(
            2,
            1,
            vec![
                field("mine", Type::Struct(3), Value::Struct),
                field("theirs", Type::Struct(11), Value::Struct),
            ],
        ),
        a_struct(3, 1, vec![]),
        file(10, vec![("Shared", 11)]),
        a_struct(11, 10, vec![]),
    ];
    let mut nodes = nodes;
    nodes[0].nested_nodes.push(NestedNode { name: "Local".to_string(), id: 3 });
    let request = CodeGeneratorRequest {
        nodes,
        requested_files: vec![requested(1, "my-app", vec![(10, "common-types")])],
    };
    let files = generate_files(request).unwrap();
    assert_eq!(files[0].name, "my_app_capnp.rs");
    let text = &files[0].text;
    assert!(text.starts_with("#![allow(unused_imports)]\n#![allow(dead_code)]\n\npub mod Holder {\n"));
    assert!(text.contains("    pub fn get_mine(&self) -> my_app_capnp::Local::Reader<'a> {\n"));
    assert!(text.contains("    pub fn get_theirs(&self) -> ::common_types_capnp::Shared::Reader<'a> {\n"));
    assert!(text.contains("\npub mod Local {\n"));
    assert!(!text.contains("pub mod Shared"));
    assert!(text.ends_with("  impl Pipeline {\n  }\n}\n"));
}

#[test]
fn each_requested_file_gets_a_file_of_its_own() {
    let request = CodeGeneratorRequest {
        nodes: vec![
            file(1, vec![("A", 2)]),
            a_struct(2, 1, vec![]),
            file(5, vec![("B", 6)]),
            a_struct(6, 5, vec![field("a", Type::Struct(2), Value::Struct)]),
        ],
        requested_files: vec![requested(1, "first", vec![]), requested(5, "second", vec![(1, "first")])],
    };
    let files = generate_files(request).unwrap();
    assert_eq!(files.len(), 2);
    assert_eq!(files[0].name, "first_capnp.rs");
    assert_eq!(files[1].name, "second_capnp.rs");
    assert!(files[0].text.contains("pub mod A {"));
    assert!(!files[0].text.contains("pub mod B {"));
    assert!(files[1].text.contains("pub mod B {"));
    assert!(files[1].text.contains("    pub fn get_a(&self) -> ::first_capnp::A::Reader<'a> {\n"));
}

#[test]
fn a_later_file_sees_the_scope_that_earlier_files_left() {
    let request = CodeGeneratorRequest {
        nodes: vec![
            file(1, vec![("A", 2)]),
            a_struct(2, 1, vec![]),
            file(5, vec![("B", 6)]),
            a_struct(6, 5, vec![field("a", Type::Struct(2), Value::Struct)]),
        ],
        requested_files: vec![requested(1, "first", vec![]), requested(5, "second", vec![])],
    };
    let files = generate_files(request).unwrap();
    assert!(files[1].text.contains("    pub fn get_a(&self) -> first_capnp::A::Reader<'a> {\n"));
}

#[test]
fn nothing_is_handed_out_unless_every_file_can_be_generated() {
    let request = CodeGeneratorRequest {
        nodes: vec![
            file(1, vec![]),
            file(5, vec![("B", 6)]),
            a_struct(
                6,
                5,
                vec![field("x", Type::List(Box::new(Type::AnyPointer)), Value::List)],
            ),
        ],
        requested_files: vec![requested(1, "good", vec![]), requested(5, "bad", vec![])],
    };
    assert_eq!(generate_files(request).map(|f| f.len()), Err(GenError::Unsupported));
}

#[test]
fn a_requested_file_that_is_not_indexed_is_missing() {
    let request = CodeGeneratorRequest {
        nodes: vec![file(1, vec![])],
        requested_files: vec![requested(2, "gone", vec![])],
    };
    assert_eq!(generate_files(request).map(|f| f.len()), Err(GenError::MissingNode));
}

#[test]
fn generating_a_file_records_its_scope() {
    let nodes = index_nodes(vec![
        file(1, vec![("Thing", 2)]),
        a_struct(2, 1, vec![]),
        file(10, vec![("Dep", 11)]),
    ]);
    let mut scope: HashMap<u64, Vec<String>> = HashMap::new();
    let text = generate_file(&nodes, &mut scope, &requested(1, "x-y", vec![(10, "d-e")])).unwrap();
    assert!(text.contains("\npub mod Thing {\n"));
    assert_eq!(scope[&1], vec!["x_y_capnp".to_string()]);
    assert_eq!(scope[&2], vec!["x_y_capnp".to_string(), "Thing".to_string()]);
    assert_eq!(scope[&10], vec!["::d_e_capnp".to_string()]);
    assert_eq!(scope[&11], vec!["::d_e_capnp".to_string(), "Dep".to_string()]);
    assert_eq!(scope.len(), 4);
}

#[test]
fn a_file_that_imports_itself_keeps_its_own_root() {
    let nodes = index_nodes(vec![file(1, vec![("Thing", 2)]), a_struct(2, 1, vec![])]);
    let mut scope: HashMap<u64, Vec<String>> = HashMap::new();
    generate_file(&nodes, &mut scope, &requested(1, "me", vec![(1, "me")])).unwrap();
    assert_eq!(scope[&1], vec!["me_capnp".to_string()]);
    assert_eq!(scope[&2], vec!["me_capnp".to_string(), "Thing".to_string()]);
}

#[test]
fn a_failure_of_the_scope_fails_the_file_but_the_scope_is_recorded() {
    let nodes = index_nodes(vec![file(1, vec![("Again", 1)])]);
    let mut scope: HashMap<u64, Vec<String>> = HashMap::new();
    assert_eq!(
        generate_file(&nodes, &mut scope, &requested(1, "loop", vec![])),
        Err(GenError::TooDeep)
    );
    assert_eq!(scope[&1], vec!["loop_capnp".to_string(), "Again".to_string()]);
}
