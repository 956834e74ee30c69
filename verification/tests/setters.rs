use capnpc_rust::accessors::{generate_haser, generate_import_statements, generate_pipeline_getter};
use capnpc_rust::error::GenError;
use capnpc_rust::schema::{
    ElementSize, Field, FieldKind, Node, NodeKind, StructNode, Type, Value, NO_DISCRIMINANT,
};
use capnpc_rust::setter::generate_setter;
use capnpc_rust::text;
use capnpc_rust::which::generate_union;
use capnpc_rust::zeroing::zero_fields_of_group;
use std::collections::HashMap;

fn path(segments: &[&str]) -> Vec<String> {
    segments.iter().map(|s| s.to_string()).collect()
}

fn scope() -> HashMap<u64, Vec<String>> {
    let mut scope = HashMap::new();
    scope.insert(10, path(&["::test_capnp", "Foo"]));
    scope.insert(11, path(&["::test_capnp", "Color"]));
    scope.insert(12, path(&["::test_capnp", "Iface"]));
    scope.insert(20, path(&["::test_capnp", "Foo", "Grp"]));
    scope
}

fn slot_at(offset: u32, typ: Type, default_value: Value) -> Field {
    Field {
        name: "someField".to_string(),
        discriminant_value: NO_DISCRIMINANT,
        kind: FieldKind::Slot { offset, typ, default_value },
    }
}

fn member(discriminant_value: u16, offset: u32, typ: Type, default_value: Value) -> Field {
    Field {
        name: "someField".to_string(),
        discriminant_value,
        kind: FieldKind::Slot { offset, typ, default_value },
    }
}

fn named(name: &str, mut field: Field) -> Field {
    field.name = name.to_string();
    field
}

fn group_struct(discriminant_count: u16, discriminant_offset: u32, fields: Vec<Field>) -> Node {
    Node {
        id: 0,
        scope_id: 10,
        nested_nodes: vec![],
        kind: NodeKind::Struct(StructNode {
            data_word_count: 2,
            pointer_count: 1,
            preferred_list_encoding: Some(ElementSize::InlineComposite),
            is_group: true,
            discriminant_count,
            discriminant_offset,
            fields,
        }),
    }
}

fn nodes() -> HashMap<u64, Node> {
    let mut nodes = HashMap::new();
    nodes.insert(
        20,
        group_struct(
            2,
            4,
            vec![
                slot_at(4, Type::Uint16, Value::Uint16(0)),
                slot_at(7, Type::Bool, Value::Bool(true)),
                slot_at(7, Type::Bool, Value::Bool(false)),
                slot_at(0, Type::Text, Value::Text),
                slot_at(0, Type::Struct(10), Value::Struct),
                slot_at(0, Type::Void, Value::Void),
                slot_at(1, Type::Int32, Value::Int32(0)),
                slot_at(1, Type::Uint32, Value::Uint32(0)),
                slot_at(2, Type::Enum(11), Value::Enum(0)),
                Field {
                    name: "inner".to_string(),
                    discriminant_value: NO_DISCRIMINANT,
                    kind: FieldKind::Group { type_id: 21 },
                },
                slot_at(1, Type::List(Box::new(Type::Text)), Value::List),
                slot_at(2, Type::AnyPointer, Value::AnyPointer),
                slot_at(2, Type::Interface(12), Value::Interface),
                slot_at(3, Type::Float64, Value::Float64 { bits: 0, text: "0".to_string() }),
            ],
        ),
    );
    nodes.insert(21, group_struct(0, 0, vec![slot_at(7, Type::Bool, Value::Bool(false))]));
    nodes.insert(
        22,
        Node { id: 22, scope_id: 0, nested_nodes: vec![], kind: NodeKind::Enum(vec![]) },
    );
    nodes
}

fn lines(tree: &text::FormattedText) -> Vec<String> {
    text::to_lines(tree, 0)
}

fn setter(doff: u32, name: &str, field: &Field) -> Result<Vec<String>, GenError> {
    generate_setter(&nodes(), &scope(), doff, name, field).map(|t| lines(&t))
}

#[test]
fn a_number_with_default_zero_is_written_unmasked() {
    assert_eq!(
        setter(0, "widget_count", &slot_at(0, Type::Uint32, Value::Uint32(0))),
        Ok(vec![
            "#[inline]".to_string(),
            "pub fn set_widget_count(&self, value : u32) {".to_string(),
            "  self.builder.set_data_field::<u32>(0, value);".to_string(),
            "}".to_string(),
        ])
    );
}

#[test]
fn a_bool_with_default_true_is_written_masked() {
    assert_eq!(
        setter(0, "active", &slot_at(3, Type::Bool, Value::Bool(true))),
        Ok(vec![
            "#[inline]".to_string(),
            "pub fn set_active(&self, value : bool) {".to_string(),
            "  self.builder.set_bool_field_mask(3, value, true);".to_string(),
            "}".to_string(),
        ])
    );
    assert_eq!(
        setter(0, "active", &slot_at(3, Type::Bool, Value::Bool(false))).unwrap()[2],
        "  self.builder.set_bool_field(3, value);"
    );
}

#[test]
fn a_number_with_another_default_is_written_masked_with_it() {
    assert_eq!(
        setter(0, "x", &slot_at(2, Type::Int16, Value::Int16(-7))).unwrap()[2],
        "  self.builder.set_data_field_mask::<i16>(2, value, -7);"
    );
    let half = Value::Float64 { bits: 2.5f64.to_bits(), text: "2.5".to_string() };
    assert_eq!(
        setter(0, "x", &slot_at(1, Type::Float64, half)).unwrap()[2],
        "  self.builder.set_data_field_mask::<f64>(1, value, 2.5f64);"
    );
    let minus_zero = Value::Float32 { bits: (-0.0f32).to_bits(), text: "-0".to_string() };
    assert_eq!(
        setter(0, "x", &slot_at(1, Type::Float32, minus_zero)).unwrap()[2],
        "  self.builder.set_data_field::<f32>(1, value);"
    );
}

#[test]
fn the_setter_masks_with_whatever_primitive_default_there_is() {
    assert_eq!(
        setter(0, "x", &slot_at(2, Type::Bool, Value::Int8(5))).unwrap()[2],
        "  self.builder.set_bool_field_mask(2, value, 5);"
    );
    assert_eq!(setter(0, "x", &slot_at(2, Type::Bool, Value::Void)), Err(GenError::Malformed));
    assert_eq!(setter(0, "x", &slot_at(2, Type::Int8, Value::Text)), Err(GenError::Malformed));
    assert_eq!(
        setter(0, "x", &slot_at(2, Type::Uint8, Value::Unrecognized)),
        Err(GenError::Malformed)
    );
}

#[test]
fn a_void_field_has_a_setter_that_writes_nothing() {
    assert_eq!(
        setter(0, "nothing", &slot_at(0, Type::Void, Value::Void)),
        Ok(vec![
            "#[inline]".to_string(),
            "pub fn set_nothing(&self, _value : ()) {".to_string(),
            "}".to_string(),
        ])
    );
}

#[test]
fn a_member_of_a_union_writes_its_discriminant_before_the_payload() {
    assert_eq!(
        setter(2, "a", &member(0, 0, Type::Text, Value::Text)),
        Ok(vec![
            "#[inline]".to_string(),
            "pub fn set_a(&self, value : text::Reader) {".to_string(),
            "  self.builder.set_data_field::<u16>(2, 0);".to_string(),
            "  self.builder.get_pointer_field(0).set_text(value);".to_string(),
            "}".to_string(),
            "#[inline]".to_string(),
            "pub fn init_a(&self, size : uint) -> text::Builder<'a> {".to_string(),
            "  self.builder.set_data_field::<u16>(2, 0);".to_string(),
            "  self.builder.get_pointer_field(0).init_text(size)".to_string(),
            "}".to_string(),
        ])
    );
    assert_eq!(
        setter(2, "b", &member(1, 1, Type::Int32, Value::Int32(0))),
        Ok(vec![
            "#[inline]".to_string(),
            "pub fn set_b(&self, value : i32) {".to_string(),
            "  self.builder.set_data_field::<u16>(2, 1);".to_string(),
            "  self.builder.set_data_field::<i32>(1, value);".to_string(),
            "}".to_string(),
        ])
    );
    assert_eq!(
        setter(9, "v", &member(65534, 0, Type::Void, Value::Void)),
        Ok(vec![
            "#[inline]".to_string(),
            "pub fn set_v(&self, _value : ()) {".to_string(),
            "  self.builder.set_data_field::<u16>(9, 65534);".to_string(),
            "}".to_string(),
        ])
    );
}

#[test]
fn data_is_set_and_initialised_through_the_pointer_field() {
    assert_eq!(
        setter(0, "blob", &slot_at(4, Type::Data, Value::Data)),
        Ok(vec![
            "#[inline]".to_string(),
            "pub fn set_blob(&self, value : data::Reader) {".to_string(),
            "  self.builder.get_pointer_field(4).set_data(value);".to_string(),
            "}".to_string(),
            "#[inline]".to_string(),
            "pub fn init_blob(&self, size : uint) -> data::Builder<'a> {".to_string(),
            "  self.builder.get_pointer_field(4).init_data(size)".to_string(),
            "}".to_string(),
        ])
    );
}

#[test]
fn a_list_of_primitives_is_initialised_with_its_element_size() {
    let field = slot_at(1, Type::List(Box::new(Type::Uint8)), Value::List);
    assert_eq!(
        setter(0, "bytes", &field),
        Ok(vec![
            "#[inline]".to_string(),
            "pub fn set_bytes(&self, value : primitive_list::Reader<'a,u8>) {".to_string(),
            "  self.builder.get_pointer_field(1).set_list(&value.reader)".to_string(),
            "}".to_string(),
            "#[inline]".to_string(),
            "pub fn init_bytes(&self, size : uint) -> primitive_list::Builder<'a,u8> {".to_string(),
            "  primitive_list::Builder::<'a,u8>::new(".to_string(),
            "    self.builder.get_pointer_field(1).init_list(layout::Byte,size)".to_string(),
            "  )".to_string(),
            "}".to_string(),
        ])
    );
}

#[test]
fn a_list_of_enums_is_initialised_with_two_bytes_per_element() {
    let field = slot_at(1, Type::List(Box::new(Type::Enum(11))), Value::List);
    assert_eq!(
        setter(0, "colors", &field),
        Ok(vec![
            "#[inline]".to_string(),
            "pub fn set_colors(&self, value : enum_list::Reader<'a,::test_capnp::Color::Reader>) {"
                .to_string(),
            "  self.builder.get_pointer_field(1).set_list(&value.reader)".to_string(),
            "}".to_string(),
            "#[inline]".to_string(),
            "pub fn init_colors(&self, size : uint) -> enum_list::Builder<'a,::test_capnp::Color::Reader> {"
                .to_string(),
            "  enum_list::Builder::<'a, ::test_capnp::Color::Reader>::new(".to_string(),
            "    self.builder.get_pointer_field(1).init_list(layout::TwoBytes,size)".to_string(),
            "  )".to_string(),
            "}".to_string(),
        ])
    );
}

#[test]
fn a_list_of_structs_is_initialised_with_the_size_of_the_struct() {
    let field = slot_at(1, Type::List(Box::new(Type::Struct(10))), Value::List);
    assert_eq!(
        setter(0, "foos", &field),
        Ok(vec![
            "#[inline]".to_string(),
            "pub fn set_foos(&self, value : struct_list::Reader<'a,::test_capnp::Foo::Reader<'a>>) {"
                .to_string(),
            "  self.builder.get_pointer_field(1).set_list(&value.reader)".to_string(),
            "}".to_string(),
            "#[inline]".to_string(),
            "pub fn init_foos(&self, size : uint) -> struct_list::Builder<'a,::test_capnp::Foo::Builder<'a>> {"
                .to_string(),
            "  struct_list::Builder::<'a, ::test_capnp::Foo::Builder<'a>>::new(".to_string(),
            "    self.builder.get_pointer_field(1).init_struct_list(size, ::test_capnp::Foo::STRUCT_SIZE))"
                .to_string(),
            "}".to_string(),
        ])
    );
}

#[test]
fn lists_of_text_and_data_are_initialised_as_lists_of_pointers() {
    let field = slot_at(1, Type::List(Box::new(Type::Text)), Value::List);
    assert_eq!(
        setter(0, "names", &field),
        Ok(vec![
            "#[inline]".to_string(),
            "pub fn set_names(&self, value : text_list::Reader) {".to_string(),
            "  self.builder.get_pointer_field(1).set_list(&value.reader)".to_string(),
            "}".to_string(),
            "#[inline]".to_string(),
            "pub fn init_names(&self, size : uint) -> text_list::Builder<'a> {".to_string(),
            "  text_list::Builder::<'a>::new(self.builder.get_pointer_field(1).init_list(layout::Pointer, size))"
                .to_string(),
            "}".to_string(),
        ])
    );
    let field = slot_at(2, Type::List(Box::new(Type::Data)), Value::List);
    let text = setter(0, "blobs", &field).unwrap();
    assert_eq!(text[1], "pub fn set_blobs(&self, value : data_list::Reader) {");
    assert_eq!(text[5], "pub fn init_blobs(&self, size : uint) -> data_list::Builder<'a> {");
    assert_eq!(
        text[6],
        "  data_list::Builder::<'a>::new(self.builder.get_pointer_field(2).init_list(layout::Pointer, size))"
    );
}

#[test]
fn the_setter_of_a_list_of_lists_has_a_lifetime_of_its_own() {
    let field = slot_at(1, Type::List(Box::new(Type::List(Box::new(Type::Uint8)))), Value::List);
    assert_eq!(
        setter(0, "rows", &field),
        Ok(vec![
            "#[inline]".to_string(),
            "pub fn set_rows<'b>(&self, value : list_list::Reader<'b, primitive_list::Reader<'b, u8>>) {"
                .to_string(),
            "  self.builder.get_pointer_field(1).set_list(&value.reader)".to_string(),
            "}".to_string(),
            "#[inline]".to_string(),
            "pub fn init_rows(&self, size : uint) -> list_list::Builder<'a, primitive_list::Builder<'a, u8>> {"
                .to_string(),
            "  list_list::Builder::<'a,primitive_list::Builder<'a, u8>>::new(self.builder.get_pointer_field(1).init_list(layout::Pointer,size))"
                .to_string(),
            "}".to_string(),
        ])
    );
}

#[test]
fn an_enum_is_written_as_its_number() {
    assert_eq!(
        setter(0, "color", &slot_at(4, Type::Enum(11), Value::Enum(0))),
        Ok(vec![
            "#[inline]".to_string(),
            "pub fn set_color(&self, value : ::test_capnp::Color::Reader) {".to_string(),
            "  self.builder.set_data_field::<u16>(4, value as u16)".to_string(),
            "}".to_string(),
        ])
    );
}

#[test]
fn an_enum_with_another_default_is_written_masked_with_its_number() {
    assert_eq!(
        setter(0, "color", &slot_at(4, Type::Enum(11), Value::Enum(1))),
        Ok(vec![
            "#[inline]".to_string(),
            "pub fn set_color(&self, value : ::test_capnp::Color::Reader) {".to_string(),
            "  self.builder.set_data_field_mask::<u16>(4, value as u16, 1)".to_string(),
            "}".to_string(),
        ])
    );
    assert_eq!(
        setter(6, "color", &member(3, 4, Type::Enum(11), Value::Enum(513))),
        Ok(vec![
            "#[inline]".to_string(),
            "pub fn set_color(&self, value : ::test_capnp::Color::Reader) {".to_string(),
            "  self.builder.set_data_field::<u16>(6, 3);".to_string(),
            "  self.builder.set_data_field_mask::<u16>(4, value as u16, 513)".to_string(),
            "}".to_string(),
        ])
    );
}

#[test]
fn an_enum_whose_default_is_no_enumerant_is_written_unmasked() {
    for default in [Value::Void, Value::Uint16(7), Value::Unrecognized] {
        assert_eq!(
            setter(0, "color", &slot_at(4, Type::Enum(11), default)).unwrap()[2],
            "  self.builder.set_data_field::<u16>(4, value as u16)"
        );
    }
}

#[test]
fn the_arm_of_an_enum_in_a_union_reads_with_the_mask_of_its_default() {
    let fields = vec![named("color", member(0, 1, Type::Enum(11), Value::Enum(2)))];
    let (_, getter, _) = union_of(&fields, 0, true).unwrap();
    assert_eq!(
        getter[5],
        "        FromPrimitive::from_u16(self.reader.get_data_field_mask::<u16>(1, 2u16))"
    );
}

#[test]
fn a_struct_is_copied_in_or_initialised_with_its_size() {
    assert_eq!(
        setter(0, "foo", &slot_at(0, Type::Struct(10), Value::Struct)),
        Ok(vec![
            "#[inline]".to_string(),
            "pub fn set_foo(&self, value : ::test_capnp::Foo::Reader) {".to_string(),
            "  self.builder.get_pointer_field(0).set_struct(&value.struct_reader())".to_string(),
            "}".to_string(),
            "#[inline]".to_string(),
            "pub fn init_foo(&self, ) -> ::test_capnp::Foo::Builder<'a> {".to_string(),
            "  FromStructBuilder::new(self.builder.get_pointer_field(0).init_struct(::test_capnp::Foo::STRUCT_SIZE))"
                .to_string(),
            "}".to_string(),
        ])
    );
}

#[test]
fn an_interface_is_set_by_the_hook_of_its_client() {
    assert_eq!(
        setter(0, "cap", &slot_at(0, Type::Interface(12), Value::Interface)),
        Ok(vec![
            "#[inline]".to_string(),
            "pub fn set_cap(&self, value : ::test_capnp::Iface::Client) {".to_string(),
            "  self.builder.get_pointer_field(0).set_capability(value.client.hook);".to_string(),
            "}".to_string(),
        ])
    );
}

#[test]
fn an_any_pointer_has_an_initialiser_only() {
    assert_eq!(
        setter(0, "any", &slot_at(0, Type::AnyPointer, Value::AnyPointer)),
        Ok(vec![
            "#[inline]".to_string(),
            "pub fn init_any(&self, ) -> any_pointer::Builder<'a> {".to_string(),
            "  let result = any_pointer::Builder::new(self.builder.get_pointer_field(0));"
                .to_string(),
            "  result.clear();".to_string(),
            "  result".to_string(),
            "}".to_string(),
        ])
    );
}

#[test]
fn initialising_a_group_clears_its_storage_first() {
    let group = Field {
        name: "grp".to_string(),
        discriminant_value: 3,
        kind: FieldKind::Group { type_id: 20 },
    };
    assert_eq!(
        setter(6, "grp", &group),
        Ok(vec![
            "#[inline]".to_string(),
            "pub fn init_grp(&self, ) -> ::test_capnp::Foo::Grp::Builder<'a> {".to_string(),
            "  self.builder.set_data_field::<u16>(6, 3);".to_string(),
            "  self.builder.set_data_field::<u16>(4, 0);".to_string(),
            "  self.builder.set_bool_field(7, false);".to_string(),
            "  self.builder.get_pointer_field(0).clear();".to_string(),
            "  self.builder.set_data_field::<i32>(1, 0);".to_string(),
            "  self.builder.set_data_field::<u32>(1, 0);".to_string(),
            "  self.builder.set_data_field::<u16>(2, 0);".to_string(),
            "  self.builder.set_bool_field(7, false);".to_string(),
            "  self.builder.get_pointer_field(1).clear();".to_string(),
            "  self.builder.get_pointer_field(2).clear();".to_string(),
            "  self.builder.set_data_field::<f64>(3, 0);".to_string(),
            "  FromStructBuilder::new(self.builder)".to_string(),
            "}".to_string(),
        ])
    );
}

#[test]
fn a_slot_shared_by_two_fields_is_cleared_once() {
    assert_eq!(
        zero_fields_of_group(&nodes(), 20).map(|t| lines(&t)),
        Ok(vec![
            "self.builder.set_data_field::<u16>(4, 0);".to_string(),
            "self.builder.set_bool_field(7, false);".to_string(),
            "self.builder.get_pointer_field(0).clear();".to_string(),
            "self.builder.set_data_field::<i32>(1, 0);".to_string(),
            "self.builder.set_data_field::<u32>(1, 0);".to_string(),
            "self.builder.set_data_field::<u16>(2, 0);".to_string(),
            "self.builder.set_bool_field(7, false);".to_string(),
            "self.builder.get_pointer_field(1).clear();".to_string(),
            "self.builder.get_pointer_field(2).clear();".to_string(),
            "self.builder.set_data_field::<f64>(3, 0);".to_string(),
        ])
    );
    assert_eq!(
        zero_fields_of_group(&nodes(), 21).map(|t| lines(&t)),
        Ok(vec!["self.builder.set_bool_field(7, false);".to_string()])
    );
}

#[test]
fn only_a_known_struct_can_be_cleared() {
    assert_eq!(zero_fields_of_group(&nodes(), 99), Err(GenError::MissingNode));
    assert_eq!(zero_fields_of_group(&nodes(), 22), Err(GenError::Malformed));
    let mut nodes = nodes();
    nodes.insert(23, group_struct(0, 0, vec![slot_at(0, Type::Unrecognized, Value::Void)]));
    assert_eq!(zero_fields_of_group(&nodes, 23), Err(GenError::Malformed));
    let unknown =
        Field { name: "x".to_string(), discriminant_value: NO_DISCRIMINANT, kind: FieldKind::Unrecognized };
    nodes.insert(24, group_struct(0, 0, vec![unknown]));
    assert_eq!(zero_fields_of_group(&nodes, 24), Err(GenError::Malformed));
    let missing = Field {
        name: "g".to_string(),
        discriminant_value: NO_DISCRIMINANT,
        kind: FieldKind::Group { type_id: 98 },
    };
    nodes.insert(25, group_struct(0, 0, vec![missing]));
    assert_eq!(zero_fields_of_group(&nodes, 25), Err(GenError::MissingNode));
}

#[test]
fn a_group_that_holds_itself_is_too_deep() {
    let mut nodes = HashMap::new();
    let itself = Field {
        name: "again".to_string(),
        discriminant_value: NO_DISCRIMINANT,
        kind: FieldKind::Group { type_id: 30 },
    };
    nodes.insert(30, group_struct(0, 0, vec![itself]));
    assert_eq!(zero_fields_of_group(&nodes, 30), Err(GenError::TooDeep));
}

#[test]
fn setters_fail_where_the_schema_cannot_be_served() {
    let list = |elem: Type| slot_at(0, Type::List(Box::new(elem)), Value::List);
    assert_eq!(setter(0, "x", &list(Type::AnyPointer)), Err(GenError::Unsupported));
    assert_eq!(setter(0, "x", &list(Type::Interface(12))), Err(GenError::Unsupported));
    assert_eq!(setter(0, "x", &list(Type::Unrecognized)), Err(GenError::Malformed));
    assert_eq!(setter(0, "x", &list(Type::Struct(99))), Err(GenError::MissingNode));
    assert_eq!(
        setter(0, "x", &slot_at(0, Type::Unrecognized, Value::Void)),
        Err(GenError::Malformed)
    );
    assert_eq!(
        setter(0, "x", &slot_at(0, Type::Struct(99), Value::Struct)),
        Err(GenError::MissingNode)
    );
    let unknown =
        Field { name: "x".to_string(), discriminant_value: NO_DISCRIMINANT, kind: FieldKind::Unrecognized };
    assert_eq!(setter(0, "x", &unknown), Err(GenError::Malformed));
    let unscoped = Field {
        name: "g".to_string(),
        discriminant_value: NO_DISCRIMINANT,
        kind: FieldKind::Group { type_id: 21 },
    };
    assert_eq!(setter(0, "g", &unscoped), Err(GenError::MissingNode));
}

#[test]
fn only_fields_behind_a_pointer_have_a_has_predicate() {
    let has = |doff: u32, name: &str, field: &Field, is_reader: bool| {
        lines(&generate_haser(doff, name, field, is_reader))
    };
    assert_eq!(
        has(0, "name", &slot_at(2, Type::Text, Value::Text), true),
        vec![
            "pub fn has_name(&self) -> bool {",
            "  !self.reader.get_pointer_field(2).is_null()",
            "}",
        ]
    );
    assert_eq!(
        has(2, "a", &member(1, 0, Type::Data, Value::Data), false),
        vec![
            "pub fn has_a(&self) -> bool {",
            "  if self.builder.get_data_field::<u16>(2) != 1 { return false; }",
            "  !self.builder.get_pointer_field(0).is_null()",
            "}",
        ]
    );
    for typ in [
        Type::List(Box::new(Type::Bool)),
        Type::Struct(10),
        Type::AnyPointer,
    ] {
        assert_eq!(has(0, "p", &slot_at(1, typ, Value::Void), true).len(), 3);
    }
    for typ in [Type::Void, Type::Bool, Type::Int32, Type::Float32, Type::Enum(11), Type::Interface(12)] {
        assert_eq!(has(0, "p", &slot_at(1, typ, Value::Void), true), Vec::<String>::new());
    }
    let group = Field {
        name: "g".to_string(),
        discriminant_value: 0,
        kind: FieldKind::Group { type_id: 20 },
    };
    assert_eq!(has(0, "g", &group, true), Vec::<String>::new());
}

#[test]
fn the_pipeline_has_getters_for_groups_structs_and_interfaces() {
    let nodes = nodes();
    let scope = scope();
    let pipeline =
        |field: &Field| generate_pipeline_getter(&nodes, &scope, field).map(|t| lines(&t));
    let group = Field {
        name: "myGroup".to_string(),
        discriminant_value: NO_DISCRIMINANT,
        kind: FieldKind::Group { type_id: 10 },
    };
    assert_eq!(
        pipeline(&group),
        Ok(vec![
            "pub fn get_my_group(&self) -> ::test_capnp::Foo::Pipeline {".to_string(),
            "  FromTypelessPipeline::new(self._typeless.noop())".to_string(),
            "}".to_string(),
        ])
    );
    assert_eq!(
        pipeline(&named("subStruct", slot_at(5, Type::Struct(10), Value::Struct))),
        Ok(vec![
            "pub fn get_sub_struct(&self) -> ::test_capnp::Foo::Pipeline {".to_string(),
            "  FromTypelessPipeline::new(self._typeless.get_pointer_field(5))".to_string(),
            "}".to_string(),
        ])
    );
    assert_eq!(
        pipeline(&named("cap", slot_at(1, Type::Interface(12), Value::Interface))),
        Ok(vec![
            "pub fn get_cap(&self) -> ::test_capnp::Iface::Client {".to_string(),
            "  FromClientHook::new(self._typeless.get_pointer_field(1).as_cap())".to_string(),
            "}".to_string(),
        ])
    );
    assert_eq!(pipeline(&slot_at(1, Type::Text, Value::Text)), Ok(vec![]));
    assert_eq!(pipeline(&named("not-a-name", slot_at(1, Type::Uint8, Value::Uint8(0)))), Ok(vec![]));
    assert_eq!(
        pipeline(&named("not-a-name", slot_at(1, Type::Struct(10), Value::Struct))),
        Err(GenError::InvalidIdentifier)
    );
    assert_eq!(
        pipeline(&slot_at(1, Type::Struct(99), Value::Struct)),
        Err(GenError::MissingNode)
    );
    assert_eq!(pipeline(&slot_at(1, Type::Unrecognized, Value::Void)), Err(GenError::Malformed));
}

#[test]
fn struct_modules_start_with_the_runtime_imports() {
    assert_eq!(
        lines(&generate_import_statements()),
        vec![
            "use std;",
            "use capnp::any_pointer;",
            "use capnp::capability::{FromClientHook, FromTypelessPipeline};",
            "use capnp::{text, data};",
            "use capnp::layout;",
            "use capnp::layout::{FromStructBuilder, FromStructReader, ToStructReader};",
            "use capnp::{primitive_list, enum_list, struct_list, text_list, data_list, list_list};",
            "use capnp::list::ToU16;",
        ]
    );
}

fn union_of(fields: &[Field], doff: u32, is_reader: bool) -> Result<(Vec<String>, Vec<String>, Vec<String>), GenError> {
    let refs: Vec<&Field> = fields.iter().collect();
    let (declaration, getter, typedef) =
        generate_union(&nodes(), &scope(), doff, &refs, is_reader)?;
    Ok((lines(&declaration), lines(&getter), lines(&typedef)))
}

#[test]
fn a_union_of_text_and_a_number() {
    let fields = vec![
        named("a", member(0, 0, Type::Text, Value::Text)),
        named("b", member(1, 1, Type::Int32, Value::Int32(0))),
    ];
    let (declaration, getter, typedef) = union_of(&fields, 2, true).unwrap();
    assert_eq!(declaration, vec!["pub enum Which<'a,A0> {", "  A(A0),", "  B(i32),", "}"]);
    assert_eq!(
        getter,
        vec![
            "#[inline]",
            "pub fn which(&self) -> std::option::Option<WhichReader<'a>> {",
            "  match self.reader.get_data_field::<u16>(2) {",
            "    0 => {",
            "      return std::option::Some(A(",
            "        self.reader.get_pointer_field(0).get_text(std::ptr::null(), 0)",
            "      ));",
            "    }",
            "    1 => {",
            "      return std::option::Some(B(",
            "        self.reader.get_data_field::<i32>(1)",
            "      ));",
            "    }",
            "    _ => return std::option::None",
            "  }",
            "}",
        ]
    );
    assert_eq!(typedef, vec!["pub type WhichReader<'a> = Which<'a,text::Reader<'a>>;"]);
}

#[test]
fn the_union_of_a_builder_stands_in_a_module_of_its_own() {
    let fields = vec![
        named("a", member(0, 0, Type::Text, Value::Text)),
        named("b", member(1, 1, Type::Int32, Value::Int32(0))),
    ];
    let (declaration, getter, typedef) = union_of(&fields, 2, false).unwrap();
    assert_eq!(
        declaration,
        vec![
            "pub mod Which {",
            "  use std;",
            "  use capnp::any_pointer;",
            "  use capnp::capability::{FromClientHook, FromTypelessPipeline};",
            "  use capnp::{text, data};",
            "  use capnp::layout;",
            "  use capnp::layout::{FromStructBuilder, FromStructReader, ToStructReader};",
            "  use capnp::{primitive_list, enum_list, struct_list, text_list, data_list, list_list};",
            "  use capnp::list::ToU16;",
            "",
            "  pub enum Which<'a,A0> {",
            "    A(A0),",
            "    B(i32),",
            "  }",
            "}",
        ]
    );
    assert_eq!(getter[1], "pub fn which(&self) -> std::option::Option<WhichBuilder<'a>> {");
    assert_eq!(getter[2], "  match self.builder.get_data_field::<u16>(2) {");
    assert_eq!(getter[5], "        self.builder.get_pointer_field(0).get_text(std::ptr::null(), 0)");
    assert_eq!(typedef, vec!["pub type WhichBuilder<'a> = Which<'a,text::Builder<'a>>;"]);
}

#[test]
fn a_union_without_pointers_has_no_type_parameters() {
    let fields = vec![
        named("small", member(0, 0, Type::Uint8, Value::Uint8(0))),
        named("flag", member(1, 9, Type::Bool, Value::Bool(true))),
        named("color", member(2, 1, Type::Enum(11), Value::Enum(0))),
        named("cap", member(3, 0, Type::Interface(12), Value::Interface)),
    ];
    let (declaration, getter, typedef) = union_of(&fields, 0, true).unwrap();
    assert_eq!(
        declaration,
        vec![
            "pub enum Which {",
            "  Small(u8),",
            "  Flag(bool),",
            "  Color(Option<::test_capnp::Color::Reader>),",
            "  Cap(::test_capnp::Iface::Client),",
            "}",
        ]
    );
    assert_eq!(getter[1], "pub fn which(&self) -> std::option::Option<WhichReader> {");
    assert_eq!(typedef, vec!["pub type WhichReader = Which;"]);
}

#[test]
fn each_arm_with_a_lifetime_gets_a_type_parameter() {
    let group = Field {
        name: "grp".to_string(),
        discriminant_value: 2,
        kind: FieldKind::Group { type_id: 20 },
    };
    let fields = vec![
        named("name", member(0, 0, Type::Text, Value::Text)),
        named("count", member(1, 0, Type::Uint64, Value::Uint64(0))),
        group,
        named("items", member(3, 0, Type::List(Box::new(Type::Struct(10))), Value::List)),
        named("any", member(4, 0, Type::AnyPointer, Value::AnyPointer)),
        named("foo", member(5, 0, Type::Struct(10), Value::Struct)),
        named("blob", member(6, 0, Type::Data, Value::Data)),
    ];
    let (declaration, _, typedef) = union_of(&fields, 1, true).unwrap();
    assert_eq!(
        declaration,
        vec![
            "pub enum Which<'a,A0,A1,A2,A3,A4,A5> {",
            "  Name(A0),",
            "  Count(u64),",
            "  Grp(A1),",
            "  Items(A2),",
            "  Any(A3),",
            "  Foo(A4),",
            "  Blob(A5),",
            "}",
        ]
    );
    assert_eq!(
        typedef,
        vec![
            "pub type WhichReader<'a> = Which<'a,text::Reader<'a>,::test_capnp::Foo::Grp::Reader<'a>,struct_list::Reader<'a,::test_capnp::Foo::Reader<'a>>,any_pointer::Reader<'a>,::test_capnp::Foo::Reader<'a>,data::Reader<'a>>;"
        ]
    );
}

#[test]
fn an_empty_union_matches_nothing() {
    let (declaration, getter, typedef) = union_of(&[], 7, true).unwrap();
    assert_eq!(declaration, vec!["pub enum Which {", "}"]);
    assert_eq!(
        getter,
        vec![
            "#[inline]",
            "pub fn which(&self) -> std::option::Option<WhichReader> {",
            "  match self.reader.get_data_field::<u16>(7) {",
            "    _ => return std::option::None",
            "  }",
            "}",
        ]
    );
    assert_eq!(typedef, vec!["pub type WhichReader = Which;"]);
}

#[test]
fn a_union_fails_with_its_first_bad_member() {
    let fields = vec![
        named("ok", member(0, 0, Type::Text, Value::Text)),
        named("", member(1, 0, Type::Text, Value::Text)),
        named("bad", member(2, 0, Type::Unrecognized, Value::Void)),
    ];
    assert_eq!(union_of(&fields, 0, true), Err(GenError::InvalidIdentifier));
    let fields = vec![
        named("bad", member(2, 0, Type::Unrecognized, Value::Void)),
        named("", member(1, 0, Type::Text, Value::Text)),
    ];
    assert_eq!(union_of(&fields, 0, false), Err(GenError::Malformed));
}
