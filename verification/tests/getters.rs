use capnpc_rust::error::GenError;
use capnpc_rust::getter::getter_text;
use capnpc_rust::schema::{Field, FieldKind, Node, Type, Value, NO_DISCRIMINANT};
use capnpc_rust::text;
use capnpc_rust::types::{
    element_size, element_size_str, list_list_type_param, prim_default, prim_type_str,
};
use capnpc_rust::schema::ElementSize;
use std::collections::HashMap;

fn path(segments: &[&str]) -> Vec<String> {
    segments.iter().map(|s| s.to_string()).collect()
}

fn scope() -> HashMap<u64, Vec<String>> {
    let mut scope = HashMap::new();
    scope.insert(10, path(&["::test_capnp", "Foo"]));
    scope.insert(11, path(&["::test_capnp", "Color"]));
    scope.insert(12, path(&["::test_capnp", "Iface"]));
    scope
}

fn slot(typ: Type, default_value: Value) -> Field {
    Field {
        name: "someField".to_string(),
        discriminant_value: NO_DISCRIMINANT,
        kind: FieldKind::Slot { offset: 3, typ, default_value },
    }
}

fn getter(field: &Field, is_reader: bool) -> Result<(String, String), GenError> {
    let nodes: HashMap<u64, Node> = HashMap::new();
    let (ty, body) = getter_text(&nodes, &scope(), field, is_reader)?;
    let rendered = text::stringify(&body);
    Ok((ty, rendered.trim_end_matches('\n').to_string()))
}

fn expect(field: &Field, is_reader: bool, ty: &str, body: &str) {
    assert_eq!(getter(field, is_reader), Ok((ty.to_string(), body.to_string())));
}

#[test]
fn a_void_field_reads_as_unit() {
    expect(&slot(Type::Void, Value::Void), true, "()", "()");
    expect(&slot(Type::Void, Value::Void), false, "()", "()");
}

#[test]
fn a_bool_with_default_false_is_read_unmasked() {
    let field = slot(Type::Bool, Value::Bool(false));
    expect(&field, true, "bool", "self.reader.get_bool_field(3)");
    expect(&field, false, "bool", "self.builder.get_bool_field(3)");
}

#[test]
fn a_bool_with_default_true_is_read_masked() {
    let field = slot(Type::Bool, Value::Bool(true));
    expect(&field, true, "bool", "self.reader.get_bool_field_mask(3, true)");
    expect(&field, false, "bool", "self.builder.get_bool_field_mask(3, true)");
}

#[test]
fn a_number_with_default_zero_is_read_unmasked() {
    expect(&slot(Type::Int8, Value::Int8(0)), true, "i8", "self.reader.get_data_field::<i8>(3)");
    expect(&slot(Type::Int16, Value::Int16(0)), true, "i16", "self.reader.get_data_field::<i16>(3)");
    expect(&slot(Type::Int32, Value::Int32(0)), false, "i32", "self.builder.get_data_field::<i32>(3)");
    expect(&slot(Type::Int64, Value::Int64(0)), true, "i64", "self.reader.get_data_field::<i64>(3)");
    expect(&slot(Type::Uint8, Value::Uint8(0)), true, "u8", "self.reader.get_data_field::<u8>(3)");
    expect(&slot(Type::Uint16, Value::Uint16(0)), true, "u16", "self.reader.get_data_field::<u16>(3)");
    expect(&slot(Type::Uint32, Value::Uint32(0)), true, "u32", "self.reader.get_data_field::<u32>(3)");
    expect(&slot(Type::Uint64, Value::Uint64(0)), true, "u64", "self.reader.get_data_field::<u64>(3)");
}

#[test]
fn a_number_with_another_default_is_read_masked_with_it() {
    expect(
        &slot(Type::Int8, Value::Int8(-5)),
        true,
        "i8",
        "self.reader.get_data_field_mask::<i8>(3, -5i8)",
    );
    expect(
        &slot(Type::Int64, Value::Int64(i64::MIN)),
        true,
        "i64",
        "self.reader.get_data_field_mask::<i64>(3, -9223372036854775808i64)",
    );
    expect(
        &slot(Type::Uint16, Value::Uint16(65535)),
        false,
        "u16",
        "self.builder.get_data_field_mask::<u16>(3, 65535u16)",
    );
    expect(
        &slot(Type::Uint64, Value::Uint64(u64::MAX)),
        true,
        "u64",
        "self.reader.get_data_field_mask::<u64>(3, 18446744073709551615u64)",
    );
}

#[test]
fn a_float_is_masked_unless_it_is_zero_of_either_sign() {
    let float = |bits: u32, text: &str| Value::Float32 { bits, text: text.to_string() };
    let double = |bits: u64, text: &str| Value::Float64 { bits, text: text.to_string() };
    expect(
        &slot(Type::Float32, float(1.5f32.to_bits(), "1.5")),
        true,
        "f32",
        "self.reader.get_data_field_mask::<f32>(3, 1.5f32)",
    );
    expect(
        &slot(Type::Float32, float(0.0f32.to_bits(), "0")),
        true,
        "f32",
        "self.reader.get_data_field::<f32>(3)",
    );
    expect(
        &slot(Type::Float32, float((-0.0f32).to_bits(), "-0")),
        true,
        "f32",
        "self.reader.get_data_field::<f32>(3)",
    );
    expect(
        &slot(Type::Float64, double((-2.25f64).to_bits(), "-2.25")),
        false,
        "f64",
        "self.builder.get_data_field_mask::<f64>(3, -2.25f64)",
    );
    expect(
        &slot(Type::Float64, double((-0.0f64).to_bits(), "-0")),
        false,
        "f64",
        "self.builder.get_data_field::<f64>(3)",
    );
}

#[test]
fn text_and_data_are_read_through_the_pointer_field() {
    expect(
        &slot(Type::Text, Value::Text),
        true,
        "text::Reader<'a>",
        "self.reader.get_pointer_field(3).get_text(std::ptr::null(), 0)",
    );
    expect(
        &slot(Type::Text, Value::Text),
        false,
        "text::Builder<'a>",
        "self.builder.get_pointer_field(3).get_text(std::ptr::null(), 0)",
    );
    expect(
        &slot(Type::Data, Value::Data),
        true,
        "data::Reader<'a>",
        "self.reader.get_pointer_field(3).get_data(std::ptr::null(), 0)",
    );
}

#[test]
fn a_struct_is_read_with_its_size_on_the_builder_only() {
    let field = slot(Type::Struct(10), Value::Struct);
    expect(
        &field,
        true,
        "::test_capnp::Foo::Reader<'a>",
        "FromStructReader::new(self.reader.get_pointer_field(3).get_struct( std::ptr::null()))",
    );
    expect(
        &field,
        false,
        "::test_capnp::Foo::Builder<'a>",
        "FromStructBuilder::new(self.builder.get_pointer_field(3).get_struct(::test_capnp::Foo::STRUCT_SIZE, std::ptr::null()))",
    );
}

#[test]
fn an_enum_is_read_as_an_optional_variant() {
    let field = slot(Type::Enum(11), Value::Enum(0));
    expect(
        &field,
        true,
        "Option<::test_capnp::Color::Reader>",
        "FromPrimitive::from_u16(self.reader.get_data_field::<u16>(3))",
    );
    expect(
        &field,
        false,
        "Option<::test_capnp::Color::Reader>",
        "FromPrimitive::from_u16(self.builder.get_data_field::<u16>(3))",
    );
}

#[test]
fn an_enum_with_another_default_is_read_masked_with_its_number() {
    let field = slot(Type::Enum(11), Value::Enum(2));
    expect(
        &field,
        true,
        "Option<::test_capnp::Color::Reader>",
        "FromPrimitive::from_u16(self.reader.get_data_field_mask::<u16>(3, 2u16))",
    );
    expect(
        &field,
        false,
        "Option<::test_capnp::Color::Reader>",
        "FromPrimitive::from_u16(self.builder.get_data_field_mask::<u16>(3, 2u16))",
    );
    expect(
        &slot(Type::Enum(11), Value::Enum(65535)),
        true,
        "Option<::test_capnp::Color::Reader>",
        "FromPrimitive::from_u16(self.reader.get_data_field_mask::<u16>(3, 65535u16))",
    );
}

#[test]
fn an_enum_whose_default_is_no_enumerant_is_read_unmasked() {
    for default in [Value::Void, Value::Uint16(7), Value::Text] {
        expect(
            &slot(Type::Enum(11), default),
            true,
            "Option<::test_capnp::Color::Reader>",
            "FromPrimitive::from_u16(self.reader.get_data_field::<u16>(3))",
        );
    }
    assert_eq!(getter(&slot(Type::Enum(11), Value::Unrecognized), true), Err(GenError::Malformed));
}

#[test]
fn an_interface_is_read_as_its_client() {
    expect(
        &slot(Type::Interface(12), Value::Interface),
        true,
        "::test_capnp::Iface::Client",
        "FromClientHook::new(self.reader.get_pointer_field(3).get_capability())",
    );
}

#[test]
fn an_any_pointer_is_read_as_a_raw_pointer() {
    expect(
        &slot(Type::AnyPointer, Value::AnyPointer),
        true,
        "any_pointer::Reader<'a>",
        "any_pointer::Reader::new(self.reader.get_pointer_field(3))",
    );
    expect(
        &slot(Type::AnyPointer, Value::AnyPointer),
        false,
        "any_pointer::Builder<'a>",
        "any_pointer::Builder::new(self.builder.get_pointer_field(3))",
    );
}

#[test]
fn a_group_is_read_from_the_handle_of_its_struct() {
    let group = Field {
        name: "grp".to_string(),
        discriminant_value: NO_DISCRIMINANT,
        kind: FieldKind::Group { type_id: 10 },
    };
    expect(&group, true, "::test_capnp::Foo::Reader<'a>", "FromStructReader::new(self.reader)");
    expect(&group, false, "::test_capnp::Foo::Builder<'a>", "FromStructBuilder::new(self.builder)");
}

#[test]
fn lists_of_primitives_carry_their_element_size() {
    let list = |elem: Type| slot(Type::List(Box::new(elem)), Value::List);
    expect(
        &list(Type::Uint16),
        true,
        "primitive_list::Reader<'a,u16>",
        "primitive_list::Reader::new(self.reader.get_pointer_field(3).get_list(layout::TwoBytes, std::ptr::null()))",
    );
    expect(
        &list(Type::Bool),
        false,
        "primitive_list::Builder<'a,bool>",
        "primitive_list::Builder::new(self.builder.get_pointer_field(3).get_list(layout::Bit, std::ptr::null()))",
    );
    expect(
        &list(Type::Void),
        true,
        "primitive_list::Reader<'a,()>",
        "primitive_list::Reader::new(self.reader.get_pointer_field(3).get_list(layout::Void, std::ptr::null()))",
    );
    expect(
        &list(Type::Float64),
        true,
        "primitive_list::Reader<'a,f64>",
        "primitive_list::Reader::new(self.reader.get_pointer_field(3).get_list(layout::EightBytes, std::ptr::null()))",
    );
}

#[test]
fn lists_of_enums_take_two_bytes_per_element() {
    let field = slot(Type::List(Box::new(Type::Enum(11))), Value::List);
    expect(
        &field,
        true,
        "enum_list::Reader<'a,::test_capnp::Color::Reader>",
        "enum_list::Reader::new(self.reader.get_pointer_field(3).get_list(layout::TwoBytes, std::ptr::null()))",
    );
    expect(
        &field,
        false,
        "enum_list::Builder<'a,::test_capnp::Color::Reader>",
        "enum_list::Builder::new(self.builder.get_pointer_field(3).get_list(layout::TwoBytes, std::ptr::null()))",
    );
}

#[test]
fn lists_of_structs_use_the_preferred_encoding_to_read_and_the_size_to_build() {
    let field = slot(Type::List(Box::new(Type::Struct(10))), Value::List);
    expect(
        &field,
        true,
        "struct_list::Reader<'a,::test_capnp::Foo::Reader<'a>>",
        "struct_list::Reader::new(self.reader.get_pointer_field(3).get_list(::test_capnp::Foo::STRUCT_SIZE.preferred_list_encoding, std::ptr::null()))",
    );
    expect(
        &field,
        false,
        "struct_list::Builder<'a,::test_capnp::Foo::Builder<'a>>",
        "struct_list::Builder::new(self.builder.get_pointer_field(3).get_struct_list(::test_capnp::Foo::STRUCT_SIZE, std::ptr::null()))",
    );
}

#[test]
fn lists_of_text_data_and_lists_hold_pointers() {
    let list = |elem: Type| slot(Type::List(Box::new(elem)), Value::List);
    expect(
        &list(Type::Text),
        true,
        "text_list::Reader<'a>",
        "text_list::Reader::new(self.reader.get_pointer_field(3).get_list(layout::Pointer, std::ptr::null()))",
    );
    expect(
        &list(Type::Data),
        false,
        "data_list::Builder<'a>",
        "data_list::Builder::new(self.builder.get_pointer_field(3).get_list(layout::Pointer, std::ptr::null()))",
    );
    expect(
        &list(Type::List(Box::new(Type::Uint8))),
        true,
        "list_list::Reader<'a,primitive_list::Reader<'a, u8>>",
        "list_list::Reader::new(self.reader.get_pointer_field(3).get_list(layout::Pointer, std::ptr::null()))",
    );
    expect(
        &list(Type::List(Box::new(Type::List(Box::new(Type::Struct(10)))))),
        false,
        "list_list::Builder<'a,list_list::Builder<'a, struct_list::Builder<'a, ::test_capnp::Foo::Builder<'a>>>>",
        "list_list::Builder::new(self.builder.get_pointer_field(3).get_list(layout::Pointer, std::ptr::null()))",
    );
}

#[test]
fn what_was_not_recognised_is_malformed() {
    let unknown =
        Field { name: "x".to_string(), discriminant_value: NO_DISCRIMINANT, kind: FieldKind::Unrecognized };
    assert_eq!(getter(&unknown, true), Err(GenError::Malformed));
    assert_eq!(getter(&slot(Type::Unrecognized, Value::Void), true), Err(GenError::Malformed));
    assert_eq!(getter(&slot(Type::Text, Value::Unrecognized), true), Err(GenError::Malformed));
    assert_eq!(
        getter(&slot(Type::List(Box::new(Type::Unrecognized)), Value::List), true),
        Err(GenError::Malformed)
    );
}

#[test]
fn a_default_of_another_type_is_malformed() {
    assert_eq!(getter(&slot(Type::Int8, Value::Int16(1)), true), Err(GenError::Malformed));
    assert_eq!(getter(&slot(Type::Bool, Value::Void), false), Err(GenError::Malformed));
    assert_eq!(getter(&slot(Type::Void, Value::Bool(false)), true), Err(GenError::Malformed));
    assert_eq!(getter(&slot(Type::Float32, Value::Uint32(0)), true), Err(GenError::Malformed));
}

#[test]
fn lists_of_any_pointers_and_of_interfaces_are_unsupported() {
    let list = |elem: Type| slot(Type::List(Box::new(elem)), Value::List);
    assert_eq!(getter(&list(Type::AnyPointer), true), Err(GenError::Unsupported));
    assert_eq!(getter(&list(Type::Interface(12)), false), Err(GenError::Unsupported));
    assert_eq!(
        getter(&list(Type::List(Box::new(Type::AnyPointer))), true),
        Err(GenError::Unsupported)
    );
}

#[test]
fn a_type_without_a_scope_is_missing() {
    assert_eq!(getter(&slot(Type::Struct(99), Value::Struct), true), Err(GenError::MissingNode));
    assert_eq!(getter(&slot(Type::Enum(99), Value::Enum(0)), true), Err(GenError::MissingNode));
    assert_eq!(getter(&slot(Type::Interface(99), Value::Interface), true), Err(GenError::MissingNode));
    let list = slot(Type::List(Box::new(Type::Struct(99))), Value::List);
    assert_eq!(getter(&list, true), Err(GenError::MissingNode));
    let group = Field {
        name: "grp".to_string(),
        discriminant_value: NO_DISCRIMINANT,
        kind: FieldKind::Group { type_id: 99 },
    };
    assert_eq!(getter(&group, true), Err(GenError::MissingNode));
}

#[test]
fn nested_list_parameters_are_written_recursively() {
    let scope = scope();
    let param = |typ: Type, is_reader: bool, lifetime: &str| {
        list_list_type_param(&scope, &typ, is_reader, lifetime)
    };
    assert_eq!(param(Type::Uint32, true, "'a"), Ok("primitive_list::Reader<'a, u32>".to_string()));
    assert_eq!(param(Type::Void, true, "'a"), Ok("primitive_list::Reader<'a, ()>".to_string()));
    assert_eq!(
        param(Type::Enum(11), false, "'b"),
        Ok("enum_list::Builder<'b,::test_capnp::Color::Reader>".to_string())
    );
    assert_eq!(param(Type::Text, true, "'a"), Ok("text_list::Reader<'a>".to_string()));
    assert_eq!(param(Type::Data, false, "'a"), Ok("data_list::Builder<'a>".to_string()));
    assert_eq!(
        param(Type::Struct(10), true, "'b"),
        Ok("struct_list::Reader<'b, ::test_capnp::Foo::Reader<'b>>".to_string())
    );
    assert_eq!(
        param(Type::List(Box::new(Type::List(Box::new(Type::Text)))), true, "'a"),
        Ok("list_list::Reader<'a, list_list::Reader<'a, text_list::Reader<'a>>>".to_string())
    );
    assert_eq!(param(Type::AnyPointer, true, "'a"), Err(GenError::Unsupported));
    assert_eq!(param(Type::Interface(12), true, "'a"), Err(GenError::Unsupported));
    assert_eq!(param(Type::Unrecognized, true, "'a"), Err(GenError::Malformed));
    assert_eq!(param(Type::Struct(99), true, "'a"), Err(GenError::MissingNode));
    assert_eq!(
        param(Type::List(Box::new(Type::Enum(99))), true, "'a"),
        Err(GenError::MissingNode)
    );
}

#[test]
fn primitive_types_have_their_rust_names() {
    assert_eq!(prim_type_str(&Type::Void), "()");
    assert_eq!(prim_type_str(&Type::Bool), "bool");
    assert_eq!(prim_type_str(&Type::Int8), "i8");
    assert_eq!(prim_type_str(&Type::Int16), "i16");
    assert_eq!(prim_type_str(&Type::Int32), "i32");
    assert_eq!(prim_type_str(&Type::Int64), "i64");
    assert_eq!(prim_type_str(&Type::Uint8), "u8");
    assert_eq!(prim_type_str(&Type::Uint16), "u16");
    assert_eq!(prim_type_str(&Type::Uint32), "u32");
    assert_eq!(prim_type_str(&Type::Uint64), "u64");
    assert_eq!(prim_type_str(&Type::Float32), "f32");
    assert_eq!(prim_type_str(&Type::Float64), "f64");
    assert_eq!(prim_type_str(&Type::Enum(7)), "u16");
}

#[test]
fn primitive_types_have_their_element_sizes() {
    assert_eq!(element_size(&Type::Void), ElementSize::Empty);
    assert_eq!(element_size(&Type::Bool), ElementSize::Bit);
    assert_eq!(element_size(&Type::Int8), ElementSize::Byte);
    assert_eq!(element_size(&Type::Uint8), ElementSize::Byte);
    assert_eq!(element_size(&Type::Int16), ElementSize::TwoBytes);
    assert_eq!(element_size(&Type::Uint16), ElementSize::TwoBytes);
    assert_eq!(element_size(&Type::Int32), ElementSize::FourBytes);
    assert_eq!(element_size(&Type::Uint32), ElementSize::FourBytes);
    assert_eq!(element_size(&Type::Float32), ElementSize::FourBytes);
    assert_eq!(element_size(&Type::Int64), ElementSize::EightBytes);
    assert_eq!(element_size(&Type::Uint64), ElementSize::EightBytes);
    assert_eq!(element_size(&Type::Float64), ElementSize::EightBytes);
}

#[test]
fn element_sizes_have_their_runtime_names() {
    assert_eq!(element_size_str(ElementSize::Empty), "Void");
    assert_eq!(element_size_str(ElementSize::Bit), "Bit");
    assert_eq!(element_size_str(ElementSize::Byte), "Byte");
    assert_eq!(element_size_str(ElementSize::TwoBytes), "TwoBytes");
    assert_eq!(element_size_str(ElementSize::FourBytes), "FourBytes");
    assert_eq!(element_size_str(ElementSize::EightBytes), "EightBytes");
    assert_eq!(element_size_str(ElementSize::Pointer), "Pointer");
    assert_eq!(element_size_str(ElementSize::InlineComposite), "InlineComposite");
}

#[test]
fn a_zero_default_has_no_mask() {
    assert_eq!(prim_default(&Value::Bool(false)), None);
    assert_eq!(prim_default(&Value::Int8(0)), None);
    assert_eq!(prim_default(&Value::Int16(0)), None);
    assert_eq!(prim_default(&Value::Int32(0)), None);
    assert_eq!(prim_default(&Value::Int64(0)), None);
    assert_eq!(prim_default(&Value::Uint8(0)), None);
    assert_eq!(prim_default(&Value::Uint16(0)), None);
    assert_eq!(prim_default(&Value::Uint32(0)), None);
    assert_eq!(prim_default(&Value::Uint64(0)), None);
    assert_eq!(prim_default(&Value::Float32 { bits: 0, text: "0".to_string() }), None);
    assert_eq!(
        prim_default(&Value::Float64 { bits: (-0.0f64).to_bits(), text: "-0".to_string() }),
        None
    );
}

#[test]
fn another_default_is_its_own_mask() {
    assert_eq!(prim_default(&Value::Bool(true)), Some("true".to_string()));
    assert_eq!(prim_default(&Value::Int8(-1)), Some("-1".to_string()));
    assert_eq!(prim_default(&Value::Int16(300)), Some("300".to_string()));
    assert_eq!(prim_default(&Value::Int32(-70000)), Some("-70000".to_string()));
    assert_eq!(prim_default(&Value::Int64(1 << 40)), Some("1099511627776".to_string()));
    assert_eq!(prim_default(&Value::Uint8(255)), Some("255".to_string()));
    assert_eq!(prim_default(&Value::Uint16(1)), Some("1".to_string()));
    assert_eq!(prim_default(&Value::Uint32(u32::MAX)), Some("4294967295".to_string()));
    assert_eq!(prim_default(&Value::Uint64(u64::MAX)), Some("18446744073709551615".to_string()));
    assert_eq!(
        prim_default(&Value::Float32 { bits: 0.5f32.to_bits(), text: "0.5".to_string() }),
        Some("0.5f32".to_string())
    );
    assert_eq!(
        prim_default(&Value::Float64 { bits: 1e10f64.to_bits(), text: "10000000000".to_string() }),
        Some("10000000000f64".to_string())
    );
}

#[test]
fn the_first_enumerant_is_the_zero_of_an_enum() {
    assert!(Value::Enum(0).zero());
    assert!(!Value::Enum(1).zero());
    assert_eq!(Value::Enum(7).default_enumerant(), 7);
    assert_eq!(Value::Enum(0).default_enumerant(), 0);
    assert_eq!(Value::Uint16(7).default_enumerant(), 0);
    assert_eq!(Value::Void.default_enumerant(), 0);
}
