//! The module generated for a struct: reader, builder and pipeline.
use crate::accessors::{
    generate_haser, generate_import_statements, generate_pipeline_getter, haser_text,
    import_statements, pipeline_getter_error, pipeline_getter_text,
};
use crate::error::{delivers, GenError};
use crate::getter::{getter_error, getter_expr, getter_text, getter_type};
use crate::ident::{camel_to_snake_case, is_alphanumeric_name, is_identifier, snake};
use crate::schema::{Field, Node, StructNode, NO_DISCRIMINANT};
use crate::scope::paths;
use crate::setter::{generate_setter, setter_error, setter_text};
use crate::strings::{decimal, unsigned_to_string};
use crate::text::{
    blank, branch, indent, line, line_of, no_items, push_item, push_line, trees_of, FormattedText,
    TextTree,
};
use crate::types::{element_size_name, element_size_str};
use crate::which::{generate_union, targets, union_error, union_text, which_getter, which_typedef};
use std::collections::HashMap;
use vstd::prelude::*;

verus! {

/// The getter of `field`, named after the field in snake case.
pub open spec fn getter_method(
    scope: Map<u64, Seq<Seq<char>>>,
    field: Field,
    is_reader: bool,
) -> TextTree {
    TextTree::Branch(
        Seq::empty().push(TextTree::Line("#[inline]"@)).push(
            TextTree::Line(
                "pub fn get_"@ + snake(field.name@) + "(&self) -> "@ + getter_type(
                    scope,
                    field,
                    is_reader,
                ) + " {"@,
            ),
        ).push(
            TextTree::Indent(Box::new(TextTree::Line(getter_expr(scope, field, is_reader)))),
        ).push(TextTree::Line("}"@)),
    )
}

/// What `field` adds to the reader: its getter, unless it is a member of the
/// union, and its `has_` predicate.
pub open spec fn reader_member(
    scope: Map<u64, Seq<Seq<char>>>,
    discriminant_offset: u32,
    field: Field,
) -> TextTree {
    let haser = haser_text(discriminant_offset, snake(field.name@), field, true);
    if field.in_union() {
        TextTree::Branch(Seq::empty().push(haser))
    } else {
        TextTree::Branch(Seq::empty().push(getter_method(scope, field, true)).push(haser))
    }
}

/// What `field` adds to the builder: its getter, unless it is a member of the
/// union, its setter and initialiser, and its `has_` predicate.
pub open spec fn builder_member(
    nodes: Map<u64, Node>,
    scope: Map<u64, Seq<Seq<char>>>,
    discriminant_offset: u32,
    field: Field,
) -> TextTree {
    let setter = setter_text(nodes, scope, discriminant_offset, snake(field.name@), field);
    let haser = haser_text(discriminant_offset, snake(field.name@), field, false);
    if field.in_union() {
        TextTree::Branch(Seq::empty().push(setter).push(haser))
    } else {
        TextTree::Branch(
            Seq::empty().push(getter_method(scope, field, false)).push(setter).push(haser),
        )
    }
}

/// What `field` adds to the pipeline: its getter, unless it is a member of
/// the union.
pub open spec fn pipeline_member(scope: Map<u64, Seq<Seq<char>>>, field: Field) -> TextTree {
    if field.in_union() {
        TextTree::Branch(Seq::empty())
    } else {
        pipeline_getter_text(scope, field)
    }
}

/// Why `field` has no accessors.
pub open spec fn field_error(
    nodes: Map<u64, Node>,
    scope: Map<u64, Seq<Seq<char>>>,
    field: Field,
) -> Option<GenError> {
    if !is_identifier(field.name@) {
        Some(GenError::InvalidIdentifier)
    } else if !field.in_union() && pipeline_getter_error(scope, field) is Some {
        pipeline_getter_error(scope, field)
    } else if !field.in_union() && getter_error(scope, field) is Some {
        getter_error(scope, field)
    } else {
        setter_error(nodes, scope, field)
    }
}

/// Why the accessors of `fields` cannot be generated: the failure of the
/// first field that has one.
pub open spec fn fields_error(
    nodes: Map<u64, Node>,
    scope: Map<u64, Seq<Seq<char>>>,
    fields: Seq<Field>,
) -> Option<GenError>
    decreases fields.len(),
{
    if fields.len() == 0 {
        None
    } else {
        match fields_error(nodes, scope, fields.drop_last()) {
            Some(e) => Some(e),
            None => field_error(nodes, scope, fields.last()),
        }
    }
}

/// The members of the union among `fields`, in order.
pub open spec fn union_members(fields: Seq<Field>) -> Seq<Field> {
    fields.filter(|f: Field| f.in_union())
}

/// Why the module of the struct `st` cannot be generated.
pub open spec fn struct_error(
    nodes: Map<u64, Node>,
    scope: Map<u64, Seq<Seq<char>>>,
    st: StructNode,
) -> Option<GenError> {
    if st.preferred_list_encoding is None {
        Some(GenError::Malformed)
    } else if fields_error(nodes, scope, st.fields@) is Some {
        fields_error(nodes, scope, st.fields@)
    } else if st.discriminant_count > 0 {
        union_error(scope, union_members(st.fields@))
    } else {
        None
    }
}

/// What a struct module starts with: the imports and, unless the struct is a
/// group, the constant that holds its size.
pub open spec fn preamble_text(st: StructNode) -> TextTree {
    let imports = Seq::empty().push(import_statements()).push(TextTree::Blank);
    if st.is_group {
        TextTree::Branch(imports)
    } else {
        TextTree::Branch(
            imports.push(TextTree::Line("pub static STRUCT_SIZE : layout::StructSize ="@)).push(
                TextTree::Indent(
                    Box::new(
                        TextTree::Line(
                            "layout::StructSize { data : "@ + decimal(st.data_word_count as nat)
                                + ", pointers : "@ + decimal(st.pointer_count as nat)
                                + ", preferred_list_encoding : layout::"@ + element_size_name(
                                st.preferred_list_encoding->Some_0,
                            ) + "};"@,
                        ),
                    ),
                ),
            ).push(TextTree::Blank).push(TextTree::Blank),
        )
    }
}

/// The reader: the type, its conversions, and its members.
pub open spec fn reader_text(members: Seq<TextTree>) -> TextTree {
    TextTree::Branch(
        Seq::empty().push(
            TextTree::Line("pub struct Reader<'a> { reader : layout::StructReader<'a> }"@),
        ).push(TextTree::Blank).push(
            TextTree::Line("impl <'a> layout::FromStructReader<'a> for Reader<'a> {"@),
        ).push(
            TextTree::Indent(
                Box::new(
                    TextTree::Branch(
                        Seq::empty().push(
                            TextTree::Line(
                                "fn new(reader: layout::StructReader<'a>) -> Reader<'a> {"@,
                            ),
                        ).push(
                            TextTree::Indent(
                                Box::new(TextTree::Line("Reader { reader : reader }"@)),
                            ),
                        ).push(TextTree::Line("}"@)),
                    ),
                ),
            ),
        ).push(TextTree::Line("}"@)).push(TextTree::Blank).push(
            TextTree::Line("impl <'a> layout::ToStructReader<'a> for Reader<'a> {"@),
        ).push(
            TextTree::Indent(
                Box::new(
                    TextTree::Line(
                        "fn struct_reader(&self) -> layout::StructReader<'a> { self.reader }"@,
                    ),
                ),
            ),
        ).push(TextTree::Line("}"@)).push(TextTree::Blank).push(
            TextTree::Line("impl <'a> Reader<'a> {"@),
        ).push(TextTree::Indent(Box::new(TextTree::Branch(members)))).push(
            TextTree::Line("}"@),
        ).push(TextTree::Blank),
    )
}

/// How the builder of a struct that is no group tells the runtime its size.
pub open spec fn struct_size_text(st: StructNode) -> TextTree {
    if st.is_group {
        TextTree::Branch(Seq::empty())
    } else {
        TextTree::Branch(
            Seq::empty().push(
                TextTree::Line("impl <'a> layout::HasStructSize for Builder<'a> {"@),
            ).push(
                TextTree::Indent(
                    Box::new(
                        TextTree::Branch(
                            Seq::empty().push(TextTree::Line("#[inline]"@)).push(
                                TextTree::Line(
                                    "fn struct_size(_unused_self : Option<Builder>) -> layout::StructSize { STRUCT_SIZE }"@,
                                ),
                            ),
                        ),
                    ),
                ),
            ).push(TextTree::Line("}"@)),
        )
    }
}

/// The builder: the type, its conversions, and its members.
pub open spec fn builder_text(st: StructNode, members: Seq<TextTree>) -> TextTree {
    TextTree::Branch(
        Seq::empty().push(
            TextTree::Line("pub struct Builder<'a> { builder : layout::StructBuilder<'a> }"@),
        ).push(struct_size_text(st)).push(
            TextTree::Line("impl <'a> layout::FromStructBuilder<'a> for Builder<'a> {"@),
        ).push(
            TextTree::Indent(
                Box::new(
                    TextTree::Branch(
                        Seq::empty().push(
                            TextTree::Line(
                                "fn new(builder : layout::StructBuilder<'a>) -> Builder<'a> {"@,
                            ),
                        ).push(
                            TextTree::Indent(
                                Box::new(TextTree::Line("Builder { builder : builder }"@)),
                            ),
                        ).push(TextTree::Line("}"@)),
                    ),
                ),
            ),
        ).push(TextTree::Line("}"@)).push(TextTree::Line("impl <'a> Builder<'a> {"@)).push(
            TextTree::Indent(
                Box::new(
                    TextTree::Branch(
                        Seq::empty().push(
                            TextTree::Line("pub fn as_reader(&self) -> Reader<'a> {"@),
                        ).push(
                            TextTree::Indent(
                                Box::new(
                                    TextTree::Line(
                                        "FromStructReader::new(self.builder.as_reader())"@,
                                    ),
                                ),
                            ),
                        ).push(TextTree::Line("}"@)),
                    ),
                ),
            ),
        ).push(TextTree::Indent(Box::new(TextTree::Branch(members)))).push(
            TextTree::Line("}"@),
        ).push(TextTree::Blank),
    )
}

/// The pipeline: the type, its conversion, and its members.
pub open spec fn pipeline_text(members: Seq<TextTree>) -> TextTree {
    TextTree::Branch(
        Seq::empty().push(
            TextTree::Line("pub struct Pipeline { _typeless : any_pointer::Pipeline }"@),
        ).push(TextTree::Line("impl FromTypelessPipeline for Pipeline {"@)).push(
            TextTree::Indent(
                Box::new(
                    TextTree::Branch(
                        Seq::empty().push(
                            TextTree::Line(
                                "fn new(typeless : any_pointer::Pipeline) -> Pipeline {"@,
                            ),
                        ).push(
                            TextTree::Indent(
                                Box::new(TextTree::Line("Pipeline { _typeless : typeless }"@)),
                            ),
                        ).push(TextTree::Line("}"@)),
                    ),
                ),
            ),
        ).push(TextTree::Line("}"@)).push(TextTree::Line("impl Pipeline {"@)).push(
            TextTree::Indent(Box::new(TextTree::Branch(members))),
        ).push(TextTree::Line("}"@)),
    )
}

/// The members of the reader: what each field adds, in order, and then the
/// accessor of the union where the struct has one.
pub open spec fn reader_members(scope: Map<u64, Seq<Seq<char>>>, st: StructNode) -> Seq<TextTree> {
    let members = Seq::new(
        st.fields@.len(),
        |i: int| reader_member(scope, st.discriminant_offset, st.fields@[i]),
    );
    if st.discriminant_count > 0 {
        members.push(
            which_getter(scope, st.discriminant_offset, union_members(st.fields@), true),
        )
    } else {
        members
    }
}

/// The members of the builder: what each field adds, in order, and then the
/// accessor of the union where the struct has one.
pub open spec fn builder_members(
    nodes: Map<u64, Node>,
    scope: Map<u64, Seq<Seq<char>>>,
    st: StructNode,
) -> Seq<TextTree> {
    let members = Seq::new(
        st.fields@.len(),
        |i: int| builder_member(nodes, scope, st.discriminant_offset, st.fields@[i]),
    );
    if st.discriminant_count > 0 {
        members.push(
            which_getter(scope, st.discriminant_offset, union_members(st.fields@), false),
        )
    } else {
        members
    }
}

/// The members of the pipeline: what each field adds, in order.
pub open spec fn pipeline_members(
    scope: Map<u64, Seq<Seq<char>>>,
    st: StructNode,
) -> Seq<TextTree> {
    Seq::new(st.fields@.len(), |i: int| pipeline_member(scope, st.fields@[i]))
}

/// The declarations of the union, where the struct has one: the enum, and
/// the type aliases of the reader and of the builder.
pub open spec fn which_enums(scope: Map<u64, Seq<Seq<char>>>, st: StructNode) -> Seq<TextTree> {
    if st.discriminant_count > 0 {
        Seq::empty().push(union_text(scope, union_members(st.fields@), true)).push(
            which_typedef(scope, union_members(st.fields@), true),
        ).push(which_typedef(scope, union_members(st.fields@), false))
    } else {
        Seq::empty()
    }
}

/// The module of the struct `st` under the name `name`, with `nested` as the
/// modules of what is declared inside it.
pub open spec fn struct_text(
    nodes: Map<u64, Node>,
    scope: Map<u64, Seq<Seq<char>>>,
    st: StructNode,
    name: Seq<char>,
    nested: Seq<TextTree>,
) -> TextTree {
    TextTree::Branch(
        Seq::empty().push(TextTree::Blank).push(TextTree::Line("pub mod "@ + name + " {"@)).push(
            TextTree::Indent(
                Box::new(
                    TextTree::Branch(
                        Seq::empty().push(
                            TextTree::Branch(
                                Seq::empty().push(preamble_text(st)).push(
                                    reader_text(reader_members(scope, st)),
                                ).push(builder_text(st, builder_members(nodes, scope, st))).push(
                                    pipeline_text(pipeline_members(scope, st)),
                                ),
                            ),
                        ).push(TextTree::Branch(which_enums(scope, st))).push(
                            TextTree::Branch(nested),
                        ),
                    ),
                ),
            ),
        ).push(TextTree::Line("}"@)),
    )
}

/// The reader and the builder have the same members, place by place: what
/// `fields[i]` adds to the one stands where it stands in the other. For each
/// field outside the union both start with the field's getter, and for every
/// field both end with the field's `has_` predicate.
pub proof fn lemma_reader_matches_builder(
    nodes: Map<u64, Node>,
    scope: Map<u64, Seq<Seq<char>>>,
    st: StructNode,
    i: int,
)
    requires
        0 <= i < st.fields@.len(),
    ensures
        reader_members(scope, st).len() == builder_members(nodes, scope, st).len(),
        reader_members(scope, st)[i] == reader_member(scope, st.discriminant_offset, st.fields@[i]),
        builder_members(nodes, scope, st)[i] == builder_member(
            nodes,
            scope,
            st.discriminant_offset,
            st.fields@[i],
        ),
        !st.fields@[i].in_union() ==> {
            &&& reader_members(scope, st)[i]->Branch_0[0] == getter_method(
                scope,
                st.fields@[i],
                true,
            )
            &&& builder_members(nodes, scope, st)[i]->Branch_0[0] == getter_method(
                scope,
                st.fields@[i],
                false,
            )
        },
        reader_members(scope, st)[i]->Branch_0.last() == haser_text(
            st.discriminant_offset,
            snake(st.fields@[i].name@),
            st.fields@[i],
            true,
        ),
        builder_members(nodes, scope, st)[i]->Branch_0.last() == haser_text(
            st.discriminant_offset,
            snake(st.fields@[i].name@),
            st.fields@[i],
            false,
        ),
{
}

/// Where the struct has a union, the reader and the builder both end with
/// the accessor `which()` of the union's members.
pub proof fn lemma_union_is_read_on_both_sides(
    nodes: Map<u64, Node>,
    scope: Map<u64, Seq<Seq<char>>>,
    st: StructNode,
)
    requires
        st.discriminant_count > 0,
    ensures
        reader_members(scope, st).last() == which_getter(
            scope,
            st.discriminant_offset,
            union_members(st.fields@),
            true,
        ),
        builder_members(nodes, scope, st).last() == which_getter(
            scope,
            st.discriminant_offset,
            union_members(st.fields@),
            false,
        ),
{
}

/// Once a field has failed, the fields after it do not change the failure.
proof fn lemma_first_error_stays(
    nodes: Map<u64, Node>,
    scope: Map<u64, Seq<Seq<char>>>,
    fields: Seq<Field>,
    n: int,
)
    requires
        0 <= n <= fields.len(),
        fields_error(nodes, scope, fields.take(n)) is Some,
    ensures
        fields_error(nodes, scope, fields) == fields_error(nodes, scope, fields.take(n)),
    decreases fields.len() - n,
{
    if n < fields.len() {
        assert(fields.take(n + 1).drop_last() =~= fields.take(n));
        lemma_first_error_stays(nodes, scope, fields, n + 1);
    } else {
        assert(fields.take(n) =~= fields);
    }
}

fn getter_method_text(
    node_map: &HashMap<u64, Node>,
    scope_map: &HashMap<u64, Vec<String>>,
    styled_name: &str,
    field: &Field,
    is_reader: bool,
) -> (r: Result<FormattedText, GenError>)
    requires
        styled_name@ == snake(field.name@),
    ensures
        delivers(
            r,
            getter_error(paths(scope_map@), *field),
            getter_method(paths(scope_map@), *field, is_reader),
        ),
{
    let (ty, get) = getter_text(node_map, scope_map, field, is_reader)?;
    let mut items = no_items();
    push_line(&mut items, "#[inline]");
    push_item(
        &mut items,
        line_of(
            String::from_str("pub fn get_").concat(styled_name).concat("(&self) -> ").concat(
                ty.as_str(),
            ).concat(" {"),
        ),
    );
    push_item(&mut items, indent(get));
    push_line(&mut items, "}");
    Ok(branch(items))
}

/// What one field adds to the reader, to the builder and to the pipeline.
fn field_members(
    node_map: &HashMap<u64, Node>,
    scope_map: &HashMap<u64, Vec<String>>,
    discriminant_offset: u32,
    field: &Field,
) -> (r: Result<(FormattedText, FormattedText, FormattedText), GenError>)
    ensures
        match field_error(node_map@, paths(scope_map@), *field) {
            Some(e) => r == Err::<(FormattedText, FormattedText, FormattedText), GenError>(e),
            None => r is Ok && r->Ok_0.0@ == reader_member(
                paths(scope_map@),
                discriminant_offset,
                *field,
            ) && r->Ok_0.1@ == builder_member(
                node_map@,
                paths(scope_map@),
                discriminant_offset,
                *field,
            ) && r->Ok_0.2@ == pipeline_member(paths(scope_map@), *field),
        },
{
    if !is_alphanumeric_name(field.name.as_str()) {
        return Err(GenError::InvalidIdentifier);
    }
    let styled_name = camel_to_snake_case(field.name.as_str());
    let mut reader = no_items();
    let mut builder = no_items();
    let pipeline = if field.discriminant_value == NO_DISCRIMINANT {
        let pipeline = generate_pipeline_getter(node_map, scope_map, field)?;
        push_item(
            &mut reader,
            getter_method_text(node_map, scope_map, styled_name.as_str(), field, true)?,
        );
        push_item(
            &mut builder,
            getter_method_text(node_map, scope_map, styled_name.as_str(), field, false)?,
        );
        pipeline
    } else {
        branch(no_items())
    };
    push_item(
        &mut builder,
        generate_setter(node_map, scope_map, discriminant_offset, styled_name.as_str(), field)?,
    );
    push_item(
        &mut reader,
        generate_haser(discriminant_offset, styled_name.as_str(), field, true),
    );
    push_item(
        &mut builder,
        generate_haser(discriminant_offset, styled_name.as_str(), field, false),
    );
    Ok((branch(reader), branch(builder), pipeline))
}

fn preamble(st: &StructNode) -> (r: FormattedText)
    requires
        st.preferred_list_encoding is Some,
    ensures
        r@ == preamble_text(*st),
{
    let mut items = no_items();
    push_item(&mut items, generate_import_statements());
    push_item(&mut items, blank());
    if !st.is_group {
        let encoding = match st.preferred_list_encoding {
            Some(e) => e,
            None => crate::schema::ElementSize::Empty,
        };
        push_line(&mut items, "pub static STRUCT_SIZE : layout::StructSize =");
        push_item(
            &mut items,
            indent(
                line_of(
                    String::from_str("layout::StructSize { data : ").concat(
                        unsigned_to_string(st.data_word_count as u64).as_str(),
                    ).concat(", pointers : ").concat(
                        unsigned_to_string(st.pointer_count as u64).as_str(),
                    ).concat(", preferred_list_encoding : layout::").concat(
                        element_size_str(encoding),
                    ).concat("};"),
                ),
            ),
        );
        push_item(&mut items, blank());
        push_item(&mut items, blank());
    }
    branch(items)
}

fn reader_block(members: Vec<FormattedText>) -> (r: FormattedText)
    ensures
        r@ == reader_text(trees_of(members@)),
{
    let mut constructor = no_items();
    push_line(&mut constructor, "fn new(reader: layout::StructReader<'a>) -> Reader<'a> {");
    push_item(&mut constructor, indent(line("Reader { reader : reader }")));
    push_line(&mut constructor, "}");
    let mut items = no_items();
    push_line(&mut items, "pub struct Reader<'a> { reader : layout::StructReader<'a> }");
    push_item(&mut items, blank());
    push_line(&mut items, "impl <'a> layout::FromStructReader<'a> for Reader<'a> {");
    push_item(&mut items, indent(branch(constructor)));
    push_line(&mut items, "}");
    push_item(&mut items, blank());
    push_line(&mut items, "impl <'a> layout::ToStructReader<'a> for Reader<'a> {");
    push_item(
        &mut items,
        indent(line("fn struct_reader(&self) -> layout::StructReader<'a> { self.reader }")),
    );
    push_line(&mut items, "}");
    push_item(&mut items, blank());
    push_line(&mut items, "impl <'a> Reader<'a> {");
    push_item(&mut items, indent(branch(members)));
    push_line(&mut items, "}");
    push_item(&mut items, blank());
    branch(items)
}

fn struct_size_block(st: &StructNode) -> (r: FormattedText)
    ensures
        r@ == struct_size_text(*st),
{
    let mut items = no_items();
    if !st.is_group {
        let mut body = no_items();
        push_line(&mut body, "#[inline]");
        push_line(
            &mut body,
            "fn struct_size(_unused_self : Option<Builder>) -> layout::StructSize { STRUCT_SIZE }",
        );
        push_line(&mut items, "impl <'a> layout::HasStructSize for Builder<'a> {");
        push_item(&mut items, indent(branch(body)));
        push_line(&mut items, "}");
    }
    branch(items)
}

fn builder_block(st: &StructNode, members: Vec<FormattedText>) -> (r: FormattedText)
    ensures
        r@ == builder_text(*st, trees_of(members@)),
{
    let mut constructor = no_items();
    push_line(&mut constructor, "fn new(builder : layout::StructBuilder<'a>) -> Builder<'a> {");
    push_item(&mut constructor, indent(line("Builder { builder : builder }")));
    push_line(&mut constructor, "}");
    let mut conversion = no_items();
    push_line(&mut conversion, "pub fn as_reader(&self) -> Reader<'a> {");
    push_item(&mut conversion, indent(line("FromStructReader::new(self.builder.as_reader())")));
    push_line(&mut conversion, "}");
    let mut items = no_items();
    push_line(&mut items, "pub struct Builder<'a> { builder : layout::StructBuilder<'a> }");
    push_item(&mut items, struct_size_block(st));
    push_line(&mut items, "impl <'a> layout::FromStructBuilder<'a> for Builder<'a> {");
    push_item(&mut items, indent(branch(constructor)));
    push_line(&mut items, "}");
    push_line(&mut items, "impl <'a> Builder<'a> {");
    push_item(&mut items, indent(branch(conversion)));
    push_item(&mut items, indent(branch(members)));
    push_line(&mut items, "}");
    push_item(&mut items, blank());
    branch(items)
}

fn pipeline_block(members: Vec<FormattedText>) -> (r: FormattedText)
    ensures
        r@ == pipeline_text(trees_of(members@)),
{
    let mut constructor = no_items();
    push_line(&mut constructor, "fn new(typeless : any_pointer::Pipeline) -> Pipeline {");
    push_item(&mut constructor, indent(line("Pipeline { _typeless : typeless }")));
    push_line(&mut constructor, "}");
    let mut items = no_items();
    push_line(&mut items, "pub struct Pipeline { _typeless : any_pointer::Pipeline }");
    push_line(&mut items, "impl FromTypelessPipeline for Pipeline {");
    push_item(&mut items, indent(branch(constructor)));
    push_line(&mut items, "}");
    push_line(&mut items, "impl Pipeline {");
    push_item(&mut items, indent(branch(members)));
    push_line(&mut items, "}");
    branch(items)
}

/// The module of the struct `st` under the name `node_name`. `nested` holds
/// the modules of what is declared inside the struct; they come last.
#[verifier::loop_isolation(false)]
pub fn generate_struct(
    node_map: &HashMap<u64, Node>,
    scope_map: &HashMap<u64, Vec<String>>,
    st: &StructNode,
    node_name: &str,
    nested: Vec<FormattedText>,
) -> (r: Result<FormattedText, GenError>)
    ensures
        delivers(
            r,
            struct_error(node_map@, paths(scope_map@), *st),
            struct_text(node_map@, paths(scope_map@), *st, node_name@, trees_of(nested@)),
        ),
{
    let ghost nodes = node_map@;
    let ghost scope = paths(scope_map@);
    if st.preferred_list_encoding.is_none() {
        return Err(GenError::Malformed);
    }
    let mut reader_members = no_items();
    let mut builder_members = no_items();
    let mut pipeline_members = no_items();
    let mut union_fields: Vec<&Field> = Vec::new();
    let mut i: usize = 0;
    proof {
        reveal(Seq::filter);
        assert(st.fields@.take(0) =~= Seq::<Field>::empty());
        assert(targets(union_fields@) =~= union_members(st.fields@.take(0)));
        assert(trees_of(reader_members@) =~= Seq::new(
            0,
            |j: int| reader_member(scope, st.discriminant_offset, st.fields@[j]),
        ));
        assert(trees_of(builder_members@) =~= Seq::new(
            0,
            |j: int| builder_member(nodes, scope, st.discriminant_offset, st.fields@[j]),
        ));
        assert(trees_of(pipeline_members@) =~= Seq::new(
            0,
            |j: int| pipeline_member(scope, st.fields@[j]),
        ));
    }
    while i < st.fields.len()
        invariant
            i <= st.fields.len(),
            fields_error(nodes, scope, st.fields@.take(i as int)) is None,
            targets(union_fields@) == union_members(st.fields@.take(i as int)),
            trees_of(reader_members@) == Seq::new(
                i as nat,
                |j: int| reader_member(scope, st.discriminant_offset, st.fields@[j]),
            ),
            trees_of(builder_members@) == Seq::new(
                i as nat,
                |j: int| builder_member(nodes, scope, st.discriminant_offset, st.fields@[j]),
            ),
            trees_of(pipeline_members@) == Seq::new(
                i as nat,
                |j: int| pipeline_member(scope, st.fields@[j]),
            ),
        decreases st.fields.len() - i,
    {
        let field = &st.fields[i];
        proof {
            assert(st.fields@.take(i + 1).drop_last() =~= st.fields@.take(i as int));
            assert(st.fields@.take(i + 1).last() == *field);
            assert(fields_error(nodes, scope, st.fields@.take(i + 1)) == field_error(
                nodes,
                scope,
                *field,
            ));
        }
        match field_members(node_map, scope_map, st.discriminant_offset, field) {
            Ok((reader, builder, pipeline)) => {
                push_item(&mut reader_members, reader);
                push_item(&mut builder_members, builder);
                push_item(&mut pipeline_members, pipeline);
            },
            Err(e) => {
                proof {
                    lemma_first_error_stays(nodes, scope, st.fields@, i + 1);
                }
                return Err(e);
            },
        }
        if field.discriminant_value != NO_DISCRIMINANT {
            union_fields.push(field);
        }
        proof {
            reveal(Seq::filter);
            assert(targets(union_fields@) =~= union_members(st.fields@.take(i + 1)));
            assert(trees_of(reader_members@) =~= Seq::new(
                (i + 1) as nat,
                |j: int| reader_member(scope, st.discriminant_offset, st.fields@[j]),
            ));
            assert(trees_of(builder_members@) =~= Seq::new(
                (i + 1) as nat,
                |j: int| builder_member(nodes, scope, st.discriminant_offset, st.fields@[j]),
            ));
            assert(trees_of(pipeline_members@) =~= Seq::new(
                (i + 1) as nat,
                |j: int| pipeline_member(scope, st.fields@[j]),
            ));
        }
        i += 1;
    }
    assert(st.fields@.take(st.fields.len() as int) =~= st.fields@);

    let mut enums = no_items();
    if st.discriminant_count > 0 {
        let (declaration, union_getter, typedef) = generate_union(
            node_map,
            scope_map,
            st.discriminant_offset,
            &union_fields,
            true,
        )?;
        push_item(&mut enums, declaration);
        push_item(&mut enums, typedef);
        push_item(&mut reader_members, union_getter);
        let (_, union_getter, typedef) = generate_union(
            node_map,
            scope_map,
            st.discriminant_offset,
            &union_fields,
            false,
        )?;
        push_item(&mut enums, typedef);
        push_item(&mut builder_members, union_getter);
    }
    let mut accessors = no_items();
    push_item(&mut accessors, preamble(st));
    push_item(&mut accessors, reader_block(reader_members));
    push_item(&mut accessors, builder_block(st, builder_members));
    push_item(&mut accessors, pipeline_block(pipeline_members));

    let mut interior = no_items();
    push_item(&mut interior, branch(accessors));
    push_item(&mut interior, branch(enums));
    push_item(&mut interior, branch(nested));

    let mut output = no_items();
    push_item(&mut output, blank());
    push_item(&mut output, line_of(String::from_str("pub mod ").concat(node_name).concat(" {")));
    push_item(&mut output, indent(branch(interior)));
    push_line(&mut output, "}");
    Ok(branch(output))
}

} // verus!
