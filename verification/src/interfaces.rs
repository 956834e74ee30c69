//! The module generated for an interface: client, server trait and dispatch.
use crate::error::{delivers, GenError};
use crate::ident::{
    camel_to_snake_case, capitalize_first_letter, capitalized, is_alphanumeric_name, is_identifier,
    snake,
};
use crate::schema::{InterfaceNode, Method, Node};
use crate::scope::{lookup_error, module_of, name_error, own_name, paths, qualified_name};
use crate::strings::{
    decimal, hexadecimal, join, joined, push_string, to_hex_string, unsigned_to_string, views,
};
use crate::text::{
    blank, branch, indent, line, line_of, no_items, push_item, push_line, trees_of, FormattedText,
    TextTree,
};
use std::collections::HashMap;
use vstd::prelude::*;

verus! {

broadcast use vstd::std_specs::hash::group_hash_axioms;

/// The name under which the struct `id` of a method's parameters or results
/// is reached from the interface's module: where the struct was declared for
/// the method alone (it has no scope), the method's capitalised name followed
/// by `suffix`; otherwise the struct's qualified name.
pub open spec fn method_struct_name(
    nodes: Map<u64, Node>,
    scope: Map<u64, Seq<Seq<char>>>,
    method: Method,
    id: u64,
    suffix: Seq<char>,
) -> Seq<char> {
    if nodes[id].scope_id == 0 {
        capitalized(method.name@) + suffix
    } else {
        module_of(scope, id)
    }
}

/// The name under which the struct of the parameters of `method` is reached.
pub open spec fn params_name(
    nodes: Map<u64, Node>,
    scope: Map<u64, Seq<Seq<char>>>,
    method: Method,
) -> Seq<char> {
    method_struct_name(nodes, scope, method, method.param_struct_type, "Params"@)
}

/// The name under which the struct of the results of `method` is reached.
pub open spec fn results_name(
    nodes: Map<u64, Node>,
    scope: Map<u64, Seq<Seq<char>>>,
    method: Method,
) -> Seq<char> {
    method_struct_name(nodes, scope, method, method.result_struct_type, "Results"@)
}

/// Why the struct `id` of a method's parameters or results has no name: it
/// is unknown, or it has a scope and the scope map does not hold it.
pub open spec fn method_struct_error(
    nodes: Map<u64, Node>,
    scope: Map<u64, Seq<Seq<char>>>,
    id: u64,
) -> Option<GenError> {
    if !nodes.contains_key(id) {
        Some(GenError::MissingNode)
    } else if nodes[id].scope_id != 0 {
        lookup_error(scope, id)
    } else {
        None
    }
}

/// Why nothing can be generated for `method`.
pub open spec fn method_error(
    nodes: Map<u64, Node>,
    scope: Map<u64, Seq<Seq<char>>>,
    method: Method,
) -> Option<GenError> {
    if method.name@.len() == 0 || !is_identifier(method.name@) {
        Some(GenError::InvalidIdentifier)
    } else if method_struct_error(nodes, scope, method.param_struct_type) is Some {
        method_struct_error(nodes, scope, method.param_struct_type)
    } else {
        method_struct_error(nodes, scope, method.result_struct_type)
    }
}

/// The failure of the first of `methods` that has one.
pub open spec fn methods_error(
    nodes: Map<u64, Node>,
    scope: Map<u64, Seq<Seq<char>>>,
    methods: Seq<Method>,
) -> Option<GenError>
    decreases methods.len(),
{
    if methods.len() == 0 {
        None
    } else {
        match methods_error(nodes, scope, methods.drop_last()) {
            Some(e) => Some(e),
            None => method_error(nodes, scope, methods.last()),
        }
    }
}

/// The failure of looking up the first of `extends` that the scope map does
/// not hold.
pub open spec fn extends_error(
    scope: Map<u64, Seq<Seq<char>>>,
    extends: Seq<u64>,
) -> Option<GenError>
    decreases extends.len(),
{
    if extends.len() == 0 {
        None
    } else {
        match extends_error(scope, extends.drop_last()) {
            Some(e) => Some(e),
            None => lookup_error(scope, extends.last()),
        }
    }
}

/// Why the module of the interface `id` cannot be generated.
pub open spec fn interface_error(
    nodes: Map<u64, Node>,
    scope: Map<u64, Seq<Seq<char>>>,
    id: u64,
    iface: InterfaceNode,
) -> Option<GenError> {
    if name_error(scope, id) is Some {
        name_error(scope, id)
    } else if methods_error(nodes, scope, iface.methods@) is Some {
        methods_error(nodes, scope, iface.methods@)
    } else {
        extends_error(scope, iface.extends@)
    }
}

/// The type of the call context of `method`.
pub open spec fn context_alias(
    nodes: Map<u64, Node>,
    scope: Map<u64, Seq<Seq<char>>>,
    method: Method,
) -> TextTree {
    TextTree::Line(
        "pub type "@ + capitalized(method.name@) + "Context<'a> = capability::CallContext<"@
            + params_name(nodes, scope, method) + "::Reader<'a>, "@ + results_name(
            nodes,
            scope,
            method,
        ) + "::Builder<'a>>;"@,
    )
}

/// The arm that hands a call with the method's ordinal to the server.
pub open spec fn dispatch_arm(method: Method, ordinal: nat) -> TextTree {
    TextTree::Line(
        decimal(ordinal) + " => server."@ + snake(method.name@)
            + "(capability::internal_get_typed_context(context)),"@,
    )
}

/// The declaration of `method` in the server trait.
pub open spec fn server_method(method: Method) -> TextTree {
    TextTree::Line(
        "fn "@ + snake(method.name@) + "<'a>(&mut self, "@ + capitalized(method.name@)
            + "Context<'a>);"@,
    )
}

/// The function of the client that starts a call of `method`: a new call
/// with the interface's id and the method's ordinal.
pub open spec fn client_method(
    nodes: Map<u64, Node>,
    scope: Map<u64, Seq<Seq<char>>>,
    id: u64,
    method: Method,
    ordinal: nat,
) -> TextTree {
    TextTree::Branch(
        Seq::empty().push(
            TextTree::Line(
                "pub fn "@ + snake(method.name@) + "_request<'a>(&self) -> Request<"@
                    + params_name(nodes, scope, method) + "::Builder<'a>,"@ + results_name(
                    nodes,
                    scope,
                    method,
                ) + "::Reader<'a>,"@ + results_name(nodes, scope, method) + "::Pipeline> {"@,
            ),
        ).push(
            TextTree::Indent(
                Box::new(
                    TextTree::Line(
                        "self.client.new_call(0x"@ + hexadecimal(id as nat) + ", "@ + decimal(
                            ordinal,
                        ) + ", None)"@,
                    ),
                ),
            ),
        ).push(TextTree::Line("}"@)),
    )
}

/// The arm that hands a call for the base interface `base` to its dispatch.
pub open spec fn base_dispatch_arm(scope: Map<u64, Seq<Seq<char>>>, base: u64) -> TextTree {
    TextTree::Line(
        "0x"@ + hexadecimal(base as nat) + " => "@ + module_of(scope, base)
            + "::ServerDispatch::<T>::dispatch_call_internal(&mut *self.server, method_id, context),"@,
    )
}

/// The server traits of the base interfaces.
pub open spec fn base_traits(scope: Map<u64, Seq<Seq<char>>>, extends: Seq<u64>) -> Seq<Seq<char>> {
    Seq::new(extends.len(), |i: int| module_of(scope, extends[i]) + "::Server"@)
}

/// The bound of the server trait: the server traits of the base interfaces.
pub open spec fn server_base(scope: Map<u64, Seq<Seq<char>>>, extends: Seq<u64>) -> Seq<char> {
    if extends.len() > 0 {
        ": "@ + joined(base_traits(scope, extends), " + "@)
    } else {
        Seq::empty()
    }
}

/// What every interface module starts with.
pub open spec fn interface_imports() -> Seq<TextTree> {
    Seq::empty().push(TextTree::Line("#![allow(unused_variable)]"@)).push(
        TextTree::Line("use capnp::any_pointer;"@),
    ).push(
        TextTree::Line(
            "use capnp::capability::{ClientHook, FromClientHook, FromServer, Request, ServerHook};"@,
        ),
    ).push(TextTree::Line("use capnp::capability;"@)).push(TextTree::Blank)
}

/// The client: a wrapper of a capability that can be made from a hook or
/// from a server, and cloned.
pub open spec fn client_text() -> TextTree {
    TextTree::Branch(
        Seq::empty().push(TextTree::Blank).push(
            TextTree::Line("pub struct Client{ pub client : capability::Client }"@),
        ).push(
            TextTree::Branch(
                Seq::empty().push(TextTree::Line("impl FromClientHook for Client {"@)).push(
                    TextTree::Indent(
                        Box::new(
                            TextTree::Line("fn new(hook : Box<ClientHook+Send>) -> Client {"@),
                        ),
                    ),
                ).push(
                    TextTree::Indent(
                        Box::new(
                            TextTree::Indent(
                                Box::new(
                                    TextTree::Line(
                                        "Client { client : capability::Client::new(hook) }"@,
                                    ),
                                ),
                            ),
                        ),
                    ),
                ).push(TextTree::Indent(Box::new(TextTree::Line("}"@)))).push(
                    TextTree::Line("}"@),
                ),
            ),
        ).push(
            TextTree::Branch(
                Seq::empty().push(
                    TextTree::Line(
                        "impl <T:ServerHook, U : Server + Send> FromServer<T,U> for Client {"@,
                    ),
                ).push(
                    TextTree::Indent(
                        Box::new(
                            TextTree::Branch(
                                Seq::empty().push(
                                    TextTree::Line(
                                        "fn new(_hook : Option<T>, server : Box<U>) -> Client {"@,
                                    ),
                                ).push(
                                    TextTree::Indent(
                                        Box::new(
                                            TextTree::Line(
                                                "Client { client : ServerHook::new_client(None::<T>, box ServerDispatch { server : server})}"@,
                                            ),
                                        ),
                                    ),
                                ).push(TextTree::Line("}"@)),
                            ),
                        ),
                    ),
                ).push(TextTree::Line("}"@)),
            ),
        ).push(
            TextTree::Branch(
                Seq::empty().push(TextTree::Line("impl Clone for Client {"@)).push(
                    TextTree::Indent(Box::new(TextTree::Line("fn clone(&self) -> Client {"@))),
                ).push(
                    TextTree::Indent(
                        Box::new(
                            TextTree::Indent(
                                Box::new(
                                    TextTree::Line(
                                        "Client { client : capability::Client::new(self.client.hook.copy()) }"@,
                                    ),
                                ),
                            ),
                        ),
                    ),
                ).push(TextTree::Indent(Box::new(TextTree::Line("}"@)))).push(
                    TextTree::Line("}"@),
                ),
            ),
        ),
    )
}

/// A `match` on `subject` inside the function with the header `header` of
/// the impl `opening`: the arms `first` and then `rest`, and a last arm
/// that does nothing.
pub open spec fn dispatch_text(
    opening: Seq<char>,
    header: Seq<char>,
    subject: Seq<char>,
    first: Seq<TextTree>,
    rest: Seq<TextTree>,
) -> TextTree {
    TextTree::Branch(
        Seq::empty().push(TextTree::Line(opening)).push(
            TextTree::Indent(Box::new(TextTree::Line(header))),
        ).push(
            TextTree::Indent(Box::new(TextTree::Indent(Box::new(TextTree::Line(subject))))),
        ).push(
            TextTree::Indent(
                Box::new(
                    TextTree::Indent(
                        Box::new(TextTree::Indent(Box::new(TextTree::Branch(first)))),
                    ),
                ),
            ),
        ).push(
            TextTree::Indent(
                Box::new(
                    TextTree::Indent(Box::new(TextTree::Indent(Box::new(TextTree::Branch(rest))))),
                ),
            ),
        ).push(
            TextTree::Indent(
                Box::new(
                    TextTree::Indent(
                        Box::new(TextTree::Indent(Box::new(TextTree::Line("_ => {}"@)))),
                    ),
                ),
            ),
        ).push(TextTree::Indent(Box::new(TextTree::Indent(Box::new(TextTree::Line("}"@)))))).push(
            TextTree::Indent(Box::new(TextTree::Line("}"@))),
        ).push(TextTree::Line("}"@)),
    )
}

/// The dispatch by interface: a call for this interface's id goes to the
/// dispatch by method, and a call for the id of a base interface to the
/// dispatch of that interface.
pub open spec fn interface_dispatch(
    scope: Map<u64, Seq<Seq<char>>>,
    id: u64,
    extends: Seq<u64>,
) -> TextTree {
    dispatch_text(
        "impl <T : Server> capability::Server for ServerDispatch<T> {"@,
        "fn dispatch_call(&mut self, interface_id : u64, method_id : u16, context : capability::CallContext<any_pointer::Reader, any_pointer::Builder>) {"@,
        "match interface_id {"@,
        Seq::empty().push(
            TextTree::Line(
                "0x"@ + hexadecimal(id as nat)
                    + " => ServerDispatch::<T>::dispatch_call_internal(&mut *self.server, method_id, context),"@,
            ),
        ),
        Seq::new(extends.len(), |i: int| base_dispatch_arm(scope, extends[i])),
    )
}

/// The dispatch by method: a call with the ordinal of a method, which is
/// the method's place among `methods`, goes to that method of the server.
pub open spec fn method_dispatch(methods: Seq<Method>) -> TextTree {
    dispatch_text(
        "impl <T : Server> ServerDispatch<T> {"@,
        "pub fn dispatch_call_internal(server :&mut T, method_id : u16, context : capability::CallContext<any_pointer::Reader, any_pointer::Builder>) {"@,
        "match method_id {"@,
        Seq::empty(),
        Seq::new(methods.len(), |i: int| dispatch_arm(methods[i], i as nat)),
    )
}

/// The module of the interface `id`, with `nested` as the modules of what is
/// declared inside it.
pub open spec fn interface_text(
    nodes: Map<u64, Node>,
    scope: Map<u64, Seq<Seq<char>>>,
    id: u64,
    iface: InterfaceNode,
    nested: Seq<TextTree>,
) -> TextTree {
    let methods = iface.methods@;
    TextTree::Branch(
        Seq::empty().push(TextTree::Blank).push(
            TextTree::Line("pub mod "@ + scope[id].last() + " {"@),
        ).push(
            TextTree::Indent(
                Box::new(
                    TextTree::Branch(
                        Seq::empty().push(TextTree::Branch(interface_imports())).push(
                            TextTree::Branch(
                                Seq::new(
                                    methods.len(),
                                    |i: int| context_alias(nodes, scope, methods[i]),
                                ),
                            ),
                        ).push(client_text()).push(
                            TextTree::Branch(
                                Seq::empty().push(TextTree::Line("impl Client {"@)).push(
                                    TextTree::Indent(
                                        Box::new(
                                            TextTree::Branch(
                                                Seq::new(
                                                    methods.len(),
                                                    |i: int|
                                                        client_method(
                                                            nodes,
                                                            scope,
                                                            id,
                                                            methods[i],
                                                            i as nat,
                                                        ),
                                                ),
                                            ),
                                        ),
                                    ),
                                ).push(TextTree::Line("}"@)),
                            ),
                        ).push(
                            TextTree::Branch(
                                Seq::empty().push(
                                    TextTree::Line(
                                        "pub trait Server "@ + server_base(scope, iface.extends@)
                                            + " {"@,
                                    ),
                                ).push(
                                    TextTree::Indent(
                                        Box::new(
                                            TextTree::Branch(
                                                Seq::new(
                                                    methods.len(),
                                                    |i: int| server_method(methods[i]),
                                                ),
                                            ),
                                        ),
                                    ),
                                ).push(TextTree::Line("}"@)),
                            ),
                        ).push(
                            TextTree::Branch(
                                Seq::empty().push(
                                    TextTree::Line("pub struct ServerDispatch<T> {"@),
                                ).push(
                                    TextTree::Indent(
                                        Box::new(TextTree::Line("pub server : Box<T>,"@)),
                                    ),
                                ).push(TextTree::Line("}"@)),
                            ),
                        ).push(interface_dispatch(scope, id, iface.extends@)).push(
                            method_dispatch(methods),
                        ).push(TextTree::Branch(Seq::empty().push(TextTree::Branch(nested)))),
                    ),
                ),
            ),
        ).push(TextTree::Line("}"@)),
    )
}

/// Once a method has failed, the methods after it do not change the failure.
proof fn lemma_first_method_error_stays(
    nodes: Map<u64, Node>,
    scope: Map<u64, Seq<Seq<char>>>,
    methods: Seq<Method>,
    n: int,
)
    requires
        0 <= n <= methods.len(),
        methods_error(nodes, scope, methods.take(n)) is Some,
    ensures
        methods_error(nodes, scope, methods) == methods_error(nodes, scope, methods.take(n)),
    decreases methods.len() - n,
{
    if n < methods.len() {
        assert(methods.take(n + 1).drop_last() =~= methods.take(n));
        lemma_first_method_error_stays(nodes, scope, methods, n + 1);
    } else {
        assert(methods.take(n) =~= methods);
    }
}

/// Once a base interface has failed, those after it do not change the failure.
proof fn lemma_first_base_error_stays(scope: Map<u64, Seq<Seq<char>>>, extends: Seq<u64>, n: int)
    requires
        0 <= n <= extends.len(),
        extends_error(scope, extends.take(n)) is Some,
    ensures
        extends_error(scope, extends) == extends_error(scope, extends.take(n)),
    decreases extends.len() - n,
{
    if n < extends.len() {
        assert(extends.take(n + 1).drop_last() =~= extends.take(n));
        lemma_first_base_error_stays(scope, extends, n + 1);
    } else {
        assert(extends.take(n) =~= extends);
    }
}

fn method_struct(
    node_map: &HashMap<u64, Node>,
    scope_map: &HashMap<u64, Vec<String>>,
    method: &Method,
    id: u64,
    suffix: &str,
) -> (r: Result<String, GenError>)
    requires
        method.name@.len() > 0,
    ensures
        match method_struct_error(node_map@, paths(scope_map@), id) {
            Some(e) => r == Err::<String, GenError>(e),
            None => r is Ok && r->Ok_0@ == method_struct_name(
                node_map@,
                paths(scope_map@),
                *method,
                id,
                suffix@,
            ),
        },
{
    match node_map.get(&id) {
        None => Err(GenError::MissingNode),
        Some(node) => {
            if node.scope_id == 0 {
                Ok(capitalize_first_letter(method.name.as_str()).concat(suffix))
            } else {
                qualified_name(scope_map, id)
            }
        },
    }
}

/// The four lines or blocks that one method adds to the module: the type of
/// its call context, its arm of the dispatch, its declaration in the server
/// trait, and its function on the client.
fn method_items(
    node_map: &HashMap<u64, Node>,
    scope_map: &HashMap<u64, Vec<String>>,
    node_id: u64,
    method: &Method,
    ordinal: usize,
) -> (r: Result<(FormattedText, FormattedText, FormattedText, FormattedText), GenError>)
    ensures
        match method_error(node_map@, paths(scope_map@), *method) {
            Some(e) => r == Err::<
                (FormattedText, FormattedText, FormattedText, FormattedText),
                GenError,
            >(e),
            None => r is Ok && r->Ok_0.0@ == context_alias(node_map@, paths(scope_map@), *method)
                && r->Ok_0.1@ == dispatch_arm(*method, ordinal as nat) && r->Ok_0.2@
                == server_method(*method) && r->Ok_0.3@ == client_method(
                node_map@,
                paths(scope_map@),
                node_id,
                *method,
                ordinal as nat,
            ),
        },
{
    let name = method.name.as_str();
    if name.unicode_len() == 0 || !is_alphanumeric_name(name) {
        return Err(GenError::InvalidIdentifier);
    }
    let params_name = method_struct(node_map, scope_map, method, method.param_struct_type, "Params")?;
    let results_name = method_struct(
        node_map,
        scope_map,
        method,
        method.result_struct_type,
        "Results",
    )?;
    let styled = camel_to_snake_case(name);
    let capitalized_name = capitalize_first_letter(name);
    let number = unsigned_to_string(ordinal as u64);

    let alias = line_of(
        String::from_str("pub type ").concat(capitalized_name.as_str()).concat(
            "Context<'a> = capability::CallContext<",
        ).concat(params_name.as_str()).concat("::Reader<'a>, ").concat(
            results_name.as_str(),
        ).concat("::Builder<'a>>;"),
    );
    let arm = line_of(
        number.clone().concat(" => server.").concat(styled.as_str()).concat(
            "(capability::internal_get_typed_context(context)),",
        ),
    );
    let declaration = line_of(
        String::from_str("fn ").concat(styled.as_str()).concat("<'a>(&mut self, ").concat(
            capitalized_name.as_str(),
        ).concat("Context<'a>);"),
    );
    let mut request = no_items();
    push_item(
        &mut request,
        line_of(
            String::from_str("pub fn ").concat(styled.as_str()).concat(
                "_request<'a>(&self) -> Request<",
            ).concat(params_name.as_str()).concat("::Builder<'a>,").concat(
                results_name.as_str(),
            ).concat("::Reader<'a>,").concat(results_name.as_str()).concat("::Pipeline> {"),
        ),
    );
    push_item(
        &mut request,
        indent(
            line_of(
                String::from_str("self.client.new_call(0x").concat(
                    to_hex_string(node_id).as_str(),
                ).concat(", ").concat(number.as_str()).concat(", None)"),
            ),
        ),
    );
    push_line(&mut request, "}");
    Ok((alias, arm, declaration, branch(request)))
}

fn interface_imports_block() -> (r: FormattedText)
    ensures
        r@ == TextTree::Branch(interface_imports()),
{
    let mut items = no_items();
    push_line(&mut items, "#![allow(unused_variable)]");
    push_line(&mut items, "use capnp::any_pointer;");
    push_line(
        &mut items,
        "use capnp::capability::{ClientHook, FromClientHook, FromServer, Request, ServerHook};",
    );
    push_line(&mut items, "use capnp::capability;");
    push_item(&mut items, blank());
    branch(items)
}

fn client_block() -> (r: FormattedText)
    ensures
        r@ == client_text(),
{
    let mut from_hook = no_items();
    push_line(&mut from_hook, "impl FromClientHook for Client {");
    push_item(&mut from_hook, indent(line("fn new(hook : Box<ClientHook+Send>) -> Client {")));
    push_item(
        &mut from_hook,
        indent(indent(line("Client { client : capability::Client::new(hook) }"))),
    );
    push_item(&mut from_hook, indent(line("}")));
    push_line(&mut from_hook, "}");

    let mut constructor = no_items();
    push_line(&mut constructor, "fn new(_hook : Option<T>, server : Box<U>) -> Client {");
    push_item(
        &mut constructor,
        indent(
            line(
                "Client { client : ServerHook::new_client(None::<T>, box ServerDispatch { server : server})}",
            ),
        ),
    );
    push_line(&mut constructor, "}");
    let mut from_server = no_items();
    push_line(
        &mut from_server,
        "impl <T:ServerHook, U : Server + Send> FromServer<T,U> for Client {",
    );
    push_item(&mut from_server, indent(branch(constructor)));
    push_line(&mut from_server, "}");

    let mut cloning = no_items();
    push_line(&mut cloning, "impl Clone for Client {");
    push_item(&mut cloning, indent(line("fn clone(&self) -> Client {")));
    push_item(
        &mut cloning,
        indent(
            indent(line("Client { client : capability::Client::new(self.client.hook.copy()) }")),
        ),
    );
    push_item(&mut cloning, indent(line("}")));
    push_line(&mut cloning, "}");

    let mut items = no_items();
    push_item(&mut items, blank());
    push_line(&mut items, "pub struct Client{ pub client : capability::Client }");
    push_item(&mut items, branch(from_hook));
    push_item(&mut items, branch(from_server));
    push_item(&mut items, branch(cloning));
    branch(items)
}

fn dispatch_block(
    opening: &str,
    header: &str,
    subject: &str,
    first: Vec<FormattedText>,
    rest: Vec<FormattedText>,
) -> (r: FormattedText)
    ensures
        r@ == dispatch_text(opening@, header@, subject@, trees_of(first@), trees_of(rest@)),
{
    let mut items = no_items();
    push_line(&mut items, opening);
    push_item(&mut items, indent(line(header)));
    push_item(&mut items, indent(indent(line(subject))));
    push_item(&mut items, indent(indent(indent(branch(first)))));
    push_item(&mut items, indent(indent(indent(branch(rest)))));
    push_item(&mut items, indent(indent(indent(line("_ => {}")))));
    push_item(&mut items, indent(indent(line("}"))));
    push_item(&mut items, indent(line("}")));
    push_line(&mut items, "}");
    branch(items)
}

/// What the methods add to the module.
struct MethodParts {
    aliases: Vec<FormattedText>,
    dispatch_arms: Vec<FormattedText>,
    server_interior: Vec<FormattedText>,
    client_impl_interior: Vec<FormattedText>,
}

#[verifier::loop_isolation(false)]
fn collect_methods(
    node_map: &HashMap<u64, Node>,
    scope_map: &HashMap<u64, Vec<String>>,
    node_id: u64,
    methods: &Vec<Method>,
) -> (r: Result<MethodParts, GenError>)
    ensures
        match methods_error(node_map@, paths(scope_map@), methods@) {
            Some(e) => r == Err::<MethodParts, GenError>(e),
            None => r is Ok && trees_of(r->Ok_0.aliases@) == Seq::new(
                methods@.len(),
                |i: int| context_alias(node_map@, paths(scope_map@), methods@[i]),
            ) && trees_of(r->Ok_0.dispatch_arms@) == Seq::new(
                methods@.len(),
                |i: int| dispatch_arm(methods@[i], i as nat),
            ) && trees_of(r->Ok_0.server_interior@) == Seq::new(
                methods@.len(),
                |i: int| server_method(methods@[i]),
            ) && trees_of(r->Ok_0.client_impl_interior@) == Seq::new(
                methods@.len(),
                |i: int|
                    client_method(node_map@, paths(scope_map@), node_id, methods@[i], i as nat),
            ),
        },
{
    let ghost nodes = node_map@;
    let ghost scope = paths(scope_map@);
    let mut aliases = no_items();
    let mut dispatch_arms = no_items();
    let mut server_interior = no_items();
    let mut client_impl_interior = no_items();
    let mut ordinal: usize = 0;
    proof {
        assert(methods@.take(0) =~= Seq::<Method>::empty());
        assert(trees_of(aliases@) =~= Seq::new(
            0,
            |i: int| context_alias(nodes, scope, methods@[i]),
        ));
        assert(trees_of(dispatch_arms@) =~= Seq::new(
            0,
            |i: int| dispatch_arm(methods@[i], i as nat),
        ));
        assert(trees_of(server_interior@) =~= Seq::new(0, |i: int| server_method(methods@[i])));
        assert(trees_of(client_impl_interior@) =~= Seq::new(
            0,
            |i: int| client_method(nodes, scope, node_id, methods@[i], i as nat),
        ));
    }
    while ordinal < methods.len()
        invariant
            ordinal <= methods.len(),
            methods_error(nodes, scope, methods@.take(ordinal as int)) is None,
            trees_of(aliases@) == Seq::new(
                ordinal as nat,
                |i: int| context_alias(nodes, scope, methods@[i]),
            ),
            trees_of(dispatch_arms@) == Seq::new(
                ordinal as nat,
                |i: int| dispatch_arm(methods@[i], i as nat),
            ),
            trees_of(server_interior@) == Seq::new(
                ordinal as nat,
                |i: int| server_method(methods@[i]),
            ),
            trees_of(client_impl_interior@) == Seq::new(
                ordinal as nat,
                |i: int| client_method(nodes, scope, node_id, methods@[i], i as nat),
            ),
        decreases methods.len() - ordinal,
    {
        let method = &methods[ordinal];
        proof {
            assert(methods@.take(ordinal + 1).drop_last() =~= methods@.take(ordinal as int));
            assert(methods@.take(ordinal + 1).last() == *method);
            assert(methods_error(nodes, scope, methods@.take(ordinal + 1)) == method_error(
                nodes,
                scope,
                *method,
            ));
        }
        match method_items(node_map, scope_map, node_id, method, ordinal) {
            Ok((alias, arm, declaration, request)) => {
                push_item(&mut aliases, alias);
                push_item(&mut dispatch_arms, arm);
                push_item(&mut server_interior, declaration);
                push_item(&mut client_impl_interior, request);
            },
            Err(e) => {
                proof {
                    lemma_first_method_error_stays(nodes, scope, methods@, ordinal + 1);
                }
                return Err(e);
            },
        }
        proof {
            assert(trees_of(aliases@) =~= Seq::new(
                (ordinal + 1) as nat,
                |i: int| context_alias(nodes, scope, methods@[i]),
            ));
            assert(trees_of(dispatch_arms@) =~= Seq::new(
                (ordinal + 1) as nat,
                |i: int| dispatch_arm(methods@[i], i as nat),
            ));
            assert(trees_of(server_interior@) =~= Seq::new(
                (ordinal + 1) as nat,
                |i: int| server_method(methods@[i]),
            ));
            assert(trees_of(client_impl_interior@) =~= Seq::new(
                (ordinal + 1) as nat,
                |i: int| client_method(nodes, scope, node_id, methods@[i], i as nat),
            ));
        }
        ordinal += 1;
    }
    assert(methods@.take(methods.len() as int) =~= methods@);
    Ok(MethodParts { aliases, dispatch_arms, server_interior, client_impl_interior })
}

#[verifier::loop_isolation(false)]
fn collect_bases(scope_map: &HashMap<u64, Vec<String>>, extends: &Vec<u64>) -> (r: Result<
    (Vec<FormattedText>, String),
    GenError,
>)
    ensures
        match extends_error(paths(scope_map@), extends@) {
            Some(e) => r == Err::<(Vec<FormattedText>, String), GenError>(e),
            None => r is Ok && trees_of(r->Ok_0.0@) == Seq::new(
                extends@.len(),
                |i: int| base_dispatch_arm(paths(scope_map@), extends@[i]),
            ) && r->Ok_0.1@ == server_base(paths(scope_map@), extends@),
        },
{
    let ghost scope = paths(scope_map@);
    let mut base_dispatch_arms = no_items();
    let mut traits: Vec<String> = Vec::new();
    let mut i: usize = 0;
    proof {
        assert(extends@.take(0) =~= Seq::<u64>::empty());
        assert(trees_of(base_dispatch_arms@) =~= Seq::new(
            0,
            |j: int| base_dispatch_arm(scope, extends@[j]),
        ));
        assert(views(traits@) =~= Seq::new(0, |j: int| module_of(scope, extends@[j]) + "::Server"@));
    }
    while i < extends.len()
        invariant
            i <= extends.len(),
            extends_error(scope, extends@.take(i as int)) is None,
            trees_of(base_dispatch_arms@) == Seq::new(
                i as nat,
                |j: int| base_dispatch_arm(scope, extends@[j]),
            ),
            views(traits@) == Seq::new(
                i as nat,
                |j: int| module_of(scope, extends@[j]) + "::Server"@,
            ),
        decreases extends.len() - i,
    {
        let base_id = extends[i];
        proof {
            assert(extends@.take(i + 1).drop_last() =~= extends@.take(i as int));
            assert(extends@.take(i + 1).last() == base_id);
            assert(extends_error(scope, extends@.take(i + 1)) == lookup_error(scope, base_id));
        }
        let the_mod = match qualified_name(scope_map, base_id) {
            Ok(the_mod) => the_mod,
            Err(e) => {
                proof {
                    lemma_first_base_error_stays(scope, extends@, i + 1);
                }
                return Err(e);
            },
        };
        push_item(
            &mut base_dispatch_arms,
            line_of(
                String::from_str("0x").concat(to_hex_string(base_id).as_str()).concat(
                    " => ",
                ).concat(the_mod.as_str()).concat(
                    "::ServerDispatch::<T>::dispatch_call_internal(&mut *self.server, method_id, context),",
                ),
            ),
        );
        push_string(&mut traits, the_mod.concat("::Server"));
        proof {
            assert(trees_of(base_dispatch_arms@) =~= Seq::new(
                (i + 1) as nat,
                |j: int| base_dispatch_arm(scope, extends@[j]),
            ));
            assert(views(traits@) =~= Seq::new(
                (i + 1) as nat,
                |j: int| module_of(scope, extends@[j]) + "::Server"@,
            ));
        }
        i += 1;
    }
    assert(extends@.take(extends.len() as int) =~= extends@);
    assert(views(traits@) =~= base_traits(scope, extends@));
    let bound = if extends.len() > 0 {
        String::from_str(": ").concat(join(&traits, " + ").as_str())
    } else {
        String::new()
    };
    Ok((base_dispatch_arms, bound))
}

/// The module of the interface `node_id`. `nested` holds the modules of what
/// is declared inside the interface; they come last.
pub fn generate_interface(
    node_map: &HashMap<u64, Node>,
    scope_map: &HashMap<u64, Vec<String>>,
    node_id: u64,
    iface: &InterfaceNode,
    nested: Vec<FormattedText>,
) -> (r: Result<FormattedText, GenError>)
    ensures
        delivers(
            r,
            interface_error(node_map@, paths(scope_map@), node_id, *iface),
            interface_text(node_map@, paths(scope_map@), node_id, *iface, trees_of(nested@)),
        ),
{
    let name = own_name(scope_map, node_id)?;
    let parts = collect_methods(node_map, scope_map, node_id, &iface.methods)?;
    let (base_dispatch_arms, bound) = collect_bases(scope_map, &iface.extends)?;

    let mut client_impl = no_items();
    push_line(&mut client_impl, "impl Client {");
    push_item(&mut client_impl, indent(branch(parts.client_impl_interior)));
    push_line(&mut client_impl, "}");

    let mut server = no_items();
    push_item(
        &mut server,
        line_of(String::from_str("pub trait Server ").concat(bound.as_str()).concat(" {")),
    );
    push_item(&mut server, indent(branch(parts.server_interior)));
    push_line(&mut server, "}");

    let mut dispatch = no_items();
    push_line(&mut dispatch, "pub struct ServerDispatch<T> {");
    push_item(&mut dispatch, indent(line("pub server : Box<T>,")));
    push_line(&mut dispatch, "}");

    let mut own_arm = no_items();
    push_item(
        &mut own_arm,
        line_of(
            String::from_str("0x").concat(to_hex_string(node_id).as_str()).concat(
                " => ServerDispatch::<T>::dispatch_call_internal(&mut *self.server, method_id, context),",
            ),
        ),
    );

    let mut nested_block = no_items();
    push_item(&mut nested_block, branch(nested));

    let mut mod_interior = no_items();
    push_item(&mut mod_interior, interface_imports_block());
    push_item(&mut mod_interior, branch(parts.aliases));
    push_item(&mut mod_interior, client_block());
    push_item(&mut mod_interior, branch(client_impl));
    push_item(&mut mod_interior, branch(server));
    push_item(&mut mod_interior, branch(dispatch));
    push_item(
        &mut mod_interior,
        dispatch_block(
            "impl <T : Server> capability::Server for ServerDispatch<T> {",
            "fn dispatch_call(&mut self, interface_id : u64, method_id : u16, context : capability::CallContext<any_pointer::Reader, any_pointer::Builder>) {",
            "match interface_id {",
            own_arm,
            base_dispatch_arms,
        ),
    );
    push_item(
        &mut mod_interior,
        dispatch_block(
            "impl <T : Server> ServerDispatch<T> {",
            "pub fn dispatch_call_internal(server :&mut T, method_id : u16, context : capability::CallContext<any_pointer::Reader, any_pointer::Builder>) {",
            "match method_id {",
            no_items(),
            parts.dispatch_arms,
        ),
    );
    push_item(&mut mod_interior, branch(nested_block));

    let mut output = no_items();
    push_item(&mut output, blank());
    push_item(
        &mut output,
        line_of(String::from_str("pub mod ").concat(name.as_str()).concat(" {")),
    );
    push_item(&mut output, indent(branch(mod_interior)));
    push_line(&mut output, "}");
    Ok(branch(output))
}

} // verus!
