//! From a request to the text of the generated files.
use crate::error::GenError;
use crate::node::{generate_node, node_error, node_text};
use crate::schema::{CodeGeneratorRequest, Import, Node, RequestedFile};
use crate::scope::{first_error, paths, populate_error, populate_scope_map, populated, status_of};
use crate::strings::{push_string, views};
use crate::text::{branch, no_items, push_item, push_line, rendered, stringify, TextTree};
use std::collections::HashMap;
use vstd::prelude::*;

verus! {

broadcast use vstd::std_specs::hash::group_hash_axioms;

/// A generated file: its name, and what is written to it.
#[derive(Debug)]
pub struct GeneratedFile {
    pub name: String,
    pub text: String,
}

/// `stem` with `_` in place of each `-`.
pub open spec fn underscored(stem: Seq<char>) -> Seq<char> {
    Seq::new(
        stem.len(),
        |i: int|
            if stem[i] == '-' {
                '_'
            } else {
                stem[i]
            },
    )
}

/// The name of the module generated for the file with the given stem.
pub open spec fn module_name(stem: Seq<char>) -> Seq<char> {
    underscored(stem) + "_capnp"@
}

/// The name of the module generated for the file with the given stem: the
/// stem with `_` in place of each `-`, followed by `_capnp`.
pub fn root_name(stem: &str) -> (r: String)
    ensures
        r@ == module_name(stem@),
{
    let n = stem.unicode_len();
    let mut out = String::new();
    let mut i: usize = 0;
    assert(out@ =~= underscored(stem@).take(0));
    while i < n
        invariant
            i <= n,
            n == stem@.len(),
            out@ == underscored(stem@).take(i as int),
        decreases n - i,
    {
        let c = stem.get_char(i);
        if c == '-' {
            out.push('_');
        } else {
            out.push(c);
        }
        assert(out@ =~= underscored(stem@).take(i + 1));
        i += 1;
    }
    assert(underscored(stem@).take(n as int) =~= underscored(stem@));
    out.concat("_capnp")
}

/// The nodes by id. Of two nodes with the same id the later one stays.
pub open spec fn node_index(nodes: Seq<Node>) -> Map<u64, Node>
    decreases nodes.len(),
{
    if nodes.len() == 0 {
        Map::empty()
    } else {
        node_index(nodes.drop_last()).insert(nodes.last().id, nodes.last())
    }
}

/// Indexes the nodes by id. Of two nodes with the same id the later one stays.
pub fn index_nodes(nodes: Vec<Node>) -> (r: HashMap<u64, Node>)
    ensures
        r@ == node_index(nodes@),
{
    let mut node_map: HashMap<u64, Node> = HashMap::new();
    let ghost all = nodes@;
    assert(all.take(0) =~= Seq::<Node>::empty());
    for node in it: nodes
        invariant
            it.seq() == all,
            node_map@ == node_index(all.take(it.index() as int)),
    {
        proof {
            assert(all.take(it.index() + 1).drop_last() =~= all.take(it.index() as int));
            assert(all.take(it.index() + 1).last() == node);
        }
        node_map.insert(node.id, node);
    }
    assert(all.take(all.len() as int) =~= all);
    node_map
}

/// The path of the root of an imported file: the name of its module behind
/// the sign of an absolute path.
pub open spec fn import_root(import: Import) -> Seq<Seq<char>> {
    Seq::empty().push("::"@ + module_name(import.stem@))
}

/// `scope` after the roots of `imports` have been recorded, in order, with
/// everything that they declare.
pub open spec fn imports_scope(
    nodes: Map<u64, Node>,
    scope: Map<u64, Seq<Seq<char>>>,
    imports: Seq<Import>,
) -> Map<u64, Seq<Seq<char>>>
    decreases imports.len(),
{
    if imports.len() == 0 {
        scope
    } else {
        populated(
            nodes,
            imports_scope(nodes, scope, imports.drop_last()),
            import_root(imports.last()),
            imports.last().id,
            nodes.len(),
        )
    }
}

/// Why the scope of `imports` is not complete: the failure of the first
/// import that has one.
pub open spec fn imports_error(nodes: Map<u64, Node>, imports: Seq<Import>) -> Option<GenError>
    decreases imports.len(),
{
    if imports.len() == 0 {
        None
    } else {
        first_error(
            imports_error(nodes, imports.drop_last()),
            populate_error(nodes, imports.last().id, nodes.len()),
        )
    }
}

/// `scope` after the imports of `file` and then `file` itself have been
/// recorded. The root of the file stands under the single segment that is
/// the name of its module.
pub open spec fn file_scope(
    nodes: Map<u64, Node>,
    scope: Map<u64, Seq<Seq<char>>>,
    file: RequestedFile,
) -> Map<u64, Seq<Seq<char>>> {
    populated(
        nodes,
        imports_scope(nodes, scope, file.imports@),
        Seq::empty().push(module_name(file.stem@)),
        file.id,
        nodes.len(),
    )
}

/// Why no code can be generated for `file`.
pub open spec fn file_error(
    nodes: Map<u64, Node>,
    scope: Map<u64, Seq<Seq<char>>>,
    file: RequestedFile,
) -> Option<GenError> {
    first_error(
        first_error(
            imports_error(nodes, file.imports@),
            populate_error(nodes, file.id, nodes.len()),
        ),
        node_error(nodes, file_scope(nodes, scope, file), file.id, nodes.len()),
    )
}

/// The text generated for `file`: two directives that silence warnings, and
/// the code of the file's node.
pub open spec fn file_text(
    nodes: Map<u64, Node>,
    scope: Map<u64, Seq<Seq<char>>>,
    file: RequestedFile,
) -> Seq<char> {
    rendered(
        TextTree::Branch(
            Seq::empty().push(TextTree::Line("#![allow(unused_imports)]"@)).push(
                TextTree::Line("#![allow(dead_code)]"@),
            ).push(
                node_text(
                    nodes,
                    file_scope(nodes, scope, file),
                    file.id,
                    module_name(file.stem@),
                    nodes.len(),
                ),
            ),
        ),
    )
}

#[verifier::loop_isolation(false)]
fn populate_imports(
    node_map: &HashMap<u64, Node>,
    scope_map: &mut HashMap<u64, Vec<String>>,
    imports: &Vec<Import>,
) -> (r: Result<(), GenError>)
    ensures
        paths(final(scope_map)@) == imports_scope(node_map@, paths(old(scope_map)@), imports@),
        r == status_of(imports_error(node_map@, imports@)),
{
    let ghost nodes = node_map@;
    let ghost start = paths(scope_map@);
    let mut status: Result<(), GenError> = Ok(());
    let mut i: usize = 0;
    assert(imports@.take(0) =~= Seq::<Import>::empty());
    while i < imports.len()
        invariant
            i <= imports.len(),
            paths(scope_map@) == imports_scope(nodes, start, imports@.take(i as int)),
            status == status_of(imports_error(nodes, imports@.take(i as int))),
        decreases imports.len() - i,
    {
        let import = &imports[i];
        proof {
            assert(imports@.take(i + 1).drop_last() =~= imports@.take(i as int));
            assert(imports@.take(i + 1).last() == *import);
        }
        let mut root: Vec<String> = Vec::new();
        assert(views(root@) =~= Seq::<Seq<char>>::empty());
        push_string(
            &mut root,
            String::from_str("::").concat(root_name(import.stem.as_str()).as_str()),
        );
        let outcome = populate_scope_map(node_map, scope_map, root, import.id);
        if status.is_ok() {
            status = outcome;
        }
        i += 1;
    }
    assert(imports@.take(imports.len() as int) =~= imports@);
    status
}

/// Records the scope of `file` and of its imports in `scope_map`, and
/// generates the text of the file.
pub fn generate_file(
    node_map: &HashMap<u64, Node>,
    scope_map: &mut HashMap<u64, Vec<String>>,
    file: &RequestedFile,
) -> (r: Result<String, GenError>)
    ensures
        paths(final(scope_map)@) == file_scope(node_map@, paths(old(scope_map)@), *file),
        match file_error(node_map@, paths(old(scope_map)@), *file) {
            Some(e) => r == Err::<String, GenError>(e),
            None => r is Ok && r->Ok_0@ == file_text(node_map@, paths(old(scope_map)@), *file),
        },
{
    let imported = populate_imports(node_map, scope_map, &file.imports);
    let name = root_name(file.stem.as_str());
    let mut root: Vec<String> = Vec::new();
    assert(views(root@) =~= Seq::<Seq<char>>::empty());
    push_string(&mut root, name.clone());
    let recorded = populate_scope_map(node_map, scope_map, root, file.id);
    imported?;
    recorded?;
    let code = generate_node(node_map, scope_map, file.id, name.as_str())?;
    let mut lines = no_items();
    push_line(&mut lines, "#![allow(unused_imports)]");
    push_line(&mut lines, "#![allow(dead_code)]");
    push_item(&mut lines, code);
    Ok(stringify(&branch(lines)))
}

/// `scope` after each of `files` has been recorded with its imports, in order.
pub open spec fn files_scope(
    nodes: Map<u64, Node>,
    scope: Map<u64, Seq<Seq<char>>>,
    files: Seq<RequestedFile>,
) -> Map<u64, Seq<Seq<char>>>
    decreases files.len(),
{
    if files.len() == 0 {
        scope
    } else {
        file_scope(nodes, files_scope(nodes, scope, files.drop_last()), files.last())
    }
}

/// Why no code can be generated for `files`: the failure of the first file
/// that has one. Each file is generated with the scope that the files before
/// it have left.
pub open spec fn files_error(
    nodes: Map<u64, Node>,
    scope: Map<u64, Seq<Seq<char>>>,
    files: Seq<RequestedFile>,
) -> Option<GenError>
    decreases files.len(),
{
    if files.len() == 0 {
        None
    } else {
        first_error(
            files_error(nodes, scope, files.drop_last()),
            file_error(nodes, files_scope(nodes, scope, files.drop_last()), files.last()),
        )
    }
}

/// The name and the text of the file generated for each of `files`, in
/// order: the file is named after its module, with the extension `.rs`.
pub open spec fn files_output(
    nodes: Map<u64, Node>,
    scope: Map<u64, Seq<Seq<char>>>,
    files: Seq<RequestedFile>,
) -> Seq<(Seq<char>, Seq<char>)>
    decreases files.len(),
{
    if files.len() == 0 {
        Seq::empty()
    } else {
        files_output(nodes, scope, files.drop_last()).push(
            (
                module_name(files.last().stem@) + ".rs"@,
                file_text(nodes, files_scope(nodes, scope, files.drop_last()), files.last()),
            ),
        )
    }
}

/// The names and texts of generated files.
pub open spec fn outputs_of(files: Seq<GeneratedFile>) -> Seq<(Seq<char>, Seq<char>)> {
    Seq::new(files.len(), |i: int| (files[i].name@, files[i].text@))
}

/// Once a file has failed, the files after it do not change the failure.
proof fn lemma_first_error_stays(
    nodes: Map<u64, Node>,
    scope: Map<u64, Seq<Seq<char>>>,
    files: Seq<RequestedFile>,
    n: int,
)
    requires
        0 <= n <= files.len(),
        files_error(nodes, scope, files.take(n)) is Some,
    ensures
        files_error(nodes, scope, files) == files_error(nodes, scope, files.take(n)),
    decreases files.len() - n,
{
    if n < files.len() {
        assert(files.take(n + 1).drop_last() =~= files.take(n));
        lemma_first_error_stays(nodes, scope, files, n + 1);
    } else {
        assert(files.take(n) =~= files);
    }
}

/// Generates the files that `request` asks for: for each requested file its
/// name and its text. Nothing is handed out unless every file can be
/// generated.
#[verifier::loop_isolation(false)]
pub fn generate_files(request: CodeGeneratorRequest) -> (r: Result<Vec<GeneratedFile>, GenError>)
    ensures
        match files_error(node_index(request.nodes@), Map::empty(), request.requested_files@) {
            Some(e) => r == Err::<Vec<GeneratedFile>, GenError>(e),
            None => r is Ok && outputs_of(r->Ok_0@) == files_output(
                node_index(request.nodes@),
                Map::empty(),
                request.requested_files@,
            ),
        },
{
    let ghost nodes = node_index(request.nodes@);
    let ghost empty = Map::<u64, Seq<Seq<char>>>::empty();
    let files = request.requested_files;
    let node_map = index_nodes(request.nodes);
    let mut scope_map: HashMap<u64, Vec<String>> = HashMap::new();
    let mut outputs: Vec<GeneratedFile> = Vec::new();
    let mut i: usize = 0;
    proof {
        assert(paths(scope_map@) =~= empty);
        assert(files@.take(0) =~= Seq::<RequestedFile>::empty());
        assert(outputs_of(outputs@) =~= Seq::<(Seq<char>, Seq<char>)>::empty());
    }
    while i < files.len()
        invariant
            i <= files.len(),
            paths(scope_map@) == files_scope(nodes, empty, files@.take(i as int)),
            files_error(nodes, empty, files@.take(i as int)) is None,
            outputs_of(outputs@) == files_output(nodes, empty, files@.take(i as int)),
        decreases files.len() - i,
    {
        let file = &files[i];
        proof {
            assert(files@.take(i + 1).drop_last() =~= files@.take(i as int));
            assert(files@.take(i + 1).last() == *file);
        }
        match generate_file(&node_map, &mut scope_map, file) {
            Ok(text) => {
                let name = root_name(file.stem.as_str()).concat(".rs");
                let ghost before = outputs_of(outputs@);
                outputs.push(GeneratedFile { name, text });
                assert(outputs_of(outputs@) =~= before.push((name@, text@)));
            },
            Err(e) => {
                proof {
                    lemma_first_error_stays(nodes, empty, files@, i + 1);
                }
                return Err(e);
            },
        }
        i += 1;
    }
    assert(files@.take(files.len() as int) =~= files@);
    Ok(outputs)
}

} // verus!
