use capnpc_rust::text;
use capnpc_rust::text::{blank, branch, indent, line_of, to_lines, FormattedText};

fn sample() -> FormattedText {
    branch(vec![
        text::line("fn main() {"),
        indent(branch(vec![text::line("let x = 1;"), blank(), indent(text::line("x"))])),
        text::line("}"),
    ])
}

#[test]
fn a_line_renders_to_itself_and_a_newline() {
    assert_eq!(text::stringify(&text::line("abc")), "abc\n");
    assert_eq!(text::stringify(&line_of("abc".to_string())), "abc\n");
}

#[test]
fn a_blank_line_renders_to_a_newline() {
    assert_eq!(text::stringify(&blank()), "\n");
}

#[test]
fn an_empty_branch_renders_to_a_single_newline() {
    assert_eq!(to_lines(&branch(vec![]), 0), Vec::<String>::new());
    assert_eq!(text::stringify(&branch(vec![])), "\n");
}

#[test]
fn each_indent_adds_two_spaces() {
    assert_eq!(to_lines(&text::line("x"), 0), vec!["x".to_string()]);
    assert_eq!(to_lines(&text::line("x"), 1), vec!["  x".to_string()]);
    assert_eq!(to_lines(&text::line("x"), 3), vec!["      x".to_string()]);
    assert_eq!(to_lines(&indent(indent(text::line("x"))), 1), vec!["      x".to_string()]);
}

#[test]
fn blank_lines_are_never_indented() {
    assert_eq!(to_lines(&indent(blank()), 4), vec!["".to_string()]);
}

#[test]
fn branches_flatten_in_order_without_separators() {
    let tree = branch(vec![text::line("a"), branch(vec![text::line("b"), branch(vec![]), text::line("c")]), text::line("d")]);
    assert_eq!(to_lines(&tree, 0), vec!["a", "b", "c", "d"]);
    assert_eq!(text::stringify(&tree), "a\nb\nc\nd\n");
}

#[test]
fn nested_blocks_render_with_their_indentation() {
    assert_eq!(text::stringify(&sample()), "fn main() {\n  let x = 1;\n\n    x\n}\n");
}

#[test]
fn rendering_twice_gives_the_same_text() {
    let tree = sample();
    assert_eq!(text::stringify(&tree), text::stringify(&tree));
}

#[test]
fn a_blank_between_two_trees_is_a_newline_between_their_texts() {
    let x = || branch(vec![text::line("a"), indent(text::line("b"))]);
    let y = || indent(branch(vec![text::line("c"), text::line("d")]));
    let both = branch(vec![x(), blank(), y()]);
    assert_eq!(text::stringify(&both), format!("{}\n{}", text::stringify(&x()), text::stringify(&y())));
    assert_eq!(text::stringify(&both), "a\n  b\n\n  c\n  d\n");
}

#[test]
fn a_blank_after_a_tree_and_before_nothing_adds_one_newline() {
    let x = || text::line("a");
    let nothing = || branch(vec![]);
    let both = branch(vec![x(), blank(), nothing()]);
    assert_eq!(text::stringify(&both), "a\n\n");
    assert_eq!(
        format!("{}\n", text::stringify(&both)),
        format!("{}\n{}", text::stringify(&x()), text::stringify(&nothing()))
    );
}

#[test]
fn indenting_a_tree_puts_two_spaces_before_each_line_that_is_not_blank() {
    let shifted: Vec<String> = to_lines(&sample(), 0)
        .into_iter()
        .map(|l| if l.is_empty() { l } else { format!("  {}", l) })
        .collect();
    assert_eq!(to_lines(&indent(sample()), 0), shifted);
    assert_eq!(to_lines(&sample(), 1), shifted);
    assert_eq!(
        text::stringify(&indent(sample())),
        "  fn main() {\n    let x = 1;\n\n      x\n  }\n"
    );
}

#[test]
fn an_empty_line_that_is_no_blank_is_indented() {
    assert_eq!(to_lines(&indent(text::line("")), 0), vec!["  ".to_string()]);
}

#[test]
fn trees_compare_by_structure() {
    assert_eq!(text::line("a"), line_of("a".to_string()));
    assert_ne!(text::line("a"), branch(vec![text::line("a")]));
    assert_ne!(text::line(""), blank());
}
