//! Indented text: a tree of lines that is flattened to a string at the end.
use crate::strings::{join, joined, views};
use vstd::prelude::*;

verus! {

/// A tree of text fragments. `Indent` moves everything below it one level
/// (two spaces) to the right; `Branch` lays its children out one after another.
#[derive(Debug, PartialEq, Eq)]
pub enum FormattedText {
    Indent(Box<FormattedText>),
    Branch(Vec<FormattedText>),
    Line(String),
    BlankLine,
}

/// The mathematical model of a [`FormattedText`].
pub ghost enum TextTree {
    Indent(Box<TextTree>),
    Branch(Seq<TextTree>),
    Line(Seq<char>),
    Blank,
}

/// The model of one tree.
pub open spec fn tree_of(ft: FormattedText) -> TextTree
    decreases ft,
{
    match ft {
        FormattedText::Indent(inner) => TextTree::Indent(Box::new(tree_of(*inner))),
        FormattedText::Branch(items) => TextTree::Branch(
            Seq::new(
                items@.len(),
                |i: int|
                    if 0 <= i < items@.len() {
                        tree_of(items@[i])
                    } else {
                        TextTree::Blank
                    },
            ),
        ),
        FormattedText::Line(s) => TextTree::Line(s@),
        FormattedText::BlankLine => TextTree::Blank,
    }
}

/// The models of a sequence of trees, in order.
pub open spec fn trees_of(items: Seq<FormattedText>) -> Seq<TextTree> {
    Seq::new(items.len(), |i: int| tree_of(items[i]))
}

impl View for FormattedText {
    type V = TextTree;

    open spec fn view(&self) -> TextTree {
        tree_of(*self)
    }
}

/// The white space in front of a line at the given indent level.
pub open spec fn indentation(level: nat) -> Seq<char>
    decreases level,
{
    if level == 0 {
        Seq::empty()
    } else {
        indentation((level - 1) as nat) + "  "@
    }
}

/// The lines that a tree renders to when it stands at the given indent level.
pub open spec fn lines(t: TextTree, level: nat) -> Seq<Seq<char>>
    decreases t,
{
    match t {
        TextTree::Indent(inner) => lines(*inner, level + 1),
        TextTree::Branch(items) => branch_lines(items, level),
        TextTree::Line(s) => Seq::empty().push(indentation(level) + s),
        TextTree::Blank => Seq::empty().push(Seq::empty()),
    }
}

/// The lines of each item in turn, with nothing between them.
pub open spec fn branch_lines(items: Seq<TextTree>, level: nat) -> Seq<Seq<char>>
    decreases items,
{
    if items.len() == 0 {
        Seq::empty()
    } else {
        branch_lines(items.drop_last(), level) + lines(items.last(), level)
    }
}

/// The rendered text: the lines from indent level zero with a newline between
/// neighbours and a newline at the end.
pub open spec fn rendered(t: TextTree) -> Seq<char> {
    joined(lines(t, 0), "\n"@) + "\n"@
}

/// Whether no line of the tree is empty but the blank ones.
pub open spec fn no_empty_line(t: TextTree) -> bool
    decreases t,
{
    match t {
        TextTree::Indent(inner) => no_empty_line(*inner),
        TextTree::Branch(items) => forall|i: int|
            0 <= i < items.len() ==> no_empty_line(#[trigger] items[i]),
        TextTree::Line(s) => s.len() > 0,
        TextTree::Blank => true,
    }
}

/// A line moved one level to the right: two spaces in front of it, unless it
/// is empty.
pub open spec fn shifted(l: Seq<char>) -> Seq<char> {
    if l.len() == 0 {
        l
    } else {
        "  "@ + l
    }
}

/// Each of the lines moved one level to the right.
pub open spec fn shifted_lines(ls: Seq<Seq<char>>) -> Seq<Seq<char>> {
    Seq::new(ls.len(), |i: int| shifted(ls[i]))
}

/// Joining two runs of parts that both hold something is joining each and
/// putting the separator between them.
pub proof fn lemma_joined_concat(a: Seq<Seq<char>>, b: Seq<Seq<char>>, sep: Seq<char>)
    requires
        a.len() > 0,
        b.len() > 0,
    ensures
        joined(a + b, sep) == joined(a, sep) + sep + joined(b, sep),
    decreases b.len(),
{
    assert((a + b).drop_last() =~= a + b.drop_last());
    assert((a + b).last() == b.last());
    if b.len() == 1 {
        assert(a + b.drop_last() =~= a);
        assert(joined(b, sep) == b[0]);
    } else {
        lemma_joined_concat(a, b.drop_last(), sep);
        assert(joined(a + b, sep) =~= joined(a, sep) + sep + joined(b, sep));
    }
}

/// Two trees with a blank line between them render to the text of the first,
/// a newline, and the text of the second, provided that both hold at least
/// one line. Where only the first does, the two sides differ by one newline
/// at the end.
pub proof fn lemma_blank_between(x: TextTree, y: TextTree)
    requires
        lines(x, 0).len() > 0,
    ensures
        lines(y, 0).len() > 0 ==> rendered(
            TextTree::Branch(Seq::empty().push(x).push(TextTree::Blank).push(y)),
        ) == rendered(x) + "\n"@ + rendered(y),
        lines(y, 0).len() == 0 ==> rendered(
            TextTree::Branch(Seq::empty().push(x).push(TextTree::Blank).push(y)),
        ) + "\n"@ == rendered(x) + "\n"@ + rendered(y),
{
    let nl = "\n"@;
    let none = Seq::<TextTree>::empty();
    let gap = Seq::<Seq<char>>::empty().push(Seq::<char>::empty());
    let lx = lines(x, 0);
    let ly = lines(y, 0);
    assert(branch_lines(none.push(x).push(TextTree::Blank).push(y), 0) == lx + gap + ly) by {
        lemma_branch_lines_push(none.push(x).push(TextTree::Blank), y, 0);
        lemma_branch_lines_push(none.push(x), TextTree::Blank, 0);
        lemma_branch_lines_push(none, x, 0);
        assert(branch_lines(none, 0) + lx =~= lx);
    }
    lemma_joined_concat(lx, gap, nl);
    assert(joined(gap, nl) =~= Seq::<char>::empty());
    assert(joined(lx + gap, nl) =~= joined(lx, nl) + nl);
    if ly.len() > 0 {
        lemma_joined_concat(lx + gap, ly, nl);
        assert(joined(lx + gap + ly, nl) + nl =~= joined(lx, nl) + nl + nl + (joined(ly, nl)
            + nl));
    } else {
        assert(lx + gap + ly =~= lx + gap);
        assert(joined(ly, nl) =~= Seq::<char>::empty());
        assert(joined(lx + gap, nl) + nl + nl =~= joined(lx, nl) + nl + nl + (joined(ly, nl)
            + nl));
    }
}

/// Two spaces in front of an indentation are two spaces behind it.
proof fn lemma_indentation_commutes(level: nat)
    ensures
        "  "@ + indentation(level) == indentation(level) + "  "@,
    decreases level,
{
    if level == 0 {
        assert("  "@ + indentation(level) =~= indentation(level) + "  "@);
    } else {
        lemma_indentation_commutes((level - 1) as nat);
        assert("  "@ + indentation(level) =~= ("  "@ + indentation((level - 1) as nat)) + "  "@);
    }
}

/// At one level deeper, a tree without empty lines renders to the same lines
/// with two more spaces in front of each that is not blank.
pub proof fn lemma_deeper_lines(x: TextTree, level: nat)
    requires
        no_empty_line(x),
    ensures
        lines(x, level + 1) == shifted_lines(lines(x, level)),
    decreases x, 0nat,
{
    match x {
        TextTree::Indent(inner) => {
            lemma_deeper_lines(*inner, level + 1);
        },
        TextTree::Branch(items) => {
            lemma_deeper_branch_lines(items, level);
        },
        TextTree::Line(s) => {
            lemma_indentation_commutes(level);
            assert(indentation(level + 1) + s =~= "  "@ + (indentation(level) + s));
            assert(lines(x, level + 1) =~= shifted_lines(lines(x, level)));
        },
        TextTree::Blank => {
            assert(lines(x, level + 1) =~= shifted_lines(lines(x, level)));
        },
    }
}

proof fn lemma_deeper_branch_lines(items: Seq<TextTree>, level: nat)
    requires
        forall|i: int| 0 <= i < items.len() ==> no_empty_line(#[trigger] items[i]),
    ensures
        branch_lines(items, level + 1) == shifted_lines(branch_lines(items, level)),
    decreases items, 1nat,
{
    if items.len() == 0 {
        assert(branch_lines(items, level + 1) =~= shifted_lines(branch_lines(items, level)));
    } else {
        assert forall|i: int| 0 <= i < items.drop_last().len() implies no_empty_line(
            #[trigger] items.drop_last()[i],
        ) by {
            assert(items.drop_last()[i] == items[i]);
        }
        lemma_deeper_branch_lines(items.drop_last(), level);
        lemma_deeper_lines(items.last(), level);
        assert(branch_lines(items, level + 1) =~= shifted_lines(branch_lines(items, level)));
    }
}

/// An indented tree without empty lines renders to the lines of the tree
/// itself with two more spaces in front of each that is not blank.
pub proof fn lemma_indent_shifts(x: TextTree)
    requires
        no_empty_line(x),
    ensures
        lines(TextTree::Indent(Box::new(x)), 0) == shifted_lines(lines(x, 0)),
        rendered(TextTree::Indent(Box::new(x))) == joined(shifted_lines(lines(x, 0)), "\n"@)
            + "\n"@,
{
    lemma_deeper_lines(x, 0);
}

/// A single line holding `s`.
pub fn line(s: &str) -> (r: FormattedText)
    ensures
        r@ == TextTree::Line(s@),
{
    FormattedText::Line(String::from_str(s))
}

/// A single line holding `s`.
pub fn line_of(s: String) -> (r: FormattedText)
    ensures
        r@ == TextTree::Line(s@),
{
    FormattedText::Line(s)
}

/// An empty line.
pub fn blank() -> (r: FormattedText)
    ensures
        r@ == TextTree::Blank,
{
    FormattedText::BlankLine
}

/// `inner`, one level further to the right.
pub fn indent(inner: FormattedText) -> (r: FormattedText)
    ensures
        r@ == TextTree::Indent(Box::new(inner@)),
{
    FormattedText::Indent(Box::new(inner))
}

/// The items one after another.
pub fn branch(items: Vec<FormattedText>) -> (r: FormattedText)
    ensures
        r@ == TextTree::Branch(trees_of(items@)),
{
    let r = FormattedText::Branch(items);
    assert(r@->Branch_0 =~= trees_of(items@));
    r
}

/// No items yet.
pub fn no_items() -> (r: Vec<FormattedText>)
    ensures
        trees_of(r@) == Seq::<TextTree>::empty(),
{
    let r: Vec<FormattedText> = Vec::new();
    assert(trees_of(r@) =~= Seq::<TextTree>::empty());
    r
}

/// Appends `item` to `items`.
pub fn push_item(items: &mut Vec<FormattedText>, item: FormattedText)
    ensures
        trees_of(final(items)@) == trees_of(old(items)@).push(item@),
{
    items.push(item);
    assert(trees_of(items@) =~= trees_of(old(items)@).push(item@));
}

/// Appends a line holding `s` to `items`.
pub fn push_line(items: &mut Vec<FormattedText>, s: &str)
    ensures
        trees_of(final(items)@) == trees_of(old(items)@).push(TextTree::Line(s@)),
{
    push_item(items, line(s));
}

proof fn lemma_branch_lines_push(items: Seq<TextTree>, item: TextTree, level: nat)
    ensures
        branch_lines(items.push(item), level) == branch_lines(items, level) + lines(item, level),
{
    assert(items.push(item).drop_last() =~= items);
}

fn collect_lines(ft: &FormattedText, prefix: &str, Ghost(level): Ghost<nat>, out: &mut Vec<String>)
    requires
        prefix@ == indentation(level),
    ensures
        views(final(out)@) == views(old(out)@) + lines(ft@, level),
    decreases ft,
{
    match ft {
        FormattedText::Indent(inner) => {
            let mut deeper = String::from_str(prefix);
            deeper.append("  ");
            collect_lines(inner, deeper.as_str(), Ghost(level + 1), out);
        },
        FormattedText::Branch(items) => {
            let mut i: usize = 0;
            assert(trees_of(items@).take(0) =~= Seq::<TextTree>::empty());
            assert(views(out@) =~= views(old(out)@) + Seq::<Seq<char>>::empty());
            while i < items.len()
                invariant
                    i <= items.len(),
                    prefix@ == indentation(level),
                    ft == FormattedText::Branch(*items),
                    views(out@) == views(old(out)@) + branch_lines(
                        trees_of(items@).take(i as int),
                        level,
                    ),
                decreases items.len() - i,
            {
                let ghost before = trees_of(items@).take(i as int);
                proof {
                    lemma_branch_lines_push(before, items@[i as int]@, level);
                    assert(trees_of(items@).take(i + 1) =~= before.push(items@[i as int]@));
                    assert(decreases_to!(ft => ft->Branch_0));
                    assert(decreases_to!(ft->Branch_0 => ft->Branch_0@));
                    assert(decreases_to!(ft->Branch_0@ => ft->Branch_0@[i as int]));
                }
                collect_lines(&items[i], prefix, Ghost(level), out);
                assert(views(out@) =~= views(old(out)@) + branch_lines(
                    trees_of(items@).take(i + 1),
                    level,
                ));
                i += 1;
            }
            assert(trees_of(items@).take(items.len() as int) =~= trees_of(items@));
            assert(ft@->Branch_0 =~= trees_of(items@));
        },
        FormattedText::Line(s) => {
            let mut l = String::from_str(prefix);
            l.append(s.as_str());
            out.push(l);
            assert(views(out@) =~= views(old(out)@) + lines(ft@, level));
        },
        FormattedText::BlankLine => {
            out.push(String::new());
            assert(views(out@) =~= views(old(out)@) + lines(ft@, level));
        },
    }
}

/// The lines of `ft` when it stands at indent level `indent`.
pub fn to_lines(ft: &FormattedText, indent: usize) -> (r: Vec<String>)
    ensures
        views(r@) == lines(ft@, indent as nat),
{
    let mut prefix = String::new();
    let mut i: usize = 0;
    while i < indent
        invariant
            i <= indent,
            prefix@ == indentation(i as nat),
        decreases indent - i,
    {
        prefix.append("  ");
        i += 1;
    }
    let mut out: Vec<String> = Vec::new();
    collect_lines(ft, prefix.as_str(), Ghost(indent as nat), &mut out);
    assert(views(out@) =~= lines(ft@, indent as nat));
    out
}

/// Renders `ft`: its lines from indent level zero with a newline between
/// neighbours and a newline at the end.
pub fn stringify(ft: &FormattedText) -> (r: String)
    ensures
        r@ == rendered(ft@),
{
    let all = to_lines(ft, 0);
    let mut result = join(&all, "\n");
    result.append("\n");
    result
}

} // verus!
