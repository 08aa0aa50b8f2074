use vstd::prelude::*;

verus! {

/// The construct a node of the document tree stands for.
#[derive(Debug)]
pub enum NodeKind {
    Document,
    Heading(u8),
    Paragraph,
    List,
    Item,
    Text(String),
    Code(String),
    Emphasis,
    Strong,
    Strikethrough,
    SoftBreak,
    LineBreak,
    Table,
    TableRow,
    TableCell,
    BlockQuote,
    CodeBlock,
    ThematicBreak,
    HtmlInline,
    HtmlBlock,
    FootnoteDefinition,
    TaskItem,
    DescriptionList,
    DescriptionItem,
    DescriptionTerm,
    DescriptionDetails,
}

/// One node of a parsed document, owning its children in document order.
#[derive(Debug)]
pub struct TreeNode {
    pub kind: NodeKind,
    pub children: Vec<TreeNode>,
}

impl TreeNode {
    /// A node without children.
    pub fn leaf(kind: NodeKind) -> (r: TreeNode)
        ensures
            r.kind == kind,
            r.children@.len() == 0,
    {
        TreeNode { kind, children: Vec::new() }
    }

    /// A node with the given children.
    pub fn with_children(kind: NodeKind, children: Vec<TreeNode>) -> (r: TreeNode)
        ensures
            r.kind == kind,
            r.children@ == children@,
    {
        TreeNode { kind, children }
    }
}

/// The text a node contributes when its content is read as plain text:
/// the payload of `Text` and `Code` leaves, one space for a line break of
/// either kind, and for every other node the text of its children in order.
pub open spec fn text_of(n: TreeNode) -> Seq<char>
    decreases n, n.children@.len() + 1,
{
    match n.kind {
        NodeKind::Text(s) => s@,
        NodeKind::Code(s) => s@,
        NodeKind::SoftBreak => seq![' '],
        NodeKind::LineBreak => seq![' '],
        _ => children_text(n, n.children@.len() as int),
    }
}

/// The text of the first `k` children of `n`, concatenated.
pub open spec fn children_text(n: TreeNode, k: int) -> Seq<char>
    decreases n, k,
{
    if k <= 0 || k > n.children@.len() {
        Seq::empty()
    } else {
        children_text(n, k - 1) + text_of(n.children@[k - 1])
    }
}

/// Appends the plain text of `n` to `out`.
pub(crate) fn append_text(n: &TreeNode, out: &mut String)
    ensures
        final(out)@ == old(out)@ + text_of(*n),
    decreases n,
{
    match &n.kind {
        NodeKind::Text(s) => {
            out.append(s.as_str());
        },
        NodeKind::Code(s) => {
            out.append(s.as_str());
        },
        NodeKind::SoftBreak | NodeKind::LineBreak => {
            proof {
                reveal_strlit(" ");
            }
            out.append(" ");
            assert(text_of(*n) =~= seq![' ']);
        },
        _ => {
            let mut i: usize = 0;
            while i < n.children.len()
                invariant
                    i <= n.children@.len(),
                    out@ == old(out)@ + children_text(*n, i as int),
                decreases n.children@.len() - i,
            {
                append_text(&n.children[i], out);
                proof {
                    assert(children_text(*n, i + 1) == children_text(*n, i as int) + text_of(
                        n.children@[i as int],
                    ));
                    assert(out@ =~= old(out)@ + children_text(*n, i + 1));
                }
                i = i + 1;
            }
        },
    }
}

/// The plain text of a node: the text of its `Text` and `Code` leaves in
/// document order, with one space for each soft or hard line break.
pub fn collect_text(n: &TreeNode) -> (r: String)
    ensures
        r@ == text_of(*n),
{
    let mut out = String::new();
    append_text(n, &mut out);
    assert(out@ =~= text_of(*n));
    out
}

/// Emphasis and strong emphasis add nothing to the text: a node of either
/// kind with one child reads as that child.
pub proof fn emphasis_text_transparent(n: TreeNode)
    requires
        n.kind is Emphasis || n.kind is Strong,
        n.children@.len() == 1,
    ensures
        text_of(n) == text_of(n.children@[0]),
{
    assert(children_text(n, 0) =~= Seq::<char>::empty());
    assert(text_of(n) =~= text_of(n.children@[0]));
}

/// A soft or hard line break between two text leaves reads as one space.
pub proof fn break_reads_as_space(n: TreeNode, a: Seq<char>, b: Seq<char>)
    requires
        !(n.kind is Text || n.kind is Code || n.kind is SoftBreak || n.kind is LineBreak),
        n.children@.len() == 3,
        n.children@[0].kind is Text && n.children@[0].kind->Text_0@ == a,
        n.children@[1].kind is SoftBreak || n.children@[1].kind is LineBreak,
        n.children@[2].kind is Text && n.children@[2].kind->Text_0@ == b,
    ensures
        text_of(n) == a + seq![' '] + b,
{
    assert(children_text(n, 0) =~= Seq::<char>::empty());
    assert(text_of(n.children@[0]) == a);
    assert(children_text(n, 1) =~= a);
    assert(text_of(n.children@[1]) =~= seq![' ']);
    assert(children_text(n, 2) =~= a + seq![' ']);
    assert(text_of(n.children@[2]) == b);
    assert(children_text(n, 3) =~= a + seq![' '] + b);
    assert(text_of(n) =~= a + seq![' '] + b);
}

} // verus!
