use vstd::prelude::*;
use crate::tree::{append_text, children_text, collect_text, text_of, NodeKind, TreeNode};

verus! {

// Positions are in tenths of a millimetre on an A4 page (210 x 297 mm),
// with y measured upward from the bottom edge.
/// Left edge of body text: 20 mm.
pub const BODY_X: i64 = 200;

/// Left edge of list items: 25 mm.
pub const LIST_X: i64 = 250;

/// Where the cursor starts: 10 mm below a 20 mm top margin.
pub const START_Y: i64 = 2670;

/// Font size of paragraphs and list items, in points.
pub const BODY_SIZE: u32 = 12;

/// Space left under a heading or a paragraph: 4 mm.
pub const BLOCK_GAP: i64 = 40;

/// Advance before a paragraph: 10 mm.
pub const PARAGRAPH_ADVANCE: i64 = 100;

/// Advance before a list item: 8 mm.
pub const ITEM_ADVANCE: i64 = 80;

/// Space left under a list item: 2 mm.
pub const ITEM_GAP: i64 = 20;

/// The most the cursor moves for one node: a level-1 heading,
/// 16.8 mm of advance and 4 mm of gap.
pub const MAX_STEP: i64 = 208;

/// Trees up to this many nodes can be laid out; far more than fits in memory.
pub const MAX_LAYOUT_NODES: u64 = 1099511627776;

/// What a draw command means: `text` in `size` points, its baseline start at
/// (`x`, `y`) in tenths of a millimetre.
pub struct PlacedText {
    pub text: Seq<char>,
    pub size: int,
    pub x: int,
    pub y: int,
}

/// One positioned text-drawing instruction.
#[derive(Debug)]
pub struct DrawCommand {
    pub text: String,
    pub font_size: u32,
    pub x: i64,
    pub y: i64,
}

impl View for DrawCommand {
    type V = PlacedText;

    open spec fn view(&self) -> PlacedText {
        PlacedText { text: self.text@, size: self.font_size as int, x: self.x as int, y: self.y as int }
    }
}

pub open spec fn views(s: Seq<DrawCommand>) -> Seq<PlacedText> {
    s.map_values(|d: DrawCommand| d@)
}

/// Font size of a heading of the given level: 24, 20 and 16 points for the
/// first three levels, 14 for any other.
pub open spec fn heading_size(level: u8) -> u32 {
    if level == 1 {
        24
    } else if level == 2 {
        20
    } else if level == 3 {
        16
    } else {
        14
    }
}

/// Font size of a heading of the given level.
pub fn heading_font_size(level: u8) -> (r: u32)
    ensures
        r == heading_size(level),
{
    match level {
        1 => 24,
        2 => 20,
        3 => 16,
        _ => 14,
    }
}

/// The "• " that starts every list item.
pub open spec fn bullet() -> Seq<char> {
    seq!['•', ' ']
}

/// Laying out `n` with the cursor at `y`: the commands, and where the cursor ends.
/// A heading advances by 0.7 mm per point of its size, draws its text, then
/// leaves a gap; a paragraph likewise at 12 points; a list draws its `Item`
/// children; every other node draws only what its children draw.
pub open spec fn place(n: TreeNode, y: int) -> (Seq<PlacedText>, int)
    decreases n, n.children@.len() + 1,
{
    match n.kind {
        NodeKind::Heading(level) => {
            let size = heading_size(level) as int;
            let top = y - 7 * size;
            (seq![PlacedText { text: text_of(n), size, x: BODY_X as int, y: top }], top - BLOCK_GAP)
        },
        NodeKind::Paragraph => {
            let top = y - PARAGRAPH_ADVANCE;
            (
                seq![PlacedText { text: text_of(n), size: BODY_SIZE as int, x: BODY_X as int, y: top }],
                top - BLOCK_GAP,
            )
        },
        NodeKind::List => place_items(n, n.children@.len() as int, y),
        _ => place_children(n, n.children@.len() as int, y),
    }
}

/// Laying out the first `k` children of `n` one after the other.
pub open spec fn place_children(n: TreeNode, k: int, y: int) -> (Seq<PlacedText>, int)
    decreases n, k,
{
    if k <= 0 || k > n.children@.len() {
        (Seq::empty(), y)
    } else {
        let before = place_children(n, k - 1, y);
        let last = place(n.children@[k - 1], before.1);
        (before.0 + last.0, last.1)
    }
}

/// The bulleted line of one list item, at cursor `y`.
pub open spec fn item_line(item: TreeNode, y: int) -> PlacedText {
    PlacedText {
        text: bullet() + text_of(item),
        size: BODY_SIZE as int,
        x: LIST_X as int,
        y: y - ITEM_ADVANCE,
    }
}

/// Laying out the `Item` children among the first `k` children of a list.
pub open spec fn place_items(n: TreeNode, k: int, y: int) -> (Seq<PlacedText>, int)
    decreases k,
{
    if k <= 0 || k > n.children@.len() {
        (Seq::empty(), y)
    } else {
        let before = place_items(n, k - 1, y);
        let c = n.children@[k - 1];
        if c.kind is Item {
            (before.0.push(item_line(c, before.1)), before.1 - ITEM_ADVANCE - ITEM_GAP)
        } else {
            before
        }
    }
}

/// What the layout engine draws for a whole document.
pub open spec fn layout_of(root: TreeNode) -> Seq<PlacedText> {
    place(root, START_Y as int).0
}

/// The number of nodes in the tree under `n`, `n` included.
pub open spec fn node_count(n: TreeNode) -> nat
    decreases n, n.children@.len() + 1,
{
    1 + children_count(n, n.children@.len() as int)
}

/// The number of nodes under the first `k` children of `n`.
pub open spec fn children_count(n: TreeNode, k: int) -> nat
    decreases n, k,
{
    if k <= 0 || k > n.children@.len() {
        0
    } else {
        children_count(n, k - 1) + node_count(n.children@[k - 1])
    }
}

proof fn lemma_children_count_mono(n: TreeNode, i: int, j: int)
    requires
        0 <= i <= j <= n.children@.len(),
    ensures
        children_count(n, i) + j - i <= children_count(n, j),
    decreases j - i,
{
    if i < j {
        lemma_children_count_mono(n, i, j - 1);
        assert(node_count(n.children@[j - 1]) >= 1);
    }
}

/// Every command lies strictly between the cursor before and after.
pub open spec fn within(cs: Seq<PlacedText>, top: int, bottom: int) -> bool {
    forall|i: int| 0 <= i < cs.len() ==> bottom < #[trigger] cs[i].y < top
}

/// The commands go strictly down the page.
pub open spec fn descending(cs: Seq<PlacedText>) -> bool {
    forall|i: int, j: int| 0 <= i < j < cs.len() ==> #[trigger] cs[j].y < #[trigger] cs[i].y
}

proof fn lemma_join(a: Seq<PlacedText>, b: Seq<PlacedText>, y0: int, y1: int, y2: int)
    requires
        within(a, y0, y1),
        within(b, y1 + 1, y2),
        y2 <= y1 < y0,
        descending(a),
        descending(b),
    ensures
        within(a + b, y0, y2),
        descending(a + b),
{
    assert forall|i: int| 0 <= i < (a + b).len() implies y2 < #[trigger] (a + b)[i].y < y0 by {
        if i < a.len() {
            assert((a + b)[i] == a[i]);
            assert(y1 < a[i].y < y0);
        } else {
            assert((a + b)[i] == b[i - a.len()]);
            assert(y2 < b[i - a.len()].y < y1 + 1);
        }
    }
    assert forall|i: int, j: int| 0 <= i < j < (a + b).len() implies #[trigger] (a + b)[j].y < #[trigger] (a + b)[i].y by {
        if j >= a.len() && i < a.len() {
            assert(b[j - a.len()].y <= y1);
            assert(a[i].y > y1);
        } else if i >= a.len() {
            assert(b[j - a.len()].y < b[i - a.len()].y);
        }
    }
}

proof fn lemma_place_bounds(n: TreeNode, y: int)
    ensures
        y - MAX_STEP * node_count(n) <= place(n, y).1 <= y,
        within(place(n, y).0, y + 1, place(n, y).1),
        descending(place(n, y).0),
    decreases n, n.children@.len() + 2,
{
    let len = n.children@.len() as int;
    match n.kind {
        NodeKind::Heading(_) => {},
        NodeKind::Paragraph => {},
        NodeKind::List => {
            lemma_place_items_bounds(n, len, y);
            lemma_children_count_mono(n, 0, len);
        },
        _ => {
            lemma_place_children_bounds(n, len, y);
        },
    }
}

proof fn lemma_place_children_bounds(n: TreeNode, k: int, y: int)
    ensures
        0 <= k <= n.children@.len() ==> y - MAX_STEP * children_count(n, k) <= place_children(n, k, y).1,
        place_children(n, k, y).1 <= y,
        within(place_children(n, k, y).0, y + 1, place_children(n, k, y).1),
        descending(place_children(n, k, y).0),
    decreases n, k,
{
    if 0 < k <= n.children@.len() {
        lemma_place_children_bounds(n, k - 1, y);
        let before = place_children(n, k - 1, y);
        lemma_place_bounds(n.children@[k - 1], before.1);
        let last = place(n.children@[k - 1], before.1);
        lemma_join(before.0, last.0, y + 1, before.1, last.1);
    }
}

proof fn lemma_place_items_bounds(n: TreeNode, k: int, y: int)
    ensures
        0 <= k <= n.children@.len() ==> y - (ITEM_ADVANCE + ITEM_GAP) * k <= place_items(n, k, y).1,
        place_items(n, k, y).1 <= y,
        within(place_items(n, k, y).0, y + 1, place_items(n, k, y).1),
        descending(place_items(n, k, y).0),
    decreases k,
{
    if 0 < k <= n.children@.len() {
        lemma_place_items_bounds(n, k - 1, y);
        let before = place_items(n, k - 1, y);
        if n.children@[k - 1].kind is Item {
            let cs = before.0.push(item_line(n.children@[k - 1], before.1));
            assert forall|i: int| 0 <= i < cs.len() implies before.1 - ITEM_ADVANCE - ITEM_GAP < #[trigger] cs[i].y < y + 1 by {
                if i < before.0.len() {
                    assert(cs[i] == before.0[i]);
                }
            }
            assert forall|i: int, j: int| 0 <= i < j < cs.len() implies #[trigger] cs[j].y < #[trigger] cs[i].y by {
                assert(cs[i] == before.0[i]);
                if j < before.0.len() {
                    assert(cs[j] == before.0[j]);
                }
            }
        }
    }
}

/// Lays out `n` with the cursor at `y`, appending its commands to `out`.
fn place_node(n: &TreeNode, y: i64, out: &mut Vec<DrawCommand>) -> (r: i64)
    requires
        y - MAX_STEP * node_count(*n) >= i64::MIN,
    ensures
        views(final(out)@) == views(old(out)@) + place(*n, y as int).0,
        r == place(*n, y as int).1,
    decreases n,
{
    proof {
        lemma_place_bounds(*n, y as int);
    }
    let len = n.children.len();
    match &n.kind {
        NodeKind::Heading(level) => {
            let size = heading_font_size(*level);
            let top = y - 7 * (size as i64);
            let text = collect_text(n);
            let ghost before = views(out@);
            out.push(DrawCommand { text, font_size: size, x: BODY_X, y: top });
            assert(views(out@) =~= before + place(*n, y as int).0);
            top - BLOCK_GAP
        },
        NodeKind::Paragraph => {
            let top = y - PARAGRAPH_ADVANCE;
            let text = collect_text(n);
            let ghost before = views(out@);
            out.push(DrawCommand { text, font_size: BODY_SIZE, x: BODY_X, y: top });
            assert(views(out@) =~= before + place(*n, y as int).0);
            top - BLOCK_GAP
        },
        NodeKind::List => {
            proof {
                lemma_children_count_mono(*n, 0, len as int);
            }
            let mut cur = y;
            let mut i: usize = 0;
            while i < len
                invariant
                    len == n.children@.len(),
                    i <= len,
                    y - MAX_STEP * node_count(*n) >= i64::MIN,
                    len <= children_count(*n, len as int),
                    node_count(*n) == 1 + children_count(*n, len as int),
                    cur == place_items(*n, i as int, y as int).1,
                    views(out@) == views(old(out)@) + place_items(*n, i as int, y as int).0,
                decreases len - i,
            {
                proof {
                    lemma_place_items_bounds(*n, i as int, y as int);
                }
                assert(y - (ITEM_ADVANCE + ITEM_GAP) * (i + 1) >= i64::MIN) by (nonlinear_arith)
                    requires
                        y - 208 * node_count(*n) >= i64::MIN,
                        node_count(*n) == 1 + children_count(*n, len as int),
                        i < len <= children_count(*n, len as int),
                        ITEM_ADVANCE + ITEM_GAP == 100,
                ;
                assert(cur >= y - (ITEM_ADVANCE + ITEM_GAP) * i);
                assert(cur - ITEM_ADVANCE - ITEM_GAP >= i64::MIN) by (nonlinear_arith)
                    requires
                        cur >= y - 100 * i,
                        y - 100 * (i + 1) >= i64::MIN,
                        ITEM_ADVANCE + ITEM_GAP == 100,
                ;
                let c = &n.children[i];
                if let NodeKind::Item = c.kind {
                    let top = cur - ITEM_ADVANCE;
                    proof {
                        reveal_strlit("• ");
                    }
                    let mut text = String::from_str("• ");
                    assert(text@ =~= bullet());
                    append_text(c, &mut text);
                    let ghost before = views(out@);
                    out.push(DrawCommand { text, font_size: BODY_SIZE, x: LIST_X, y: top });
                    assert(views(out@) =~= before.push(item_line(*c, cur as int)));
                    cur = top - ITEM_GAP;
                }
                i = i + 1;
                assert(views(out@) =~= views(old(out)@) + place_items(*n, i as int, y as int).0);
            }
            cur
        },
        _ => {
            let mut cur = y;
            let mut i: usize = 0;
            while i < len
                invariant
                    len == n.children@.len(),
                    i <= len,
                    y - MAX_STEP * node_count(*n) >= i64::MIN,
                    node_count(*n) == 1 + children_count(*n, len as int),
                    cur == place_children(*n, i as int, y as int).1,
                    views(out@) == views(old(out)@) + place_children(*n, i as int, y as int).0,
                decreases len - i,
            {
                proof {
                    lemma_place_children_bounds(*n, i as int, y as int);
                    lemma_children_count_mono(*n, i + 1, len as int);
                }
                cur = place_node(&n.children[i], cur, out);
                i = i + 1;
                assert(views(out@) =~= views(old(out)@) + place_children(*n, i as int, y as int).0);
            }
            cur
        },
    }
}

/// The number of nodes under `n`, or `limit + 1` where there are more than `limit`.
fn count_up_to(n: &TreeNode, limit: u64) -> (r: u64)
    requires
        limit <= MAX_LAYOUT_NODES,
    ensures
        r == if node_count(*n) <= limit { node_count(*n) } else { limit as nat + 1 },
    decreases n,
{
    let len = n.children.len();
    let mut total: u64 = 1;
    let mut i: usize = 0;
    while i < len
        invariant
            len == n.children@.len(),
            i <= len,
            limit <= MAX_LAYOUT_NODES,
            total == if 1 + children_count(*n, i as int) <= limit {
                1 + children_count(*n, i as int)
            } else {
                limit as nat + 1
            },
        decreases len - i,
    {
        let c = count_up_to(&n.children[i], limit);
        if total + c > limit {
            total = limit + 1;
        } else {
            total = total + c;
        }
        i = i + 1;
    }
    total
}

/// Whether a tree is small enough for [`layout`].
pub fn fits_layout(root: &TreeNode) -> (r: bool)
    ensures
        r == (node_count(*root) <= MAX_LAYOUT_NODES),
{
    count_up_to(root, MAX_LAYOUT_NODES) <= MAX_LAYOUT_NODES
}

/// Lays a document out on one page, top-down, without pagination.
pub fn layout(root: &TreeNode) -> (r: Vec<DrawCommand>)
    requires
        node_count(*root) <= MAX_LAYOUT_NODES,
    ensures
        views(r@) == layout_of(*root),
{
    let mut out: Vec<DrawCommand> = Vec::new();
    let _ = place_node(root, START_Y, &mut out);
    assert(views(out@) =~= layout_of(*root));
    out
}

/// A deeper heading is never drawn larger: for levels `1 <= a <= b`,
/// a heading of level `b` gets at most the font size of level `a`.
pub proof fn heading_sizes_non_increasing(a: u8, b: u8)
    requires
        1 <= a <= b,
    ensures
        heading_size(a) >= heading_size(b),
{
}

/// Successive draw commands of any document go strictly down the page.
pub proof fn layout_descends(root: TreeNode)
    ensures
        forall|i: int, j: int|
            0 <= i < j < layout_of(root).len() ==> #[trigger] layout_of(root)[j].y
                < #[trigger] layout_of(root)[i].y,
{
    lemma_place_bounds(root, START_Y as int);
}

/// A node that is neither a heading, a paragraph nor a list draws nothing
/// itself: its commands are those of its children, laid out one after the other.
pub proof fn container_draws_only_children(n: TreeNode, y: int)
    requires
        !(n.kind is Heading || n.kind is Paragraph || n.kind is List),
    ensures
        place(n, y) == place_children(n, n.children@.len() as int, y),
{
}

/// A paragraph inside such a container is still drawn: a container whose one
/// child is a paragraph draws exactly that paragraph's line.
pub proof fn nested_paragraph_drawn(n: TreeNode, y: int)
    requires
        !(n.kind is Heading || n.kind is Paragraph || n.kind is List),
        n.children@.len() == 1,
        n.children@[0].kind is Paragraph,
    ensures
        place(n, y).0 == seq![
            PlacedText {
                text: text_of(n.children@[0]),
                size: BODY_SIZE as int,
                x: BODY_X as int,
                y: y - PARAGRAPH_ADVANCE,
            },
        ],
{
    assert(place_children(n, 0, y).0 =~= Seq::<PlacedText>::empty());
    assert(place(n, y).0 =~= place(n.children@[0], y).0);
}

} // verus!
