//! The node arena: the UI tree as the engine sees it.
//!
//! Nodes are stored in paint order, which is depth-first mount order: every
//! node comes after its parent. Each node carries its attributes and the
//! state the engine derives from them: resolved style, layout binding and
//! solved box. The tree is edited in place: nodes are inserted and removed
//! with their subtrees, attributes and text are set and cleared.

use vstd::prelude::*;
use super::attribute::{attribute_index, is_first_attribute, Attribute, AttributeValue};
use super::rdom_style::{default_style, lemma_depth_in_range, resolve, RdomStyle};
use crate::constant::MAX_DEEP_3D;
use super::layout_style::LayoutStyle;
use super::taffy_layout::{
    commit_spec,
    container_plan,
    text_plan,
    Layout,
    LayoutPlan,
    SolverActionView,
    TaffyLayout,
};

verus! {

/// The largest number of nodes a tree holds.
pub const MAX_NODES: usize = 1048576;

/// The element kinds the renderer tells apart.
#[derive(Clone, Copy, PartialEq, Eq, Structural, Debug)]
pub enum ElementTag {
    /// A container.
    Div,
    /// An image.
    Img,
    /// Any other element; drawn as a container.
    Other,
}

/// What a node is.
pub enum NodeType {
    /// A run of text.
    Text(String),
    /// An element.
    Element(ElementTag),
    /// A node that holds a place in the tree and draws nothing.
    Placeholder,
}

/// The event types a node listens for.
#[derive(Clone, Copy, PartialEq, Eq, Structural, Debug)]
pub struct Listeners {
    /// `"keypress"`
    pub keypress: bool,
    /// `"mousedown"`
    pub mousedown: bool,
    /// `"mouseup"`
    pub mouseup: bool,
    /// `"click"`
    pub click: bool,
}

/// One node of the tree.
pub struct Node {
    /// The position of the parent in the arena; `None` for a root.
    pub parent: Option<usize>,
    /// What the node is.
    pub node_type: NodeType,
    /// The node's own attributes.
    pub attributes: Vec<Attribute>,
    /// The resolved style.
    pub style: RdomStyle,
    /// The layout binding.
    pub layout: TaffyLayout,
    /// The solved box, relative to the parent's origin.
    pub geometry: Layout,
    /// The id under which the component framework mounted the node, if it
    /// has.
    pub mounted_id: Option<usize>,
    /// The events the node listens for.
    pub listeners: Listeners,
}

/// The node arena.
pub struct NodeTree {
    nodes: Vec<Node>,
}

/// Whether a sequence of nodes is a tree in paint order: no more nodes than
/// the arena holds, and every parent before its children.
pub open spec fn tree_wf(nodes: Seq<Node>) -> bool {
    &&& nodes.len() <= MAX_NODES
    &&& forall|i: int|
        0 <= i < nodes.len() ==> ((#[trigger] nodes[i]).parent matches Some(p) ==> p < i)
}

/// The position of a node's parent, if it has one.
pub open spec fn parent_of(nodes: Seq<Node>, i: int) -> Option<int> {
    if 0 <= i < nodes.len() {
        match nodes[i].parent {
            Some(p) => if p < i {
                Some(p as int)
            } else {
                None
            },
            None => None,
        }
    } else {
        None
    }
}

/// The style a node resolves to in the cascade: its attributes applied to
/// the style its parent resolves to, or to the defaults at a root.
pub open spec fn cascaded(nodes: Seq<Node>, i: int) -> RdomStyle
    decreases i,
{
    if 0 <= i < nodes.len() {
        resolve(
            nodes[i].attributes@,
            match nodes[i].parent {
                Some(p) => if p < i {
                    Some(cascaded(nodes, p as int))
                } else {
                    None
                },
                None => None,
            },
        )
    } else {
        default_style()
    }
}

/// The horizontal distance of a node's box from the screen's left edge, in
/// thousandths: the sum of the solved offsets of the node and its ancestors.
pub open spec fn origin_x(nodes: Seq<Node>, i: int) -> int
    decreases i,
{
    if 0 <= i < nodes.len() {
        nodes[i].geometry.x + (match nodes[i].parent {
            Some(p) => if p < i {
                origin_x(nodes, p as int)
            } else {
                0
            },
            None => 0,
        })
    } else {
        0
    }
}

/// The vertical distance of a node's box from the screen's top edge, in
/// thousandths.
pub open spec fn origin_y(nodes: Seq<Node>, i: int) -> int
    decreases i,
{
    if 0 <= i < nodes.len() {
        nodes[i].geometry.y + (match nodes[i].parent {
            Some(p) => if p < i {
                origin_y(nodes, p as int)
            } else {
                0
            },
            None => 0,
        })
    } else {
        0
    }
}

/// The solver handles bound to the first `n` nodes, in arena order.
pub open spec fn bound_handles(nodes: Seq<Node>, n: nat) -> Seq<u64>
    decreases n,
{
    if n == 0 || n > nodes.len() {
        Seq::empty()
    } else {
        let earlier = bound_handles(nodes, (n - 1) as nat);
        match nodes[n - 1].layout.node {
            Some(handle) => earlier.push(handle),
            None => earlier,
        }
    }
}

/// A node's attributes after one of them has been set: the first
/// attribute of the name takes the value, or, where there is none, the
/// attribute is added at the end.
pub open spec fn is_set_in(
    before: Seq<Attribute>,
    after: Seq<Attribute>,
    name: Seq<char>,
    value: AttributeValue,
) -> bool {
    if exists|i: int| is_first_attribute(before, name, i) {
        let i = choose|i: int| is_first_attribute(before, name, i);
        &&& after.len() == before.len()
        &&& after[i].name@ == name && after[i].value == value
        &&& forall|j: int| 0 <= j < before.len() && j != i ==> after[j] == before[j]
    } else {
        &&& after.len() == before.len() + 1
        &&& after.last().name@ == name && after.last().value == value
        &&& forall|j: int| 0 <= j < before.len() ==> after[j] == before[j]
    }
}

/// A node's attributes after the first attribute of a name has been
/// cleared; the same attributes where there is none.
pub open spec fn cleared_in(before: Seq<Attribute>, name: Seq<char>) -> Seq<Attribute> {
    if exists|i: int| is_first_attribute(before, name, i) {
        before.remove(choose|i: int| is_first_attribute(before, name, i))
    } else {
        before
    }
}

/// The solver handles of a node's children among the first `n` nodes, in
/// arena order, which is the order of the children; `None` for a child
/// that is not bound yet.
pub open spec fn child_handles(nodes: Seq<Node>, parent: int, n: nat) -> Seq<Option<u64>>
    decreases n,
{
    if n == 0 || n > nodes.len() {
        Seq::empty()
    } else {
        let earlier = child_handles(nodes, parent, (n - 1) as nat);
        if nodes[n - 1].parent == Some(parent as usize) {
            earlier.push(nodes[n - 1].layout.node)
        } else {
            earlier
        }
    }
}

/// The resolved style of a node's parent, as the node's layout sees it.
pub open spec fn parent_style(nodes: Seq<Node>, i: int) -> Option<RdomStyle> {
    match parent_of(nodes, i) {
        Some(p) => Some(nodes[p].style),
        None => None,
    }
}

/// The layout plan of a node within its tree: a text node is a leaf of
/// the measured extent under its parent's style; any other node is a
/// container of its bound children.
pub open spec fn layout_plan(
    nodes: Seq<Node>,
    i: int,
    extent: (i32, i32),
    solver_children: Seq<u64>,
) -> (LayoutStyle, SolverActionView) {
    match nodes[i].node_type {
        NodeType::Text(_) => text_plan(
            nodes[i].layout,
            extent.0,
            extent.1,
            parent_style(nodes, i),
        ),
        _ => container_plan(
            nodes[i].layout,
            nodes[i].attributes@,
            child_handles(nodes, i, nodes.len()),
            solver_children,
        ),
    }
}

/// A node as it stands after a node has been inserted at `index`: a parent
/// at or after the new node has moved one position on.
pub open spec fn shifted(node: Node, index: int) -> Node {
    match node.parent {
        Some(p) => if p >= index {
            Node { parent: Some((p + 1) as usize), ..node }
        } else {
            node
        },
        None => node,
    }
}

/// A tree after a node has been inserted at a position of its arena.
pub open spec fn inserted(nodes: Seq<Node>, index: int, node: Node) -> Seq<Node> {
    nodes.take(index).push(node) + nodes.skip(index).map_values(|n: Node| shifted(n, index))
}

/// Whether a node belongs to the subtree of another: it is that node, or
/// its parent belongs to the subtree.
pub open spec fn in_subtree(nodes: Seq<Node>, root: int, i: int) -> bool
    decreases i,
{
    if i == root {
        true
    } else if 0 <= i < nodes.len() {
        match nodes[i].parent {
            Some(p) => p < i && in_subtree(nodes, root, p as int),
            None => false,
        }
    } else {
        false
    }
}

/// The number of nodes among the first `n` that lie outside the subtree
/// of a node: the position that node `n` moves to when the subtree is
/// removed.
pub open spec fn stays_before(nodes: Seq<Node>, root: int, n: nat) -> nat
    decreases n,
{
    if n == 0 || n > nodes.len() {
        0
    } else if in_subtree(nodes, root, n - 1) {
        stays_before(nodes, root, (n - 1) as nat)
    } else {
        stays_before(nodes, root, (n - 1) as nat) + 1
    }
}

/// The first `n` nodes of a tree without the subtree of a node: the nodes
/// that stay, in order, each with its parent at the position the parent
/// has moved to.
pub open spec fn without_subtree(nodes: Seq<Node>, root: int, n: nat) -> Seq<Node>
    decreases n,
{
    if n == 0 || n > nodes.len() {
        Seq::empty()
    } else {
        let earlier = without_subtree(nodes, root, (n - 1) as nat);
        let node = nodes[n - 1];
        if in_subtree(nodes, root, n - 1) {
            earlier
        } else {
            earlier.push(
                Node {
                    parent: match node.parent {
                        Some(p) => Some(stays_before(nodes, root, p as nat) as usize),
                        None => None,
                    },
                    ..node
                },
            )
        }
    }
}

/// The solver handles bound within the subtree of a node, among the first
/// `n` nodes, in arena order.
pub open spec fn subtree_handles(nodes: Seq<Node>, root: int, n: nat) -> Seq<u64>
    decreases n,
{
    if n == 0 || n > nodes.len() {
        Seq::empty()
    } else {
        let earlier = subtree_handles(nodes, root, (n - 1) as nat);
        if in_subtree(nodes, root, n - 1) {
            match nodes[n - 1].layout.node {
                Some(handle) => earlier.push(handle),
                None => earlier,
            }
        } else {
            earlier
        }
    }
}

proof fn lemma_stays_before(nodes: Seq<Node>, root: int, m: nat, n: nat)
    requires
        m <= n <= nodes.len(),
    ensures
        without_subtree(nodes, root, n).len() == stays_before(nodes, root, n),
        stays_before(nodes, root, m) <= stays_before(nodes, root, n) <= n,
        m < n && !in_subtree(nodes, root, m as int) ==> stays_before(nodes, root, m)
            < stays_before(nodes, root, n),
    decreases n,
{
    if m < n {
        lemma_stays_before(nodes, root, m, (n - 1) as nat);
    } else if n > 0 {
        lemma_stays_before(nodes, root, (n - 1) as nat, (n - 1) as nat);
    }
}

proof fn lemma_without_subtree_wf(nodes: Seq<Node>, root: int, n: nat)
    requires
        tree_wf(nodes),
        n <= nodes.len(),
    ensures
        forall|k: int|
            0 <= k < without_subtree(nodes, root, n).len() ==> ((#[trigger] without_subtree(
                nodes,
                root,
                n,
            )[k]).parent matches Some(p) ==> p < k),
    decreases n,
{
    if n > 0 {
        let m = (n - 1) as nat;
        lemma_without_subtree_wf(nodes, root, m);
        let earlier = without_subtree(nodes, root, m);
        let now = without_subtree(nodes, root, n);
        lemma_stays_before(nodes, root, m, m);
        if !in_subtree(nodes, root, m as int) {
            match nodes[m as int].parent {
                Some(p) => {
                    lemma_stays_before(nodes, root, p as nat, m);
                },
                None => {},
            }
            assert forall|k: int| 0 <= k < now.len() implies ((#[trigger] now[k]).parent matches Some(
                p,
            ) ==> p < k) by {
                if k < earlier.len() {
                    assert(now[k] == earlier[k]);
                }
            }
        }
    }
}

/// A node with another style and everything else as before.
pub open spec fn with_style(node: Node, style: RdomStyle) -> Node {
    Node { style, ..node }
}

/// An origin lies within a distance from the screen corner that grows with
/// the node's position in the arena, so that sums of offsets never leave
/// the range of `i64`.
pub proof fn lemma_origin_bounds(nodes: Seq<Node>, i: int)
    requires
        0 <= i < nodes.len(),
    ensures
        -(i + 1) * 0x8000_0000 <= origin_x(nodes, i) <= (i + 1) * 0x8000_0000,
        -(i + 1) * 0x8000_0000 <= origin_y(nodes, i) <= (i + 1) * 0x8000_0000,
    decreases i,
{
    match nodes[i].parent {
        Some(p) => {
            if p < i {
                lemma_origin_bounds(nodes, p as int);
                assert((p + 1) * 0x8000_0000 <= i * 0x8000_0000) by (nonlinear_arith)
                    requires
                        p + 1 <= i,
                ;
                assert((i + 1) * 0x8000_0000 == i * 0x8000_0000 + 0x8000_0000) by (nonlinear_arith);
            } else {
                assert((i + 1) * 0x8000_0000 >= 0x8000_0000) by (nonlinear_arith)
                    requires
                        i >= 0,
                ;
            }
        },
        None => {
            assert((i + 1) * 0x8000_0000 >= 0x8000_0000) by (nonlinear_arith)
                requires
                    i >= 0,
            ;
        },
    }
}

impl View for NodeTree {
    type V = Seq<Node>;

    closed spec fn view(&self) -> Seq<Node> {
        self.nodes@
    }
}

impl NodeTree {
    /// Whether the arena holds a tree in paint order. Every tree this
    /// module hands out does, and every operation keeps it so.
    pub open spec fn wf(&self) -> bool {
        tree_wf(self@)
    }

    /// An empty tree.
    pub fn new() -> (tree: NodeTree)
        ensures
            tree@ == Seq::<Node>::empty(),
            tree.wf(),
    {
        NodeTree { nodes: Vec::new() }
    }

    /// The number of nodes.
    pub fn len(&self) -> (len: usize)
        ensures
            len == self@.len(),
    {
        self.nodes.len()
    }

    /// Appends a node in paint order and returns its position. The node is
    /// refused, and the tree left alone, if the arena is full or the node
    /// names a parent that is not in the tree.
    pub fn push(&mut self, node: Node) -> (index: Option<usize>)
        requires
            old(self).wf(),
        ensures
            final(self).wf(),
            match index {
                Some(i) => i == old(self)@.len() && final(self)@ == old(self)@.push(node),
                None => final(self)@ == old(self)@,
            },
            index.is_some() <==> old(self)@.len() < MAX_NODES && (node.parent matches Some(p) ==> p
                < old(self)@.len()),
    {
        let len = self.nodes.len();
        if len >= MAX_NODES {
            return None;
        }
        match node.parent {
            Some(p) => {
                if p >= len {
                    return None;
                }
            },
            None => {},
        }
        self.nodes.push(node);
        Some(len)
    }

    /// Inserts a node at a position of the arena; the nodes from there on
    /// move one position on, and so do the parents among them. The node is
    /// refused, and the tree left alone, if the arena is full, the
    /// position lies beyond its end, or the node's parent does not stand
    /// before the position.
    pub fn insert(&mut self, index: usize, node: Node) -> (done: bool)
        requires
            old(self).wf(),
        ensures
            final(self).wf(),
            done <==> index <= old(self)@.len() && old(self)@.len() < MAX_NODES && (
            node.parent matches Some(p) ==> p < index),
            final(self)@ == if done {
                inserted(old(self)@, index as int, node)
            } else {
                old(self)@
            },
    {
        let len = self.nodes.len();
        if index > len || len >= MAX_NODES {
            return false;
        }
        match node.parent {
            Some(p) => {
                if p >= index {
                    return false;
                }
            },
            None => {},
        }
        let ghost before = self.nodes@;
        self.nodes.insert(index, node);
        let mut j: usize = index + 1;
        while j < self.nodes.len()
            invariant
                index < j <= self.nodes.len(),
                self.nodes@.len() == before.len() + 1,
                index <= before.len() < MAX_NODES,
                tree_wf(before),
                node.parent matches Some(p) ==> p < index,
                forall|k: int| 0 <= k < index ==> #[trigger] self.nodes@[k] == before[k],
                self.nodes@[index as int] == node,
                forall|k: int| index < k < j ==> #[trigger] self.nodes@[k] == shifted(
                    before[k - 1],
                    index as int,
                ),
                forall|k: int|
                    j <= k < self.nodes@.len() ==> #[trigger] self.nodes@[k] == before[k - 1],
            decreases self.nodes.len() - j,
        {
            let ghost previous = self.nodes@;
            match self.nodes[j].parent {
                Some(p) => {
                    if p >= index {
                        assert(before[j - 1].parent == Some(p));
                        self.nodes[j].parent = Some(p + 1);
                    }
                },
                None => {},
            }
            assert(self.nodes@[j as int] == shifted(before[j - 1], index as int));
            assert forall|k: int| 0 <= k < self.nodes@.len() && k != j implies self.nodes@[k]
                == previous[k] by {}
            j += 1;
        }
        proof {
            let after = inserted(before, index as int, node);
            assert(self.nodes@ =~= after);
            assert forall|k: int| 0 <= k < after.len() implies ((#[trigger] after[k]).parent matches Some(
                p,
            ) ==> p < k) by {
                if k < index {
                    assert(after[k] == before[k]);
                } else if k > index {
                    assert(after[k] == shifted(before[k - 1], index as int));
                }
            }
        }
        true
    }

    /// Removes a node with its whole subtree. The nodes that stay move up,
    /// and their parents with them. Returns the solver handles that were
    /// bound within the subtree, for the solver to release.
    pub fn remove(&mut self, index: usize) -> (released: Vec<u64>)
        requires
            old(self).wf(),
            index < old(self)@.len(),
        ensures
            final(self).wf(),
            final(self)@ == without_subtree(old(self)@, index as int, old(self)@.len()),
            released@ == subtree_handles(old(self)@, index as int, old(self)@.len()),
    {
        let mut nodes: Vec<Node> = Vec::new();
        core::mem::swap(&mut self.nodes, &mut nodes);
        let ghost before = nodes@;
        let mut gone: Vec<bool> = Vec::new();
        let mut moved_to: Vec<usize> = Vec::new();
        let mut released: Vec<u64> = Vec::new();
        for node in iter: nodes.into_iter()
            invariant
                iter.seq() == before,
                tree_wf(before),
                index < before.len(),
                gone@.len() == iter.index(),
                moved_to@.len() == iter.index(),
                forall|k: int|
                    0 <= k < iter.index() ==> #[trigger] gone@[k] == in_subtree(
                        before,
                        index as int,
                        k,
                    ),
                forall|k: int|
                    0 <= k < iter.index() ==> #[trigger] moved_to@[k] == stays_before(
                        before,
                        index as int,
                        k as nat,
                    ),
                self.nodes@ == without_subtree(before, index as int, iter.index() as nat),
                released@ == subtree_handles(before, index as int, iter.index() as nat),
        {
            let i = gone.len();
            proof {
                lemma_stays_before(before, index as int, i as nat, i as nat);
            }
            let is_gone = i == index || match node.parent {
                Some(p) => p < i && gone[p],
                None => false,
            };
            moved_to.push(self.nodes.len());
            gone.push(is_gone);
            if is_gone {
                match node.layout.node {
                    Some(handle) => {
                        released.push(handle);
                    },
                    None => {},
                }
            } else {
                let parent = match node.parent {
                    Some(p) => Some(moved_to[p]),
                    None => None,
                };
                self.nodes.push(
                    Node {
                        parent,
                        node_type: node.node_type,
                        attributes: node.attributes,
                        style: node.style,
                        layout: node.layout,
                        geometry: node.geometry,
                        mounted_id: node.mounted_id,
                        listeners: node.listeners,
                    },
                );
            }
        }
        proof {
            lemma_without_subtree_wf(before, index as int, before.len());
            lemma_stays_before(before, index as int, 0, before.len());
        }
        released
    }

    /// The node at a position.
    pub fn get(&self, index: usize) -> (node: Option<&Node>)
        ensures
            match node {
                Some(n) => index < self@.len() && *n == self@[index as int],
                None => index >= self@.len(),
            },
    {
        if index < self.nodes.len() {
            Some(&self.nodes[index])
        } else {
            None
        }
    }

    /// Stores the box the solver computed for a node.
    pub fn set_geometry(&mut self, index: usize, geometry: Layout)
        requires
            old(self).wf(),
            index < old(self)@.len(),
        ensures
            final(self).wf(),
            final(self)@ == old(self)@.update(
                index as int,
                (Node { geometry, ..old(self)@[index as int] }),
            ),
    {
        self.nodes[index].geometry = geometry;
        assert(self.nodes@ =~= old(self).nodes@.update(
            index as int,
            (Node { geometry, ..old(self).nodes@[index as int] }),
        ));
    }

    /// Stores a node's layout binding.
    pub fn set_layout(&mut self, index: usize, layout: TaffyLayout)
        requires
            old(self).wf(),
            index < old(self)@.len(),
        ensures
            final(self).wf(),
            final(self)@ == old(self)@.update(
                index as int,
                (Node { layout, ..old(self)@[index as int] }),
            ),
    {
        self.nodes[index].layout = layout;
        assert(self.nodes@ =~= old(self).nodes@.update(
            index as int,
            (Node { layout, ..old(self).nodes@[index as int] }),
        ));
    }

    /// Replaces a node's attributes.
    pub fn set_attributes(&mut self, index: usize, attributes: Vec<Attribute>)
        requires
            old(self).wf(),
            index < old(self)@.len(),
        ensures
            final(self).wf(),
            final(self)@ == old(self)@.update(
                index as int,
                (Node { attributes, ..old(self)@[index as int] }),
            ),
    {
        self.nodes[index].attributes = attributes;
        assert(self.nodes@ =~= old(self).nodes@.update(
            index as int,
            (Node { attributes, ..old(self).nodes@[index as int] }),
        ));
    }

    /// Sets an attribute of a node: the first attribute of the name takes
    /// the value, or the attribute is added.
    pub fn set_attribute(&mut self, index: usize, name: String, value: AttributeValue)
        requires
            old(self).wf(),
            index < old(self)@.len(),
        ensures
            final(self).wf(),
            final(self)@.len() == old(self)@.len(),
            forall|j: int|
                0 <= j < old(self)@.len() && j != index ==> #[trigger] final(self)@[j] == old(
                    self,
                )@[j],
            final(self)@[index as int] == (Node {
                attributes: final(self)@[index as int].attributes,
                ..old(self)@[index as int]
            }),
            is_set_in(
                old(self)@[index as int].attributes@,
                final(self)@[index as int].attributes@,
                name@,
                value,
            ),
    {
        match attribute_index(&self.nodes[index].attributes, name.as_str()) {
            Some(i) => {
                self.nodes[index].attributes[i].value = value;
            },
            None => {
                self.nodes[index].attributes.push(Attribute { name, value });
            },
        }
    }

    /// Clears an attribute of a node: the first attribute of the name is
    /// taken away, if there is one.
    pub fn clear_attribute(&mut self, index: usize, name: &str)
        requires
            old(self).wf(),
            index < old(self)@.len(),
        ensures
            final(self).wf(),
            final(self)@.len() == old(self)@.len(),
            forall|j: int|
                0 <= j < old(self)@.len() && j != index ==> #[trigger] final(self)@[j] == old(
                    self,
                )@[j],
            final(self)@[index as int] == (Node {
                attributes: final(self)@[index as int].attributes,
                ..old(self)@[index as int]
            }),
            final(self)@[index as int].attributes@ == cleared_in(
                old(self)@[index as int].attributes@,
                name@,
            ),
    {
        match attribute_index(&self.nodes[index].attributes, name) {
            Some(i) => {
                self.nodes[index].attributes.remove(i);
            },
            None => {},
        }
    }

    /// Replaces the text of a text node; any other node stays as it is.
    pub fn set_text(&mut self, index: usize, text: String)
        requires
            old(self).wf(),
            index < old(self)@.len(),
        ensures
            final(self).wf(),
            final(self)@ == old(self)@.update(
                index as int,
                (Node {
                    node_type: match old(self)@[index as int].node_type {
                        NodeType::Text(_) => NodeType::Text(text),
                        other => other,
                    },
                    ..old(self)@[index as int]
                }),
            ),
    {
        let is_text = match &self.nodes[index].node_type {
            NodeType::Text(_) => true,
            _ => false,
        };
        if is_text {
            self.nodes[index].node_type = NodeType::Text(text);
        }
        assert(self.nodes@ =~= old(self).nodes@.update(
            index as int,
            (Node {
                node_type: match old(self).nodes@[index as int].node_type {
                    NodeType::Text(_) => NodeType::Text(text),
                    other => other,
                },
                ..old(self).nodes@[index as int]
            }),
        ));
    }

    /// Resolves the style of every node, parents before children, and
    /// reports whether any node's style changed. Afterwards every node
    /// holds the style the cascade gives it; nothing else is touched.
    pub fn resolve_styles(&mut self) -> (changed: bool)
        requires
            old(self).wf(),
        ensures
            final(self).wf(),
            final(self)@.len() == old(self)@.len(),
            forall|i: int|
                0 <= i < old(self)@.len() ==> #[trigger] final(self)@[i] == with_style(
                    old(self)@[i],
                    cascaded(old(self)@, i),
                ),
            changed == exists|i: int|
                0 <= i < old(self)@.len() && (#[trigger] old(self)@[i]).style != cascaded(
                    old(self)@,
                    i,
                ),
    {
        let ghost before = self.nodes@;
        let mut changed = false;
        let mut i: usize = 0;
        while i < self.nodes.len()
            invariant
                i <= self.nodes.len(),
                self.nodes@.len() == before.len(),
                tree_wf(before),
                forall|j: int|
                    0 <= j < i ==> #[trigger] self.nodes@[j] == with_style(
                        before[j],
                        cascaded(before, j),
                    ),
                forall|j: int| i <= j < before.len() ==> #[trigger] self.nodes@[j] == before[j],
                changed == exists|j: int|
                    0 <= j < i && (#[trigger] before[j]).style != cascaded(before, j),
            decreases self.nodes.len() - i,
        {
            let parent = match self.nodes[i].parent {
                Some(p) => {
                    if p < i {
                        Some(self.nodes[p].style)
                    } else {
                        None
                    }
                },
                None => None,
            };
            assert(self.nodes@[i as int] == before[i as int]);
            let mut style = self.nodes[i].style;
            let node_changed = style.update(&self.nodes[i].attributes, parent);
            let ghost previous = self.nodes@;
            self.nodes[i].style = style;
            proof {
                assert(style == cascaded(before, i as int));
                assert(self.nodes@[i as int] == with_style(before[i as int], style));
                assert forall|j: int| 0 <= j < i + 1 implies #[trigger] self.nodes@[j] == with_style(
                    before[j],
                    cascaded(before, j),
                ) by {
                    if j < i {
                        assert(self.nodes@[j] == previous[j]);
                    }
                }
                assert forall|j: int| i + 1 <= j < before.len() implies #[trigger] self.nodes@[j]
                    == before[j] by {
                    assert(self.nodes@[j] == previous[j]);
                }
                if node_changed {
                    assert(before[i as int].style != cascaded(before, i as int));
                }
                assert forall|j: int|
                    0 <= j < self.nodes@.len() implies ((#[trigger] self.nodes@[j]).parent matches Some(
                    p,
                ) ==> p < j) by {
                    assert(self.nodes@[j].parent == before[j].parent);
                }
            }
            changed = changed || node_changed;
            i += 1;
        }
        changed
    }

    /// Plans the layout of one node: for a text node from its measured
    /// extent (ignored otherwise), for a container from its attributes, the
    /// handles of its children in order, and the child list the solver
    /// holds for it (ignored for text).
    pub fn sync_layout(&self, index: usize, extent: (i32, i32), solver_children: &Vec<u64>) -> (plan:
        LayoutPlan)
        requires
            self.wf(),
            index < self@.len(),
        ensures
            (plan.style, plan.action@) == layout_plan(
                self@,
                index as int,
                extent,
                solver_children@,
            ),
    {
        let node = &self.nodes[index];
        match &node.node_type {
            NodeType::Text(_) => {
                let parent = match node.parent {
                    Some(p) => {
                        if p < index {
                            Some(self.nodes[p].style)
                        } else {
                            None
                        }
                    },
                    None => None,
                };
                node.layout.sync_text(extent.0, extent.1, parent)
            },
            _ => {
                let mut children: Vec<Option<u64>> = Vec::new();
                let mut i: usize = 0;
                while i < self.nodes.len()
                    invariant
                        i <= self.nodes.len(),
                        children@ == child_handles(self.nodes@, index as int, i as nat),
                    decreases self.nodes.len() - i,
                {
                    match self.nodes[i].parent {
                        Some(p) => {
                            if p == index {
                                children.push(self.nodes[i].layout.node);
                            }
                        },
                        None => {},
                    }
                    i += 1;
                }
                node.layout.sync_container(&node.attributes, &children, solver_children)
            },
        }
    }

    /// Records that a node's layout plan was carried out; see
    /// [`TaffyLayout::commit`]. Reports whether the node changed.
    pub fn commit_layout(&mut self, index: usize, style: LayoutStyle, created: Option<u64>) -> (changed:
        bool)
        requires
            old(self).wf(),
            index < old(self)@.len(),
            old(self)@[index as int].layout.node.is_none() ==> created.is_some(),
        ensures
            final(self).wf(),
            final(self)@ == old(self)@.update(
                index as int,
                (Node {
                    layout: commit_spec(old(self)@[index as int].layout, style, created).0,
                    ..old(self)@[index as int]
                }),
            ),
            changed == commit_spec(old(self)@[index as int].layout, style, created).1,
    {
        let mut layout = self.nodes[index].layout;
        let changed = layout.commit(style, created);
        self.set_layout(index, layout);
        changed
    }

    /// The solver handles bound to the tree's nodes, in arena order.
    pub fn handles(&self) -> (handles: Vec<u64>)
        ensures
            handles@ == bound_handles(self@, self@.len()),
    {
        let mut handles: Vec<u64> = Vec::new();
        let mut i: usize = 0;
        while i < self.nodes.len()
            invariant
                i <= self.nodes.len(),
                handles@ == bound_handles(self.nodes@, i as nat),
            decreases self.nodes.len() - i,
        {
            match self.nodes[i].layout.node {
                Some(handle) => {
                    handles.push(handle);
                },
                None => {},
            }
            i += 1;
        }
        handles
    }

    /// The origin of every node's box on its screen, in thousandths.
    pub fn origins(&self) -> (origins: Vec<(i64, i64)>)
        requires
            self.wf(),
        ensures
            origins@.len() == self@.len(),
            forall|i: int|
                0 <= i < self@.len() ==> #[trigger] origins@[i] == (
                    origin_x(self@, i) as i64,
                    origin_y(self@, i) as i64,
                ) && i64::MIN <= origin_x(self@, i) <= i64::MAX && i64::MIN <= origin_y(self@, i)
                    <= i64::MAX,
    {
        let mut origins: Vec<(i64, i64)> = Vec::new();
        let mut i: usize = 0;
        while i < self.nodes.len()
            invariant
                i <= self.nodes.len(),
                tree_wf(self.nodes@),
                origins@.len() == i,
                forall|j: int|
                    0 <= j < i ==> #[trigger] origins@[j] == (
                        origin_x(self.nodes@, j) as i64,
                        origin_y(self.nodes@, j) as i64,
                    ) && i64::MIN <= origin_x(self.nodes@, j) <= i64::MAX && i64::MIN <= origin_y(
                        self.nodes@,
                        j,
                    ) <= i64::MAX,
            decreases self.nodes.len() - i,
        {
            let node = &self.nodes[i];
            let (px, py): (i64, i64) = match node.parent {
                Some(p) => {
                    if p < i {
                        origins[p]
                    } else {
                        (0, 0)
                    }
                },
                None => (0, 0),
            };
            proof {
                lemma_origin_bounds(self.nodes@, i as int);
                assert((i + 1) * 0x8000_0000 <= 0x10_0000 * 0x8000_0000) by (nonlinear_arith)
                    requires
                        i + 1 <= 0x10_0000,
                ;
                match node.parent {
                    Some(p) => {
                        if p < i {
                            lemma_origin_bounds(self.nodes@, p as int);
                            assert((p + 1) * 0x8000_0000 <= 0x10_0000 * 0x8000_0000)
                                by (nonlinear_arith)
                                requires
                                    p + 1 <= 0x10_0000,
                            ;
                        }
                    },
                    None => {},
                }
            }
            let x: i64 = px + node.geometry.x as i64;
            let y: i64 = py + node.geometry.y as i64;
            origins.push((x, y));
            i += 1;
        }
        origins
    }
}

/// The cascade holds the style invariant: after styles have been resolved,
/// every node's style is its attributes resolved against its parent's
/// stored style, or against the defaults at a root.
pub proof fn lemma_cascade_invariant(nodes: Seq<Node>, i: int)
    requires
        0 <= i < nodes.len(),
        tree_wf(nodes),
    ensures
        cascaded(nodes, i) == resolve(
            nodes[i].attributes@,
            match parent_of(nodes, i) {
                Some(p) => Some(cascaded(nodes, p)),
                None => None,
            },
        ),
{
}

/// In a tree whose styles the cascade has resolved, every stereo depth
/// lies within the symmetric range.
pub proof fn lemma_cascade_depth_in_range(nodes: Seq<Node>, i: int)
    requires
        0 <= i < nodes.len(),
    ensures
        -MAX_DEEP_3D <= cascaded(nodes, i).deep_3d <= MAX_DEEP_3D,
    decreases i,
{
    match nodes[i].parent {
        Some(p) => {
            if p < i {
                lemma_cascade_depth_in_range(nodes, p as int);
                lemma_depth_in_range(nodes[i].attributes@, Some(cascaded(nodes, p as int)));
            } else {
                lemma_depth_in_range(nodes[i].attributes@, None);
            }
        },
        None => {
            lemma_depth_in_range(nodes[i].attributes@, None);
        },
    }
}

} // verus!
