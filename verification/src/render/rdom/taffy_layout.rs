//! The layout binding of one node: its layout style and its handle in the
//! flex solver.
//!
//! The solver computes in floating point and works outside this crate. A
//! binding decides what the solver has to be told (`sync_text`,
//! `sync_container`), and records the outcome (`commit`). A handle, once
//! bound, stays bound: a node is created in the solver only while the
//! binding has none.

use vstd::prelude::*;
use crate::constant::{SCALAR_UNIT, SCREEN_HEIGHT, SCREEN_TOP_WIDTH};
use super::attribute::Attribute;
use super::layout_style::{container_style, solver_default_style, text_leaf_style, LayoutStyle};
use super::rdom_style::RdomStyle;

verus! {

/// The box the solver computed for a node, relative to the parent's origin,
/// in thousandths of a pixel.
#[derive(Clone, Copy, PartialEq, Eq, Structural, Debug)]
pub struct Layout {
    /// Distance from the parent's left edge.
    pub x: i32,
    /// Distance from the parent's top edge.
    pub y: i32,
    /// Width of the box.
    pub width: i32,
    /// Height of the box.
    pub height: i32,
}

/// What the solver has to be told about one node.
pub enum SolverAction {
    /// Nothing: the solver already holds what the node needs.
    Keep,
    /// Create a leaf with the planned style.
    NewLeaf,
    /// Create a node with the planned style and these children, in order.
    NewWithChildren(Vec<u64>),
    /// Change an existing node.
    Update {
        /// The node's handle.
        node: u64,
        /// Whether to replace its style with the planned one.
        set_style: bool,
        /// The new ordered child list, if it has to be replaced.
        set_children: Option<Vec<u64>>,
    },
}

/// A solver action with its child lists as sequences.
pub enum SolverActionView {
    /// See [`SolverAction::Keep`].
    Keep,
    /// See [`SolverAction::NewLeaf`].
    NewLeaf,
    /// See [`SolverAction::NewWithChildren`].
    NewWithChildren(Seq<u64>),
    /// See [`SolverAction::Update`].
    Update { node: u64, set_style: bool, set_children: Option<Seq<u64>> },
}

impl View for SolverAction {
    type V = SolverActionView;

    open spec fn view(&self) -> SolverActionView {
        match *self {
            SolverAction::Keep => SolverActionView::Keep,
            SolverAction::NewLeaf => SolverActionView::NewLeaf,
            SolverAction::NewWithChildren(children) => SolverActionView::NewWithChildren(children@),
            SolverAction::Update { node, set_style, set_children } => SolverActionView::Update {
                node,
                set_style,
                set_children: match set_children {
                    Some(children) => Some(children@),
                    None => None,
                },
            },
        }
    }
}

/// The outcome of planning one node: the style it should have and what the
/// solver has to be told.
pub struct LayoutPlan {
    /// The node's layout style.
    pub style: LayoutStyle,
    /// What to tell the solver.
    pub action: SolverAction,
}

/// The layout binding of a node.
#[derive(Clone, Copy, PartialEq, Eq, Structural, Debug)]
pub struct TaffyLayout {
    /// The style last committed.
    pub style: LayoutStyle,
    /// The node's handle in the solver, once created.
    pub node: Option<u64>,
}

/// The handles of the children that are bound, in order.
pub open spec fn bound_children(children: Seq<Option<u64>>) -> Seq<u64>
    decreases children.len(),
{
    if children.len() == 0 {
        Seq::empty()
    } else {
        let rest = bound_children(children.drop_last());
        match children.last() {
            Some(handle) => rest.push(handle),
            None => rest,
        }
    }
}

/// The scale at which a text node is measured: its parent's resolved scale,
/// or one whole unit at the root.
pub open spec fn text_scale_of(parent: Option<RdomStyle>) -> i32 {
    match parent {
        Some(p) => p.scale,
        None => SCALAR_UNIT,
    }
}

/// The width of a text leaf: the measured width, held to the parent's wrap
/// width if it has one.
pub open spec fn text_width_of(measured: i32, parent: Option<RdomStyle>) -> i32 {
    match parent {
        Some(p) => match p.max_width {
            Some(max) => if measured <= max {
                measured
            } else {
                max
            },
            None => measured,
        },
        None => measured,
    }
}

/// The plan for a text node.
pub open spec fn text_plan(
    binding: TaffyLayout,
    width: i32,
    height: i32,
    parent: Option<RdomStyle>,
) -> (LayoutStyle, SolverActionView) {
    let style = text_leaf_style(text_width_of(width, parent), height);
    let action = match binding.node {
        Some(node) => if binding.style != style {
            SolverActionView::Update { node, set_style: true, set_children: None }
        } else {
            SolverActionView::Keep
        },
        None => SolverActionView::NewLeaf,
    };
    (style, action)
}

/// The plan for a container node.
pub open spec fn container_plan(
    binding: TaffyLayout,
    attrs: Seq<Attribute>,
    children: Seq<Option<u64>>,
    solver_children: Seq<u64>,
) -> (LayoutStyle, SolverActionView) {
    let style = container_style(attrs);
    let wanted = bound_children(children);
    let action = match binding.node {
        Some(node) => if binding.style != style || solver_children != wanted {
            SolverActionView::Update {
                node,
                set_style: binding.style != style,
                set_children: if solver_children != wanted {
                    Some(wanted)
                } else {
                    None
                },
            }
        } else {
            SolverActionView::Keep
        },
        None => SolverActionView::NewWithChildren(wanted),
    };
    (style, action)
}

/// The binding after a plan has been carried out, and whether the node
/// counts as changed: it does when it was created or its style differs.
pub open spec fn commit_spec(binding: TaffyLayout, style: LayoutStyle, created: Option<u64>) -> (
    TaffyLayout,
    bool,
) {
    (
        TaffyLayout {
            style,
            node: match binding.node {
                Some(node) => Some(node),
                None => created,
            },
        },
        binding.node.is_none() || binding.style != style,
    )
}

/// What the solver is asked before a solve: which node is the root, the
/// size to give it if it does not have it yet, and the space to lay out in.
#[derive(Clone, Copy, PartialEq, Eq, Debug)]
pub struct SolveRequest {
    /// The root's handle.
    pub root: u64,
    /// The size the root must be set to first, if it differs.
    pub resize: Option<(i32, i32)>,
    /// The available width, in thousandths.
    pub width: i32,
    /// The available height, in thousandths.
    pub height: i32,
}

/// Collects the handles of the bound children, in order.
pub fn collect_bound_children(children: &Vec<Option<u64>>) -> (handles: Vec<u64>)
    ensures
        handles@ == bound_children(children@),
{
    let mut handles: Vec<u64> = Vec::new();
    let mut i: usize = 0;
    while i < children.len()
        invariant
            i <= children.len(),
            handles@ == bound_children(children@.take(i as int)),
        decreases children.len() - i,
    {
        proof {
            let next = children@.take(i + 1);
            assert(next.drop_last() =~= children@.take(i as int));
            assert(next.last() == children@[i as int]);
        }
        match children[i] {
            Some(handle) => {
                handles.push(handle);
            },
            None => {},
        }
        i += 1;
    }
    proof {
        assert(children@.take(children.len() as int) =~= children@);
    }
    handles
}

fn same_handles(a: &Vec<u64>, b: &Vec<u64>) -> (same: bool)
    ensures
        same == (a@ == b@),
{
    if a.len() != b.len() {
        return false;
    }
    let mut i: usize = 0;
    while i < a.len()
        invariant
            i <= a.len(),
            a.len() == b.len(),
            forall|j: int| 0 <= j < i ==> a@[j] == b@[j],
        decreases a.len() - i,
    {
        if a[i] != b[i] {
            return false;
        }
        i += 1;
    }
    proof {
        assert(a@ =~= b@);
    }
    true
}

impl TaffyLayout {
    /// The scale at which the caller has to measure a text node's extent.
    pub fn text_scale(parent: Option<RdomStyle>) -> (scale: i32)
        ensures
            scale == text_scale_of(parent),
    {
        match parent {
            Some(p) => p.scale,
            None => SCALAR_UNIT,
        }
    }

    /// Plans a text node: a fixed-size leaf of the measured extent, its
    /// width held to the parent's wrap width. The solver is told only if
    /// the node is new or its style differs.
    pub fn sync_text(&self, width: i32, height: i32, parent: Option<RdomStyle>) -> (plan:
        LayoutPlan)
        ensures
            (plan.style, plan.action@) == text_plan(*self, width, height, parent),
    {
        let mut width = width;
        match parent {
            Some(p) => match p.max_width {
                Some(max) => {
                    if max < width {
                        width = max;
                    }
                },
                None => {},
            },
            None => {},
        }
        let style = LayoutStyle::text_leaf(width, height);
        let action = match self.node {
            Some(node) => {
                if self.style != style {
                    SolverAction::Update { node, set_style: true, set_children: None }
                } else {
                    SolverAction::Keep
                }
            },
            None => SolverAction::NewLeaf,
        };
        LayoutPlan { style, action }
    }

    /// Plans a container node from its attributes, its children's handles
    /// and the child list the solver currently holds for it. Style and
    /// child list are each sent only if they differ.
    pub fn sync_container(
        &self,
        attributes: &Vec<Attribute>,
        children: &Vec<Option<u64>>,
        solver_children: &Vec<u64>,
    ) -> (plan: LayoutPlan)
        ensures
            (plan.style, plan.action@) == container_plan(
                *self,
                attributes@,
                children@,
                solver_children@,
            ),
    {
        let style = LayoutStyle::from_attributes(attributes);
        let wanted = collect_bound_children(children);
        let action = match self.node {
            Some(node) => {
                let set_style = self.style != style;
                let same = same_handles(solver_children, &wanted);
                if set_style || !same {
                    SolverAction::Update {
                        node,
                        set_style,
                        set_children: if same {
                            None
                        } else {
                            Some(wanted)
                        },
                    }
                } else {
                    SolverAction::Keep
                }
            },
            None => SolverAction::NewWithChildren(wanted),
        };
        LayoutPlan { style, action }
    }

    /// Records that a plan was carried out. `created` is the handle the
    /// solver gave if the plan created a node. Reports whether the node
    /// changed, which makes a new solve due.
    pub fn commit(&mut self, style: LayoutStyle, created: Option<u64>) -> (changed: bool)
        requires
            old(self).node.is_none() ==> created.is_some(),
        ensures
            (*final(self), changed) == commit_spec(*old(self), style, created),
            final(self).node.is_some(),
    {
        let mut changed = false;
        if self.node.is_none() {
            self.node = created;
            changed = true;
        }
        if self.style != style {
            self.style = style;
            changed = true;
        }
        changed
    }

    /// Gives up the node's handle when the node leaves the tree. Returns
    /// the handle the solver has to release, if one was bound.
    pub fn release(&mut self) -> (handle: Option<u64>)
        ensures
            handle == old(self).node,
            final(self).node.is_none(),
            final(self).style == old(self).style,
    {
        let handle = self.node;
        self.node = None;
        handle
    }
}

impl Default for TaffyLayout {
    /// An unbound node with the solver's default style.
    fn default() -> (binding: TaffyLayout)
        ensures
            binding.node.is_none(),
            binding.style == solver_default_style(),
    {
        TaffyLayout { style: LayoutStyle::solver_default(), node: None }
    }
}

/// The request for a solve of the whole tree in the top screen's viewport:
/// the root fills the viewport, and is resized first if the solver holds
/// another size for it.
pub open spec fn solve_request(root: TaffyLayout, root_size: (Option<i32>, Option<i32>)) -> SolveRequest {
    let width = (SCREEN_TOP_WIDTH * SCALAR_UNIT) as i32;
    let height = (SCREEN_HEIGHT * SCALAR_UNIT) as i32;
    SolveRequest {
        root: root.node.unwrap(),
        resize: if root_size == (Some(width), Some(height)) {
            None
        } else {
            Some((width, height))
        },
        width,
        height,
    }
}

/// Prepares a solve of the whole tree. The request depends on nothing but
/// the root's handle and the size the solver holds for it, so the solver is
/// asked the same whenever nothing has changed.
pub fn compute_layout(root: &TaffyLayout, root_size: (Option<i32>, Option<i32>)) -> (request:
    SolveRequest)
    requires
        root.node.is_some(),
    ensures
        request == solve_request(*root, root_size),
{
    let width: i32 = (SCREEN_TOP_WIDTH * (SCALAR_UNIT as i64)) as i32;
    let height: i32 = (SCREEN_HEIGHT * (SCALAR_UNIT as i64)) as i32;
    let fits = match root_size {
        (Some(w), Some(h)) => w == width && h == height,
        _ => false,
    };
    SolveRequest {
        root: root.node.unwrap(),
        resize: if fits {
            None
        } else {
            Some((width, height))
        },
        width,
        height,
    }
}

/// Whether a handle is among a list of handles.
pub open spec fn is_bound(handles: Seq<u64>, handle: u64) -> bool {
    exists|i: int| 0 <= i < handles.len() && #[trigger] handles[i] == handle
}

/// Of the first `n` handles bound before, those no longer bound, in order.
pub open spec fn stale_prefix(before: Seq<u64>, after: Seq<u64>, n: nat) -> Seq<u64>
    decreases n,
{
    if n == 0 || n > before.len() {
        Seq::empty()
    } else {
        let earlier = stale_prefix(before, after, (n - 1) as nat);
        if is_bound(after, before[n - 1]) {
            earlier
        } else {
            earlier.push(before[n - 1])
        }
    }
}

fn bound(handles: &Vec<u64>, handle: u64) -> (found: bool)
    ensures
        found == is_bound(handles@, handle),
{
    let mut i: usize = 0;
    while i < handles.len()
        invariant
            i <= handles.len(),
            forall|j: int| 0 <= j < i ==> #[trigger] handles@[j] != handle,
        decreases handles.len() - i,
    {
        if handles[i] == handle {
            return true;
        }
        i += 1;
    }
    false
}

/// Finds the solver handles to release after the tree has changed: those
/// that were bound to a node before and are bound to none now. Releasing
/// them keeps the solver from growing as nodes come and go.
pub fn stale_handles(before: &Vec<u64>, after: &Vec<u64>) -> (stale: Vec<u64>)
    ensures
        stale@ == stale_prefix(before@, after@, before@.len()),
        forall|i: int| 0 <= i < stale@.len() ==> !is_bound(after@, #[trigger] stale@[i]),
{
    let mut stale: Vec<u64> = Vec::new();
    let mut i: usize = 0;
    while i < before.len()
        invariant
            i <= before.len(),
            stale@ == stale_prefix(before@, after@, i as nat),
            forall|k: int| 0 <= k < stale@.len() ==> !is_bound(after@, #[trigger] stale@[k]),
        decreases before.len() - i,
    {
        if !bound(after, before[i]) {
            stale.push(before[i]);
        }
        i += 1;
    }
    stale
}

/// Synchronising a bound container a second time, with nothing changed and
/// the solver holding the children it was told, asks nothing of the solver
/// and reports no change.
pub proof fn lemma_sync_container_idempotent(
    binding: TaffyLayout,
    attrs: Seq<Attribute>,
    children: Seq<Option<u64>>,
    solver_children: Seq<u64>,
    created: Option<u64>,
)
    requires
        binding.node.is_none() ==> created.is_some(),
    ensures
        ({
            let first = container_plan(binding, attrs, children, solver_children);
            let bound = commit_spec(binding, first.0, created).0;
            let second = container_plan(bound, attrs, children, bound_children(children));
            &&& second.1 == SolverActionView::Keep
            &&& commit_spec(bound, second.0, None) == (bound, false)
        }),
{
}

/// Synchronising a bound text node a second time, with the same measured
/// extent under the same parent, asks nothing of the solver and reports no
/// change.
pub proof fn lemma_sync_text_idempotent(
    binding: TaffyLayout,
    width: i32,
    height: i32,
    parent: Option<RdomStyle>,
    created: Option<u64>,
)
    requires
        binding.node.is_none() ==> created.is_some(),
    ensures
        ({
            let first = text_plan(binding, width, height, parent);
            let bound = commit_spec(binding, first.0, created).0;
            let second = text_plan(bound, width, height, parent);
            &&& second.1 == SolverActionView::Keep
            &&& commit_spec(bound, second.0, None) == (bound, false)
        }),
{
}

/// A handle, once bound, stays bound to the node across every commit.
pub proof fn lemma_handle_stable(binding: TaffyLayout, style: LayoutStyle, created: Option<u64>)
    requires
        binding.node.is_some(),
    ensures
        commit_spec(binding, style, created).0.node == binding.node,
{
}

} // verus!
