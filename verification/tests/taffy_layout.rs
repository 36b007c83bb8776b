use save_cloud::render::rdom::attribute::{Attribute, AttributeValue};
use save_cloud::render::rdom::layout_style::LayoutStyle;
use save_cloud::render::rdom::rdom_style::RdomStyle;
use save_cloud::render::rdom::taffy_layout::{
    collect_bound_children, compute_layout, stale_handles, SolverAction, TaffyLayout,
};

fn attr(name: &str, value: AttributeValue) -> Attribute {
    Attribute { name: name.to_string(), value }
}

fn parent(scale: i32, max_width: Option<i32>) -> RdomStyle {
    let mut style = RdomStyle::default();
    style.scale = scale;
    style.max_width = max_width;
    style
}

#[test]
fn default_binding_is_unbound() {
    let binding = TaffyLayout::default();
    assert_eq!(binding.node, None);
    assert!(binding.style == LayoutStyle::solver_default());
}

#[test]
fn text_is_measured_at_parent_scale() {
    assert_eq!(TaffyLayout::text_scale(Some(parent(380, None))), 380);
    assert_eq!(TaffyLayout::text_scale(None), 1000);
}

#[test]
fn new_text_node_is_created_as_leaf() {
    let binding = TaffyLayout::default();
    let plan = binding.sync_text(30000, 12000, Some(parent(400, None)));
    assert!(plan.style == LayoutStyle::text_leaf(30000, 12000));
    assert!(matches!(plan.action, SolverAction::NewLeaf));
}

#[test]
fn text_width_is_held_to_wrap_width() {
    let binding = TaffyLayout::default();
    let plan = binding.sync_text(300000, 12000, Some(parent(400, Some(240000))));
    assert!(plan.style == LayoutStyle::text_leaf(240000, 12000));
    let narrow = binding.sync_text(100000, 12000, Some(parent(400, Some(240000))));
    assert!(narrow.style == LayoutStyle::text_leaf(100000, 12000));
    let root = binding.sync_text(300000, 12000, None);
    assert!(root.style == LayoutStyle::text_leaf(300000, 12000));
}

#[test]
fn bound_text_node_updates_style_only_when_it_differs() {
    let mut binding = TaffyLayout::default();
    let plan = binding.sync_text(30000, 12000, None);
    assert!(binding.commit(plan.style, Some(7)));
    assert_eq!(binding.node, Some(7));
    let same = binding.sync_text(30000, 12000, None);
    assert!(matches!(same.action, SolverAction::Keep));
    assert!(!binding.commit(same.style, None));
    let wider = binding.sync_text(31000, 12000, None);
    assert!(matches!(
        wider.action,
        SolverAction::Update { node: 7, set_style: true, set_children: None }
    ));
    assert!(binding.commit(wider.style, None));
    assert_eq!(binding.node, Some(7));
    assert!(binding.style == LayoutStyle::text_leaf(31000, 12000));
}

#[test]
fn new_container_is_created_with_its_bound_children() {
    let binding = TaffyLayout::default();
    let attrs = vec![attr("width", AttributeValue::Int(48))];
    let plan = binding.sync_container(&attrs, &vec![Some(3), None, Some(5)], &vec![]);
    assert!(plan.style == LayoutStyle::from_attributes(&attrs));
    match plan.action {
        SolverAction::NewWithChildren(children) => assert_eq!(children, vec![3, 5]),
        _ => panic!("a new container has to be created"),
    }
}

#[test]
fn bound_container_sends_only_what_differs() {
    let attrs = vec![attr("width", AttributeValue::Int(48))];
    let mut binding = TaffyLayout::default();
    let plan = binding.sync_container(&attrs, &vec![Some(3), Some(5)], &vec![]);
    assert!(binding.commit(plan.style, Some(9)));

    let keep = binding.sync_container(&attrs, &vec![Some(3), Some(5)], &vec![3, 5]);
    assert!(matches!(keep.action, SolverAction::Keep));
    assert!(!binding.commit(keep.style, None));

    let reordered = binding.sync_container(&attrs, &vec![Some(5), Some(3)], &vec![3, 5]);
    match reordered.action {
        SolverAction::Update { node, set_style, set_children } => {
            assert_eq!(node, 9);
            assert!(!set_style);
            assert_eq!(set_children, Some(vec![5, 3]));
        }
        _ => panic!("the child list has to be replaced"),
    }
    assert!(!binding.commit(reordered.style, None));

    let wider = vec![attr("width", AttributeValue::Int(49))];
    let restyled = binding.sync_container(&wider, &vec![Some(3), Some(5)], &vec![3, 5]);
    match restyled.action {
        SolverAction::Update { node, set_style, set_children } => {
            assert_eq!(node, 9);
            assert!(set_style);
            assert_eq!(set_children, None);
        }
        _ => panic!("the style has to be replaced"),
    }
    assert!(binding.commit(restyled.style, None));
    assert_eq!(binding.node, Some(9));
}

#[test]
fn bound_container_sends_both_when_both_differ() {
    let mut binding = TaffyLayout::default();
    let plan = binding.sync_container(&vec![], &vec![], &vec![]);
    binding.commit(plan.style, Some(1));
    let attrs = vec![attr("display", AttributeValue::Text("flex".to_string()))];
    let both = binding.sync_container(&attrs, &vec![Some(2)], &vec![]);
    match both.action {
        SolverAction::Update { node, set_style, set_children } => {
            assert_eq!(node, 1);
            assert!(set_style);
            assert_eq!(set_children, Some(vec![2]));
        }
        _ => panic!("style and child list have to be replaced"),
    }
}

#[test]
fn commit_keeps_a_bound_handle() {
    let mut binding = TaffyLayout { style: LayoutStyle::solver_default(), node: Some(4) };
    assert!(!binding.commit(LayoutStyle::solver_default(), Some(8)));
    assert_eq!(binding.node, Some(4));
}

#[test]
fn commit_of_new_node_counts_as_change_even_with_same_style() {
    let mut binding = TaffyLayout::default();
    assert!(binding.commit(LayoutStyle::solver_default(), Some(8)));
    assert_eq!(binding.node, Some(8));
}

#[test]
fn release_gives_up_the_handle() {
    let mut binding = TaffyLayout { style: LayoutStyle::text_leaf(1, 2), node: Some(4) };
    assert_eq!(binding.release(), Some(4));
    assert_eq!(binding.node, None);
    assert!(binding.style == LayoutStyle::text_leaf(1, 2));
    assert_eq!(binding.release(), None);
}

#[test]
fn bound_children_skip_unbound_ones() {
    assert_eq!(collect_bound_children(&vec![]), Vec::<u64>::new());
    assert_eq!(collect_bound_children(&vec![None, None]), Vec::<u64>::new());
    assert_eq!(collect_bound_children(&vec![Some(2), None, Some(1), Some(2)]), vec![2, 1, 2]);
}

#[test]
fn solve_fills_the_top_screen() {
    let root = TaffyLayout { style: LayoutStyle::solver_default(), node: Some(11) };
    let request = compute_layout(&root, (None, None));
    assert_eq!(request.root, 11);
    assert_eq!(request.width, 400000);
    assert_eq!(request.height, 240000);
    assert_eq!(request.resize, Some((400000, 240000)));
}

#[test]
fn solve_does_not_resize_a_root_of_the_right_size() {
    let root = TaffyLayout { style: LayoutStyle::solver_default(), node: Some(11) };
    assert_eq!(compute_layout(&root, (Some(400000), Some(240000))).resize, None);
    assert_eq!(
        compute_layout(&root, (Some(320000), Some(240000))).resize,
        Some((400000, 240000))
    );
    assert_eq!(compute_layout(&root, (Some(400000), None)).resize, Some((400000, 240000)));
}

#[test]
fn handles_of_departed_nodes_are_stale() {
    assert_eq!(stale_handles(&vec![1, 2, 3, 4], &vec![4, 2, 9]), vec![1, 3]);
    assert_eq!(stale_handles(&vec![1, 2], &vec![1, 2]), Vec::<u64>::new());
    assert_eq!(stale_handles(&vec![1, 2], &vec![]), vec![1, 2]);
    assert_eq!(stale_handles(&vec![], &vec![1]), Vec::<u64>::new());
    assert_eq!(stale_handles(&vec![5, 5, 6], &vec![6]), vec![5, 5]);
}
