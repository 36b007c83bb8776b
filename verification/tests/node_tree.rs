use save_cloud::render::rdom::attribute::{Attribute, AttributeValue};
use save_cloud::render::rdom::layout_style::LayoutStyle;
use save_cloud::render::rdom::attribute::find_attribute;
use save_cloud::render::rdom::node_tree::{ElementTag, Listeners, Node, NodeTree, NodeType, MAX_NODES};
use save_cloud::render::rdom::rdom_style::RdomStyle;
use save_cloud::render::rdom::taffy_layout::{Layout, SolverAction, TaffyLayout};

fn attr(name: &str, value: AttributeValue) -> Attribute {
    Attribute { name: name.to_string(), value }
}

fn element(parent: Option<usize>, attributes: Vec<Attribute>, geometry: Layout) -> Node {
    Node {
        parent,
        node_type: NodeType::Element(ElementTag::Div),
        attributes,
        style: RdomStyle::default(),
        layout: TaffyLayout::default(),
        geometry,
        mounted_id: None,
        listeners: Listeners { keypress: false, mousedown: false, mouseup: false, click: false },
    }
}

fn at(x: i32, y: i32) -> Layout {
    Layout { x, y, width: 10000, height: 10000 }
}

#[test]
fn push_returns_positions_in_order() {
    let mut tree = NodeTree::new();
    assert_eq!(tree.len(), 0);
    assert_eq!(tree.push(element(None, vec![], at(0, 0))), Some(0));
    assert_eq!(tree.push(element(Some(0), vec![], at(0, 0))), Some(1));
    assert_eq!(tree.push(element(Some(0), vec![], at(0, 0))), Some(2));
    assert_eq!(tree.push(element(Some(2), vec![], at(0, 0))), Some(3));
    assert_eq!(tree.len(), 4);
    assert_eq!(tree.get(3).unwrap().parent, Some(2));
    assert!(tree.get(4).is_none());
}

#[test]
fn push_refuses_a_parent_that_is_not_in_the_tree() {
    let mut tree = NodeTree::new();
    assert_eq!(tree.push(element(Some(0), vec![], at(0, 0))), None);
    assert_eq!(tree.len(), 0);
    tree.push(element(None, vec![], at(0, 0)));
    assert_eq!(tree.push(element(Some(1), vec![], at(0, 0))), None);
    assert_eq!(tree.push(element(Some(7), vec![], at(0, 0))), None);
    assert_eq!(tree.len(), 1);
}

#[test]
fn push_refuses_nodes_beyond_capacity() {
    let mut tree = NodeTree::new();
    for _ in 0..MAX_NODES {
        assert!(tree.push(element(None, vec![], at(0, 0))).is_some());
    }
    assert_eq!(tree.push(element(None, vec![], at(0, 0))), None);
    assert_eq!(tree.len(), MAX_NODES);
}

#[test]
fn origins_add_up_along_ancestors() {
    let mut tree = NodeTree::new();
    tree.push(element(None, vec![], at(1000, 2000)));
    tree.push(element(Some(0), vec![], at(10000, 20000)));
    tree.push(element(Some(1), vec![], at(-500, 300)));
    tree.push(element(Some(0), vec![], at(7000, 0)));
    assert_eq!(
        tree.origins(),
        vec![(1000, 2000), (11000, 22000), (10500, 22300), (8000, 2000)]
    );
}

#[test]
fn origins_do_not_overflow_at_the_extremes() {
    let mut tree = NodeTree::new();
    tree.push(element(None, vec![], at(i32::MAX, i32::MIN)));
    tree.push(element(Some(0), vec![], at(i32::MAX, i32::MIN)));
    tree.push(element(Some(1), vec![], at(i32::MAX, i32::MIN)));
    assert_eq!(tree.origins()[2], (3 * (i32::MAX as i64), 3 * (i32::MIN as i64)));
}

#[test]
fn styles_cascade_from_parents_to_children() {
    let mut tree = NodeTree::new();
    tree.push(element(
        None,
        vec![
            attr("color", AttributeValue::Text("main-text".to_string())),
            attr("scale", AttributeValue::Float(400)),
            attr("background-color", AttributeValue::Text("main_bg".to_string())),
        ],
        at(0, 0),
    ));
    tree.push(element(Some(0), vec![attr("deep_3d", AttributeValue::Float(2000))], at(0, 0)));
    tree.push(element(Some(1), vec![attr("scale", AttributeValue::Int(1))], at(0, 0)));
    tree.push(element(Some(0), vec![], at(0, 0)));
    assert!(tree.resolve_styles());

    let root = tree.get(0).unwrap().style;
    assert_eq!(root.color, 0xffeeeeee);
    assert_eq!(root.scale, 400);
    assert_eq!(root.background_color, Some(0xff222222));

    let child = tree.get(1).unwrap().style;
    assert_eq!(child.color, 0xffeeeeee);
    assert_eq!(child.scale, 400);
    assert_eq!(child.deep_3d, 2000);
    assert_eq!(child.background_color, Some(0xff222222));

    let grandchild = tree.get(2).unwrap().style;
    assert_eq!(grandchild.color, 0xffeeeeee);
    assert_eq!(grandchild.scale, 1000);
    assert_eq!(grandchild.deep_3d, 2000);

    let sibling = tree.get(3).unwrap().style;
    assert_eq!(sibling.scale, 400);
    assert_eq!(sibling.deep_3d, 0);

    assert!(!tree.resolve_styles());
}

#[test]
fn cascade_reports_change_after_an_attribute_changes() {
    let mut tree = NodeTree::new();
    tree.push(element(None, vec![attr("scale", AttributeValue::Float(400))], at(0, 0)));
    tree.push(element(Some(0), vec![], at(0, 0)));
    tree.resolve_styles();
    tree.set_attributes(0, vec![attr("scale", AttributeValue::Float(500))]);
    assert!(tree.resolve_styles());
    assert_eq!(tree.get(1).unwrap().style.scale, 500);
    assert!(!tree.resolve_styles());
}

#[test]
fn cascade_of_an_empty_tree_changes_nothing() {
    let mut tree = NodeTree::new();
    assert!(!tree.resolve_styles());
}

#[test]
fn setters_touch_one_field_of_one_node() {
    let mut tree = NodeTree::new();
    tree.push(element(None, vec![], at(1, 2)));
    tree.push(element(Some(0), vec![], at(3, 4)));
    tree.set_geometry(1, Layout { x: 5, y: 6, width: 7, height: 8 });
    tree.set_layout(1, TaffyLayout { style: LayoutStyle::text_leaf(1, 1), node: Some(3) });
    assert!(tree.get(0).unwrap().geometry == at(1, 2));
    assert!(tree.get(0).unwrap().layout == TaffyLayout::default());
    assert!(tree.get(1).unwrap().geometry == Layout { x: 5, y: 6, width: 7, height: 8 });
    assert_eq!(tree.get(1).unwrap().layout.node, Some(3));
    assert_eq!(tree.get(1).unwrap().parent, Some(0));
}

#[test]
fn handles_are_listed_in_arena_order() {
    let mut tree = NodeTree::new();
    tree.push(element(None, vec![], at(0, 0)));
    tree.push(element(Some(0), vec![], at(0, 0)));
    tree.push(element(Some(0), vec![], at(0, 0)));
    assert_eq!(tree.handles(), Vec::<u64>::new());
    tree.set_layout(2, TaffyLayout { style: LayoutStyle::solver_default(), node: Some(7) });
    tree.set_layout(0, TaffyLayout { style: LayoutStyle::solver_default(), node: Some(9) });
    assert_eq!(tree.handles(), vec![9, 7]);
}

#[test]
fn container_is_planned_with_its_children_in_order() {
    let mut tree = NodeTree::new();
    tree.push(element(None, vec![attr("display", AttributeValue::Text("flex".to_string()))], at(0, 0)));
    tree.push(element(Some(0), vec![], at(0, 0)));
    tree.push(element(Some(1), vec![], at(0, 0)));
    tree.push(element(Some(0), vec![], at(0, 0)));
    tree.push(element(Some(0), vec![], at(0, 0)));
    assert!(tree.commit_layout(2, LayoutStyle::from_attributes(&vec![]), Some(12)));
    assert!(tree.commit_layout(1, LayoutStyle::from_attributes(&vec![]), Some(11)));
    assert!(tree.commit_layout(4, LayoutStyle::from_attributes(&vec![]), Some(14)));
    let plan = tree.sync_layout(0, (0, 0), &vec![]);
    assert!(plan.style == LayoutStyle::from_attributes(&tree.get(0).unwrap().attributes));
    match plan.action {
        SolverAction::NewWithChildren(children) => assert_eq!(children, vec![11, 14]),
        _ => panic!("the root has to be created with its bound children"),
    }
    assert!(tree.commit_layout(0, plan.style, Some(10)));
    assert!(tree.commit_layout(3, LayoutStyle::from_attributes(&vec![]), Some(13)));
    let again = tree.sync_layout(0, (0, 0), &vec![11, 14]);
    match again.action {
        SolverAction::Update { node, set_style, set_children } => {
            assert_eq!(node, 10);
            assert!(!set_style);
            assert_eq!(set_children, Some(vec![11, 13, 14]));
        }
        _ => panic!("the child list has to be replaced"),
    }
    assert!(!tree.commit_layout(0, again.style, None));
    assert!(matches!(tree.sync_layout(0, (0, 0), &vec![11, 13, 14]).action, SolverAction::Keep));
    assert!(matches!(tree.sync_layout(2, (0, 0), &vec![]).action, SolverAction::Keep));
    assert_eq!(tree.handles(), vec![10, 11, 12, 13, 14]);
}

#[test]
fn text_is_planned_under_its_parents_style() {
    let mut tree = NodeTree::new();
    tree.push(element(None, vec![attr("max-width", AttributeValue::Int(100))], at(0, 0)));
    let mut text = element(Some(0), vec![], at(0, 0));
    text.node_type = NodeType::Text("hello".to_string());
    tree.push(text);
    tree.resolve_styles();
    let plan = tree.sync_layout(1, (150000, 12000), &vec![]);
    assert!(plan.style == LayoutStyle::text_leaf(100000, 12000));
    assert!(matches!(plan.action, SolverAction::NewLeaf));
    assert!(tree.commit_layout(1, plan.style, Some(5)));
    assert_eq!(tree.get(1).unwrap().layout.node, Some(5));
    assert!(matches!(tree.sync_layout(1, (150000, 12000), &vec![]).action, SolverAction::Keep));
}

#[test]
fn attributes_are_set_and_cleared_by_name() {
    let mut tree = NodeTree::new();
    tree.push(element(None, vec![attr("scale", AttributeValue::Float(400))], at(0, 0)));
    tree.push(element(Some(0), vec![], at(0, 0)));
    tree.resolve_styles();
    tree.set_attribute(0, "scale".to_string(), AttributeValue::Float(500));
    tree.set_attribute(0, "color".to_string(), AttributeValue::Text("red".to_string()));
    assert_eq!(tree.get(0).unwrap().attributes.len(), 2);
    assert!(matches!(
        find_attribute(&tree.get(0).unwrap().attributes, "scale"),
        Some(AttributeValue::Float(500))
    ));
    assert!(tree.resolve_styles());
    assert_eq!(tree.get(1).unwrap().style.scale, 500);
    assert_eq!(tree.get(1).unwrap().style.color, 0xff0000ff);
    tree.clear_attribute(0, "scale");
    tree.clear_attribute(0, "width");
    assert_eq!(tree.get(0).unwrap().attributes.len(), 1);
    assert!(tree.resolve_styles());
    assert_eq!(tree.get(1).unwrap().style.scale, 1000);
    assert!(tree.get(1).unwrap().attributes.is_empty());
}

#[test]
fn text_is_replaced_on_text_nodes_only() {
    let mut tree = NodeTree::new();
    tree.push(element(None, vec![], at(0, 0)));
    let mut text = element(Some(0), vec![], at(0, 0));
    text.node_type = NodeType::Text("old".to_string());
    tree.push(text);
    tree.set_text(1, "new".to_string());
    tree.set_text(0, "ignored".to_string());
    assert!(matches!(&tree.get(1).unwrap().node_type, NodeType::Text(t) if t == "new"));
    assert!(matches!(tree.get(0).unwrap().node_type, NodeType::Element(ElementTag::Div)));
}

fn marked(parent: Option<usize>, mark: i32, handle: Option<u64>) -> Node {
    let mut node = element(parent, vec![], at(mark, 0));
    node.layout = TaffyLayout { style: LayoutStyle::solver_default(), node: handle };
    node
}

fn shape(tree: &NodeTree) -> Vec<(i32, Option<usize>)> {
    (0..tree.len())
        .map(|i| {
            let node = tree.get(i).unwrap();
            (node.geometry.x, node.parent)
        })
        .collect()
}

fn sample() -> NodeTree {
    let mut tree = NodeTree::new();
    tree.push(marked(None, 0, Some(100)));
    tree.push(marked(Some(0), 1, Some(101)));
    tree.push(marked(Some(1), 2, None));
    tree.push(marked(Some(1), 3, Some(103)));
    tree.push(marked(Some(0), 4, Some(104)));
    tree.push(marked(Some(4), 5, Some(105)));
    tree
}

#[test]
fn inserting_a_node_moves_later_nodes_and_their_parents() {
    let mut tree = sample();
    assert!(tree.insert(4, marked(Some(1), 9, None)));
    assert_eq!(
        shape(&tree),
        vec![
            (0, None),
            (1, Some(0)),
            (2, Some(1)),
            (3, Some(1)),
            (9, Some(1)),
            (4, Some(0)),
            (5, Some(5)),
        ]
    );
    assert!(tree.insert(0, marked(None, 8, None)));
    assert_eq!(
        shape(&tree),
        vec![
            (8, None),
            (0, None),
            (1, Some(1)),
            (2, Some(2)),
            (3, Some(2)),
            (9, Some(2)),
            (4, Some(1)),
            (5, Some(6)),
        ]
    );
    assert!(tree.insert(8, marked(Some(7), 7, None)));
    assert_eq!(tree.len(), 9);
    assert_eq!(tree.get(8).unwrap().parent, Some(7));
}

#[test]
fn inserting_is_refused_where_the_tree_would_break() {
    let mut tree = sample();
    assert!(!tree.insert(7, marked(None, 9, None)));
    assert!(!tree.insert(2, marked(Some(2), 9, None)));
    assert!(!tree.insert(0, marked(Some(0), 9, None)));
    assert!(!tree.insert(3, marked(Some(5), 9, None)));
    assert_eq!(shape(&tree), shape(&sample()));
}

#[test]
fn removing_a_node_takes_its_subtree_along() {
    let mut tree = sample();
    assert_eq!(tree.remove(1), vec![101, 103]);
    assert_eq!(shape(&tree), vec![(0, None), (4, Some(0)), (5, Some(1))]);
    assert_eq!(tree.remove(2), vec![105]);
    assert_eq!(shape(&tree), vec![(0, None), (4, Some(0))]);
    assert_eq!(tree.remove(0), vec![100, 104]);
    assert_eq!(tree.len(), 0);
}

#[test]
fn removing_a_leaf_keeps_everything_else() {
    let mut tree = sample();
    assert_eq!(tree.remove(2), Vec::<u64>::new());
    assert_eq!(
        shape(&tree),
        vec![(0, None), (1, Some(0)), (3, Some(1)), (4, Some(0)), (5, Some(3))]
    );
    assert_eq!(tree.handles(), vec![100, 101, 103, 104, 105]);
}

#[test]
fn removing_one_of_two_roots_keeps_the_other() {
    let mut tree = NodeTree::new();
    tree.push(marked(None, 0, None));
    tree.push(marked(Some(0), 1, None));
    tree.push(marked(None, 2, None));
    tree.push(marked(Some(2), 3, None));
    tree.push(marked(Some(1), 4, None));
    tree.remove(0);
    assert_eq!(shape(&tree), vec![(2, None), (3, Some(0))]);
}

#[test]
fn a_node_moves_by_removal_and_insertion() {
    let mut tree = sample();
    let handles = tree.remove(5);
    assert_eq!(handles, vec![105]);
    assert!(tree.insert(1, marked(Some(0), 5, Some(105))));
    assert_eq!(
        shape(&tree),
        vec![(0, None), (5, Some(0)), (1, Some(0)), (2, Some(2)), (3, Some(2)), (4, Some(0))]
    );
    assert_eq!(tree.origins().len(), 6);
}
