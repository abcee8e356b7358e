use loading_screen::ui::{
    label_text, Alignment, Dimension, FlowDirection, NodeKind, Positioning, Rgb, World,
};

#[test]
fn loading_screen_subtree_is_spawned_in_full() {
    let mut world = World::new();
    world.setup();
    world.setup_loading_screen();
    assert_eq!(world.nodes.len(), 5);
    assert_eq!(world.next_id, 5);

    let camera = &world.nodes[0];
    assert_eq!(camera.kind, NodeKind::Camera);
    assert_eq!(camera.id, 0);
    assert_eq!(camera.parent, None);

    let root = &world.nodes[1];
    assert_eq!(root.kind, NodeKind::LoadingRoot);
    assert_eq!(root.id, 1);
    assert_eq!(root.parent, None);
    assert_eq!(root.width, Dimension::Percent(100));
    assert_eq!(root.height, Dimension::Percent(100));
    assert_eq!(root.align_items, Alignment::Center);
    assert_eq!(root.justify_content, Alignment::Center);
    assert_eq!(root.direction, FlowDirection::Column);
    assert_eq!(root.background, Some(Rgb { red: 100, green: 100, blue: 100 }));

    let text = &world.nodes[2];
    assert_eq!(text.kind, NodeKind::LoadingText);
    assert_eq!(text.id, 2);
    assert_eq!(text.parent, Some(1));
    assert_eq!(text.font_size, 60);
    assert_eq!(text.text_color, Some(Rgb { red: 1000, green: 1000, blue: 1000 }));

    let frame = &world.nodes[3];
    assert_eq!(frame.kind, NodeKind::SpinnerFrame);
    assert_eq!(frame.id, 3);
    assert_eq!(frame.parent, Some(1));
    assert_eq!(frame.width, Dimension::Px(50));
    assert_eq!(frame.height, Dimension::Px(50));
    assert_eq!(frame.margin_top_px, 30);

    let spinner = &world.nodes[4];
    assert_eq!(spinner.kind, NodeKind::Spinner);
    assert_eq!(spinner.id, 4);
    assert_eq!(spinner.parent, Some(3));
    assert_eq!(spinner.width, Dimension::Percent(100));
    assert_eq!(spinner.height, Dimension::Percent(100));
    assert_eq!(spinner.border_px, 5);
    assert!(spinner.fully_rounded);
    assert_eq!(spinner.spin_mrad, 0);
}

#[test]
fn cleanup_removes_exactly_the_loading_screen() {
    let mut world = World::new();
    world.setup();
    world.setup_loading_screen();
    world.cleanup_loading_screen();
    assert_eq!(world.nodes.len(), 1);
    assert_eq!(world.nodes[0].kind, NodeKind::Camera);
    // Ids are never reused, so the counter does not rewind.
    assert_eq!(world.next_id, 5);
}

#[test]
fn cleanup_twice_is_harmless() {
    // A defensive second teardown finds nothing to remove and changes
    // nothing.
    let mut world = World::new();
    world.setup();
    world.setup_loading_screen();
    world.cleanup_loading_screen();
    let len_after_first = world.nodes.len();
    world.cleanup_loading_screen();
    assert_eq!(world.nodes.len(), len_after_first);
    assert_eq!(world.nodes[0].kind, NodeKind::Camera);

    // Even on a tree that never had a loading screen.
    let mut empty = World::new();
    empty.cleanup_loading_screen();
    assert_eq!(empty.nodes.len(), 0);
}

#[test]
fn game_label_sits_near_the_top_left() {
    let mut world = World::new();
    world.setup_game();
    assert_eq!(world.nodes.len(), 1);
    let label = &world.nodes[0];
    assert_eq!(label.kind, NodeKind::GameLabel);
    assert_eq!(label.positioning, Positioning::Absolute);
    assert_eq!(label.top_px, 50);
    assert_eq!(label.left_px, 50);
    assert_eq!(label.font_size, 40);
    assert_eq!(label.text_color, Some(Rgb { red: 1000, green: 1000, blue: 1000 }));
}

#[test]
fn labels_carry_their_text() {
    assert_eq!(label_text(NodeKind::LoadingText), "Loading...");
    assert_eq!(label_text(NodeKind::GameLabel), "Game Started!");
    assert_eq!(label_text(NodeKind::Spinner), "");
    assert_eq!(label_text(NodeKind::Camera), "");
}

#[test]
fn rotation_only_touches_spinners() {
    let mut world = World::new();
    world.setup();
    world.setup_loading_screen();
    world.rotate_spinners(250);
    for node in world.nodes.iter() {
        if node.kind == NodeKind::Spinner {
            assert_eq!(node.spin_mrad, 500);
        } else {
            assert_eq!(node.spin_mrad, 0);
        }
    }
    world.rotate_spinners(0);
    for node in world.nodes.iter() {
        if node.kind == NodeKind::Spinner {
            assert_eq!(node.spin_mrad, 500);
        }
    }
}

#[test]
fn spin_saturates_instead_of_wrapping() {
    let mut world = World::new();
    world.setup_loading_screen();
    world.rotate_spinners(u64::MAX);
    world.rotate_spinners(1);
    for node in world.nodes.iter() {
        if node.kind == NodeKind::Spinner {
            assert_eq!(node.spin_mrad, u64::MAX);
        }
    }
}

#[test]
fn kind_query_reports_presence() {
    let mut world = World::new();
    assert!(!world.has_node_kind(NodeKind::Camera));
    world.setup();
    assert!(world.has_node_kind(NodeKind::Camera));
    assert!(!world.has_node_kind(NodeKind::Spinner));
    world.setup_loading_screen();
    assert!(world.has_node_kind(NodeKind::Spinner));
}
