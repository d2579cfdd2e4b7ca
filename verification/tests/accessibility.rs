use openvy::accessibility::mock;
use openvy::accessibility::uia::{
    bounding_box, children_visible, control_type_name, extract_element_info, get_ui_tree,
    rect_is_measurable, walk_tree,
};
use openvy::accessibility::{ElementProperties, Rect, UIElement, UiNode};

fn props(name: &str, control_type_id: Option<i32>, rect: Rect) -> ElementProperties {
    ElementProperties {
        name: Some(name.to_string()),
        control_type_id,
        bounding_rectangle: Some(rect),
        is_enabled: Some(true),
        automation_id: Some(format!("id_{}", name)),
    }
}

fn leaf(name: &str) -> UiNode {
    UiNode {
        properties: props(name, Some(50000), Rect { left: 0, top: 0, right: 10, bottom: 10 }),
        children: vec![],
    }
}

fn names(elements: &[UIElement]) -> Vec<String> {
    elements.iter().map(|e| e.name.clone()).collect()
}

/// window
/// ├── a
/// │   ├── a1
/// │   │   └── a1x
/// │   └── a2
/// └── b
fn sample_tree() -> UiNode {
    let a1 = UiNode {
        properties: props("a1", Some(50004), Rect { left: 1, top: 2, right: 3, bottom: 4 }),
        children: vec![leaf("a1x")],
    };
    let a = UiNode {
        properties: props("a", Some(50009), Rect { left: 0, top: 0, right: 5, bottom: 5 }),
        children: vec![a1, leaf("a2")],
    };
    UiNode {
        properties: props("window", Some(50032), Rect { left: 0, top: 0, right: 800, bottom: 600 }),
        children: vec![a, leaf("b")],
    }
}

#[test]
fn control_type_names_follow_the_known_ids() {
    let expected = [
        (50000, "Button"),
        (50004, "Edit"),
        (50030, "Document"),
        (50005, "Hyperlink"),
        (50008, "List"),
        (50009, "Menu"),
        (50010, "MenuBar"),
        (50011, "MenuItem"),
        (50032, "Window"),
        (50020, "Text"),
        (50003, "ComboBox"),
        (50002, "CheckBox"),
        (50001, "Other"),
        (0, "Other"),
        (-1, "Other"),
    ];
    for (id, label) in expected {
        assert_eq!(control_type_name(id), label);
    }
}

#[test]
fn bounding_box_is_origin_and_size() {
    let b = bounding_box(Rect { left: 10, top: 20, right: 110, bottom: 70 });
    assert_eq!(b, [10, 20, 100, 50]);
    let b = bounding_box(Rect { left: -30, top: -5, right: -10, bottom: 5 });
    assert_eq!(b, [-30, -5, 20, 10]);
}

#[test]
fn measurability_of_rectangles() {
    assert!(rect_is_measurable(Rect { left: 0, top: 0, right: 1920, bottom: 1080 }));
    assert!(!rect_is_measurable(Rect { left: i32::MIN, top: 0, right: i32::MAX, bottom: 0 }));
    assert!(!rect_is_measurable(Rect { left: 0, top: i32::MAX, right: 0, bottom: -2 }));
    assert!(rect_is_measurable(Rect { left: -1, top: 0, right: i32::MAX - 1, bottom: 0 }));
}

#[test]
fn element_info_uses_reported_properties() {
    let e = extract_element_info(&props("Save", Some(50000), Rect { left: 5, top: 6, right: 15, bottom: 26 }));
    assert_eq!(e.name, "Save");
    assert_eq!(e.id, "id_Save");
    assert_eq!(e.control_type, "Button");
    assert_eq!(e.bounding_box, [5, 6, 10, 20]);
    assert!(e.is_enabled);
}

#[test]
fn element_info_defaults_for_missing_properties() {
    let e = extract_element_info(&ElementProperties {
        name: None,
        control_type_id: None,
        bounding_rectangle: None,
        is_enabled: None,
        automation_id: None,
    });
    assert_eq!(e.name, "");
    assert_eq!(e.id, "");
    assert_eq!(e.control_type, "Button");
    assert_eq!(e.bounding_box, [0, 0, 0, 0]);
    assert!(!e.is_enabled);
}

#[test]
fn unknown_control_type_is_other() {
    let e = extract_element_info(&props("x", Some(50033), Rect { left: 0, top: 0, right: 0, bottom: 0 }));
    assert_eq!(e.control_type, "Other");
}

#[test]
fn tree_is_walked_in_preorder() {
    let tree = sample_tree();
    let all = get_ui_tree(Some(&tree), 10);
    assert_eq!(names(&all), vec!["window", "a", "a1", "a1x", "a2", "b"]);
    assert_eq!(all[0].control_type, "Window");
    assert_eq!(all[2].bounding_box, [1, 2, 2, 2]);
}

#[test]
fn depth_limit_cuts_deeper_elements() {
    let tree = sample_tree();
    assert_eq!(names(&get_ui_tree(Some(&tree), 0)), vec!["window"]);
    assert_eq!(names(&get_ui_tree(Some(&tree), 1)), vec!["window", "a", "b"]);
    assert_eq!(names(&get_ui_tree(Some(&tree), 2)), vec!["window", "a", "a1", "a2", "b"]);
    assert_eq!(names(&get_ui_tree(Some(&tree), 3)), vec!["window", "a", "a1", "a1x", "a2", "b"]);
}

#[test]
fn missing_window_gives_empty_tree() {
    assert!(get_ui_tree(None, 10).is_empty());
}

#[test]
fn walk_appends_to_existing_results() {
    let tree = sample_tree();
    let mut results = mock::get_ui_tree();
    walk_tree(&tree.children[0], 1, 2, &mut results);
    assert_eq!(names(&results), vec!["Save", "Username", "a", "a1", "a2"]);
    let mut none = Vec::new();
    walk_tree(&tree, 3, 2, &mut none);
    assert!(none.is_empty());
}

#[test]
fn children_visibility_follows_depth_limit() {
    assert!(children_visible(0, 1));
    assert!(!children_visible(1, 1));
    assert!(!children_visible(2, 1));
}

#[test]
fn fixed_tree_has_save_and_username() {
    let t = mock::get_ui_tree();
    assert_eq!(t.len(), 2);
    assert_eq!(t[0].id, "mock_btn_1");
    assert_eq!(t[0].name, "Save");
    assert_eq!(t[0].control_type, "Button");
    assert_eq!(t[0].bounding_box, [100, 100, 80, 30]);
    assert!(t[0].is_enabled);
    assert_eq!(t[1].id, "mock_input_1");
    assert_eq!(t[1].name, "Username");
    assert_eq!(t[1].control_type, "Edit");
    assert_eq!(t[1].bounding_box, [100, 150, 200, 30]);
    assert!(t[1].is_enabled);
}

#[test]
fn linux_tree_is_empty() {
    assert!(openvy::accessibility::linux::get_active_window_tree(10).is_empty());
}

#[test]
fn unread_rectangles_below_the_limit_do_not_matter() {
    let child = UiNode {
        properties: props("huge", Some(50000), Rect { left: i32::MIN, top: 0, right: i32::MAX, bottom: 0 }),
        children: vec![],
    };
    let root = UiNode {
        properties: props("window", Some(50032), Rect { left: 0, top: 0, right: 5, bottom: 5 }),
        children: vec![child],
    };
    assert_eq!(names(&get_ui_tree(Some(&root), 0)), vec!["window"]);
}

#[test]
fn smaller_limit_keeps_the_shallow_part_in_order() {
    let tree = sample_tree();
    let deep = get_ui_tree(Some(&tree), 10);
    let shallow = get_ui_tree(Some(&tree), 1);
    let depths = [0, 1, 2, 3, 2, 1];
    let kept: Vec<String> = deep
        .iter()
        .zip(depths.iter())
        .filter(|(_, d)| **d <= 1)
        .map(|(e, _)| e.name.clone())
        .collect();
    assert_eq!(names(&shallow), kept);
}
