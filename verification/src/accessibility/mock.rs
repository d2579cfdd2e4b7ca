//! The fixed element tree offered where no accessibility service is used:
//! a "Save" button and a "Username" edit field.
use vstd::prelude::*;

use crate::accessibility::{ElementView, UIElement, views_of};

verus! {

/// The records of the fixed tree, in order.
pub open spec fn sample_elements() -> Seq<ElementView> {
    seq![
        ElementView {
            id: "mock_btn_1"@,
            name: "Save"@,
            control_type: "Button"@,
            bounding_box: seq![100i32, 100i32, 80i32, 30i32],
            is_enabled: true,
        },
        ElementView {
            id: "mock_input_1"@,
            name: "Username"@,
            control_type: "Edit"@,
            bounding_box: seq![100i32, 150i32, 200i32, 30i32],
            is_enabled: true,
        },
    ]
}

/// The fixed tree: a "Save" button at (100, 100), 80 by 30, and a
/// "Username" edit field at (100, 150), 200 by 30, both enabled.
pub fn get_ui_tree() -> (elements: Vec<UIElement>)
    ensures
        views_of(elements@) == sample_elements(),
{
    let save = UIElement {
        id: String::from_str("mock_btn_1"),
        name: String::from_str("Save"),
        control_type: String::from_str("Button"),
        bounding_box: [100, 100, 80, 30],
        is_enabled: true,
    };
    let username = UIElement {
        id: String::from_str("mock_input_1"),
        name: String::from_str("Username"),
        control_type: String::from_str("Edit"),
        bounding_box: [100, 150, 200, 30],
        is_enabled: true,
    };
    let elements = vec![save, username];
    assert(elements@[0].bounding_box@ =~= seq![100i32, 100i32, 80i32, 30i32]);
    assert(elements@[1].bounding_box@ =~= seq![100i32, 150i32, 200i32, 30i32]);
    assert(views_of(elements@) =~= sample_elements());
    elements
}

} // verus!
