//! Accessibility elements: the record kept of each element of a window, the
//! way it is read from the raw properties an accessibility service reports,
//! and the depth-limited pre-order walk over a tree of such elements.
pub mod linux;
pub mod mock;
pub mod uia;

use vstd::prelude::*;

verus! {

/// UI Automation control type identifier of a button.
pub const BUTTON_CONTROL_TYPE_ID: i32 = 50000;
/// UI Automation control type identifier of a check box.
pub const CHECK_BOX_CONTROL_TYPE_ID: i32 = 50002;
/// UI Automation control type identifier of a combo box.
pub const COMBO_BOX_CONTROL_TYPE_ID: i32 = 50003;
/// UI Automation control type identifier of an edit field.
pub const EDIT_CONTROL_TYPE_ID: i32 = 50004;
/// UI Automation control type identifier of a hyperlink.
pub const HYPERLINK_CONTROL_TYPE_ID: i32 = 50005;
/// UI Automation control type identifier of a list.
pub const LIST_CONTROL_TYPE_ID: i32 = 50008;
/// UI Automation control type identifier of a menu.
pub const MENU_CONTROL_TYPE_ID: i32 = 50009;
/// UI Automation control type identifier of a menu bar.
pub const MENU_BAR_CONTROL_TYPE_ID: i32 = 50010;
/// UI Automation control type identifier of a menu item.
pub const MENU_ITEM_CONTROL_TYPE_ID: i32 = 50011;
/// UI Automation control type identifier of a text label.
pub const TEXT_CONTROL_TYPE_ID: i32 = 50020;
/// UI Automation control type identifier of a document.
pub const DOCUMENT_CONTROL_TYPE_ID: i32 = 50030;
/// UI Automation control type identifier of a window.
pub const WINDOW_CONTROL_TYPE_ID: i32 = 50032;

/// One element of the user interface, as handed to the planner.
#[derive(Clone, Debug, PartialEq, Eq)]
pub struct UIElement {
    /// Automation identifier of the element.
    pub id: String,
    /// Text label of the element (such as "Save").
    pub name: String,
    /// Kind of control, such as "Button", "Edit" or "Document".
    pub control_type: String,
    /// `[x, y, width, height]` of the element on the screen.
    pub bounding_box: [i32; 4],
    /// Whether the element accepts input.
    pub is_enabled: bool,
}

/// A screen rectangle given by its edges.
#[derive(Clone, Copy, Debug, PartialEq, Eq)]
pub struct Rect {
    pub left: i32,
    pub top: i32,
    pub right: i32,
    pub bottom: i32,
}

/// The properties an accessibility service reported for one element; each
/// is `None` where the service failed to give it.
#[derive(Debug, PartialEq, Eq)]
pub struct ElementProperties {
    pub name: Option<String>,
    pub control_type_id: Option<i32>,
    pub bounding_rectangle: Option<Rect>,
    pub is_enabled: Option<bool>,
    pub automation_id: Option<String>,
}

/// An element together with the elements under it, in the order in which
/// the service lists them.
#[derive(Debug, PartialEq, Eq)]
pub struct UiNode {
    pub properties: ElementProperties,
    pub children: Vec<UiNode>,
}

/// The label of a control type identifier: one of the twelve known kinds,
/// or "Other".
pub open spec fn control_type_label(id: i32) -> Seq<char> {
    if id == BUTTON_CONTROL_TYPE_ID {
        "Button"@
    } else if id == EDIT_CONTROL_TYPE_ID {
        "Edit"@
    } else if id == DOCUMENT_CONTROL_TYPE_ID {
        "Document"@
    } else if id == HYPERLINK_CONTROL_TYPE_ID {
        "Hyperlink"@
    } else if id == LIST_CONTROL_TYPE_ID {
        "List"@
    } else if id == MENU_CONTROL_TYPE_ID {
        "Menu"@
    } else if id == MENU_BAR_CONTROL_TYPE_ID {
        "MenuBar"@
    } else if id == MENU_ITEM_CONTROL_TYPE_ID {
        "MenuItem"@
    } else if id == WINDOW_CONTROL_TYPE_ID {
        "Window"@
    } else if id == TEXT_CONTROL_TYPE_ID {
        "Text"@
    } else if id == COMBO_BOX_CONTROL_TYPE_ID {
        "ComboBox"@
    } else if id == CHECK_BOX_CONTROL_TYPE_ID {
        "CheckBox"@
    } else {
        "Other"@
    }
}

/// The rectangle used for an element: the reported one, or the empty
/// rectangle at the origin.
pub open spec fn rect_or_empty(r: Option<Rect>) -> Rect {
    match r {
        Some(rect) => rect,
        None => Rect { left: 0, top: 0, right: 0, bottom: 0 },
    }
}

/// Width and height of `r` fit in an `i32`.
pub open spec fn rect_measurable(r: Rect) -> bool {
    &&& i32::MIN <= r.right - r.left <= i32::MAX
    &&& i32::MIN <= r.bottom - r.top <= i32::MAX
}

/// `[x, y, width, height]` of a rectangle.
pub open spec fn box_of(r: Rect) -> Seq<i32> {
    seq![r.left, r.top, (r.right - r.left) as i32, (r.bottom - r.top) as i32]
}

/// The properties of an element can be turned into a record.
pub open spec fn properties_measurable(p: ElementProperties) -> bool {
    rect_measurable(rect_or_empty(p.bounding_rectangle))
}

/// The view of a text property: the reported text, or the empty text.
pub open spec fn text_or_empty(t: Option<String>) -> Seq<char> {
    match t {
        Some(s) => s@,
        None => Seq::empty(),
    }
}

/// What a record says: its texts as character sequences, its box as a
/// sequence of four numbers.
pub struct ElementView {
    pub id: Seq<char>,
    pub name: Seq<char>,
    pub control_type: Seq<char>,
    pub bounding_box: Seq<i32>,
    pub is_enabled: bool,
}

impl View for UIElement {
    type V = ElementView;

    open spec fn view(&self) -> ElementView {
        ElementView {
            id: self.id@,
            name: self.name@,
            control_type: self.control_type@,
            bounding_box: self.bounding_box@,
            is_enabled: self.is_enabled,
        }
    }
}

/// The views of a sequence of records.
pub open spec fn views_of(elements: Seq<UIElement>) -> Seq<ElementView> {
    elements.map_values(|e: UIElement| e@)
}

/// The record of an element read from its properties: a missing name or
/// identifier is empty, a missing control type counts as a button, a missing
/// rectangle is the empty one at the origin, and a missing enabled flag is
/// `false`.
pub open spec fn element_view_of(p: ElementProperties) -> ElementView {
    ElementView {
        id: text_or_empty(p.automation_id),
        name: text_or_empty(p.name),
        control_type: control_type_label(
            match p.control_type_id {
                Some(id) => id,
                None => BUTTON_CONTROL_TYPE_ID,
            },
        ),
        bounding_box: box_of(rect_or_empty(p.bounding_rectangle)),
        is_enabled: match p.is_enabled {
            Some(b) => b,
            None => false,
        },
    }
}

/// Every element of the tree under `node` that lies no deeper than
/// `max_depth` (where `node` itself is at `depth`) can be turned into a
/// record.  Elements below the limit are never read, so nothing is asked of
/// them.
pub open spec fn measurable_within(node: UiNode, depth: int, max_depth: int) -> bool
    decreases node, 0nat,
{
    depth > max_depth || (properties_measurable(node.properties) && forest_measurable_within(
        node.children@,
        depth + 1,
        max_depth,
    ))
}

/// `measurable_within` for every tree of a sequence of sibling trees at
/// `depth`.
pub open spec fn forest_measurable_within(trees: Seq<UiNode>, depth: int, max_depth: int) -> bool
    decreases trees, 1nat,
{
    trees.len() == 0 || (forest_measurable_within(trees.drop_last(), depth, max_depth)
        && measurable_within(trees.last(), depth, max_depth))
}

/// Number of elements in the tree under `node`.
pub open spec fn tree_size(node: UiNode) -> nat
    decreases node, 0nat,
{
    1 + forest_size(node.children@)
}

/// Number of elements in a sequence of trees.
pub open spec fn forest_size(trees: Seq<UiNode>) -> nat
    decreases trees, 1nat,
{
    if trees.len() == 0 {
        0
    } else {
        forest_size(trees.drop_last()) + tree_size(trees.last())
    }
}

/// Number of levels below `node` (zero for an element with nothing under
/// it).
pub open spec fn tree_height(node: UiNode) -> nat
    decreases node, 0nat,
{
    if node.children@.len() == 0 {
        0
    } else {
        1 + forest_height(node.children@)
    }
}

/// The greatest `tree_height` of a sequence of trees (zero when empty).
pub open spec fn forest_height(trees: Seq<UiNode>) -> nat
    decreases trees, 1nat,
{
    if trees.len() == 0 {
        0
    } else {
        let rest = forest_height(trees.drop_last());
        let last = tree_height(trees.last());
        if rest >= last {
            rest
        } else {
            last
        }
    }
}

/// The records of the elements of the tree under `node`, where `node`
/// itself is at `depth`: those whose depth is at most `max_depth`, in
/// pre-order (an element before the elements under it, and those in the
/// order in which the service lists them).
pub open spec fn visible_elements(node: UiNode, depth: int, max_depth: int) -> Seq<ElementView>
    decreases node, 0nat,
{
    if depth > max_depth {
        Seq::empty()
    } else {
        seq![element_view_of(node.properties)] + visible_in_forest(
            node.children@,
            depth + 1,
            max_depth,
        )
    }
}

/// `visible_elements` of a sequence of sibling trees at `depth`, one tree
/// after the other.
pub open spec fn visible_in_forest(trees: Seq<UiNode>, depth: int, max_depth: int) -> Seq<ElementView>
    decreases trees, 1nat,
{
    if trees.len() == 0 {
        Seq::empty()
    } else {
        visible_in_forest(trees.drop_last(), depth, max_depth) + visible_elements(
            trees.last(),
            depth,
            max_depth,
        )
    }
}

/// `visible_elements` with the depth of each element beside its record.
pub open spec fn leveled_elements(node: UiNode, depth: int, max_depth: int) -> Seq<(int, ElementView)>
    decreases node, 0nat,
{
    if depth > max_depth {
        Seq::empty()
    } else {
        seq![(depth, element_view_of(node.properties))] + leveled_in_forest(
            node.children@,
            depth + 1,
            max_depth,
        )
    }
}

/// `leveled_elements` of a sequence of sibling trees at `depth`.
pub open spec fn leveled_in_forest(trees: Seq<UiNode>, depth: int, max_depth: int) -> Seq<(int, ElementView)>
    decreases trees, 1nat,
{
    if trees.len() == 0 {
        Seq::empty()
    } else {
        leveled_in_forest(trees.drop_last(), depth, max_depth) + leveled_elements(
            trees.last(),
            depth,
            max_depth,
        )
    }
}

/// Keeps the entries of depth at most `limit`.
pub open spec fn within_depth(limit: int) -> spec_fn((int, ElementView)) -> bool {
    |entry: (int, ElementView)| entry.0 <= limit
}

/// The record of an entry, without its depth.
pub open spec fn record_of(entry: (int, ElementView)) -> ElementView {
    entry.1
}

/// Every element of the tree under `node`, each with its depth (`node`
/// itself at `depth`), in pre-order: an element, then the whole tree under
/// its first child, then the whole tree under its second child, and so on.
/// No depth limit applies.
pub open spec fn pre_order(node: UiNode, depth: int) -> Seq<(int, ElementView)>
    decreases node, 0nat,
{
    seq![(depth, element_view_of(node.properties))] + pre_order_of_children(
        node.children@,
        depth + 1,
    )
}

/// `pre_order` of sibling trees at `depth`, taken from the first sibling to
/// the last.
pub open spec fn pre_order_of_children(trees: Seq<UiNode>, depth: int) -> Seq<(int, ElementView)>
    decreases trees, 1nat,
{
    if trees.len() == 0 {
        Seq::empty()
    } else {
        pre_order(trees[0], depth) + pre_order_of_children(trees.subrange(1, trees.len() as int), depth)
    }
}

} // verus!
