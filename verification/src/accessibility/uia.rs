//! Reading the element tree of the foreground window as UI Automation
//! reports it: each element's record, and the depth-limited walk.
use vstd::prelude::*;

use crate::accessibility::{
    pre_order, pre_order_of_children,
    leveled_elements, leveled_in_forest, within_depth, record_of,
    box_of, control_type_label, element_view_of, forest_size, properties_measurable,
    rect_measurable, text_or_empty, measurable_within, tree_size, views_of, tree_height, forest_height,
    visible_elements, visible_in_forest, forest_measurable_within, ElementProperties, ElementView,
    Rect, UIElement, UiNode, BUTTON_CONTROL_TYPE_ID, CHECK_BOX_CONTROL_TYPE_ID,
    COMBO_BOX_CONTROL_TYPE_ID, DOCUMENT_CONTROL_TYPE_ID, EDIT_CONTROL_TYPE_ID,
    HYPERLINK_CONTROL_TYPE_ID, LIST_CONTROL_TYPE_ID, MENU_BAR_CONTROL_TYPE_ID,
    MENU_CONTROL_TYPE_ID, MENU_ITEM_CONTROL_TYPE_ID, TEXT_CONTROL_TYPE_ID,
    WINDOW_CONTROL_TYPE_ID,
};

verus! {

/// The label of a control type identifier.
pub fn control_type_name(id: i32) -> (label: String)
    ensures
        label@ == control_type_label(id),
{
    let text = if id == BUTTON_CONTROL_TYPE_ID {
        "Button"
    } else if id == EDIT_CONTROL_TYPE_ID {
        "Edit"
    } else if id == DOCUMENT_CONTROL_TYPE_ID {
        "Document"
    } else if id == HYPERLINK_CONTROL_TYPE_ID {
        "Hyperlink"
    } else if id == LIST_CONTROL_TYPE_ID {
        "List"
    } else if id == MENU_CONTROL_TYPE_ID {
        "Menu"
    } else if id == MENU_BAR_CONTROL_TYPE_ID {
        "MenuBar"
    } else if id == MENU_ITEM_CONTROL_TYPE_ID {
        "MenuItem"
    } else if id == WINDOW_CONTROL_TYPE_ID {
        "Window"
    } else if id == TEXT_CONTROL_TYPE_ID {
        "Text"
    } else if id == COMBO_BOX_CONTROL_TYPE_ID {
        "ComboBox"
    } else if id == CHECK_BOX_CONTROL_TYPE_ID {
        "CheckBox"
    } else {
        "Other"
    };
    String::from_str(text)
}

/// `[x, y, width, height]` of a rectangle given by its edges.
pub fn bounding_box(rect: Rect) -> (b: [i32; 4])
    requires
        rect_measurable(rect),
    ensures
        b@ == box_of(rect),
        b[0] == rect.left,
        b[1] == rect.top,
        b[0] + b[2] == rect.right,
        b[1] + b[3] == rect.bottom,
{
    let width = rect.right - rect.left;
    let height = rect.bottom - rect.top;
    let b = [rect.left, rect.top, width, height];
    assert(b@ =~= box_of(rect));
    b
}

/// Whether the width and height of `rect` fit in an `i32`, so that its box
/// can be computed.
pub fn rect_is_measurable(rect: Rect) -> (r: bool)
    ensures
        r == rect_measurable(rect),
{
    let width = rect.right as i64 - rect.left as i64;
    let height = rect.bottom as i64 - rect.top as i64;
    i32::MIN as i64 <= width && width <= i32::MAX as i64 && i32::MIN as i64 <= height && height
        <= i32::MAX as i64
}

/// A text property as a string: the reported text, or the empty string.
fn text_or_default(t: &Option<String>) -> (s: String)
    ensures
        s@ == text_or_empty(*t),
{
    match t {
        Some(s) => s.clone(),
        None => String::new(),
    }
}

/// The record of an element read from the properties the service reported.
pub fn extract_element_info(properties: &ElementProperties) -> (e: UIElement)
    requires
        properties_measurable(*properties),
    ensures
        e@ == element_view_of(*properties),
{
    let name = text_or_default(&properties.name);
    let control_type_id = match properties.control_type_id {
        Some(id) => id,
        None => BUTTON_CONTROL_TYPE_ID,
    };
    let control_type = control_type_name(control_type_id);
    let rect = match properties.bounding_rectangle {
        Some(r) => r,
        None => Rect { left: 0, top: 0, right: 0, bottom: 0 },
    };
    let is_enabled = match properties.is_enabled {
        Some(b) => b,
        None => false,
    };
    let id = text_or_default(&properties.automation_id);
    UIElement { id, name, control_type, bounding_box: bounding_box(rect), is_enabled }
}

/// A sequence of trees all of whose roots lie deeper than `max_depth` shows
/// no element.
proof fn lemma_forest_below_limit(trees: Seq<UiNode>, depth: int, max_depth: int)
    requires
        depth > max_depth,
    ensures
        visible_in_forest(trees, depth, max_depth) == Seq::<ElementView>::empty(),
    decreases trees.len(),
{
    if trees.len() > 0 {
        lemma_forest_below_limit(trees.drop_last(), depth, max_depth);
        assert(visible_elements(trees.last(), depth, max_depth) =~= Seq::<ElementView>::empty());
        assert(visible_in_forest(trees, depth, max_depth) =~= Seq::<ElementView>::empty());
    }
}

/// Whether the elements under an element at `depth` can show up when the
/// walk stops below `max_depth`.
pub fn children_visible(depth: usize, max_depth: usize) -> (r: bool)
    ensures
        r == (depth < max_depth),
{
    depth < max_depth
}

/// Appends to `results` the records of the elements of the tree under
/// `node` (which lies at `depth`) down to `max_depth`, in pre-order.
pub fn walk_tree(node: &UiNode, depth: usize, max_depth: usize, results: &mut Vec<UIElement>)
    requires
        measurable_within(*node, depth as int, max_depth as int),
    ensures
        views_of(final(results)@) == views_of(old(results)@) + visible_elements(
            *node,
            depth as int,
            max_depth as int,
        ),
        views_of(final(results)@) == views_of(old(results)@) + pre_order(*node, depth as int).filter(
            within_depth(max_depth as int),
        ).map_values(|e: (int, ElementView)| record_of(e)),
    decreases node,
{
    proof {
        lemma_walk_lists_pre_order(*node, depth as int, max_depth as int);
    }
    let ghost start = views_of(results@);
    if depth > max_depth {
        assert(views_of(results@) =~= start + visible_elements(*node, depth as int, max_depth as int));
        return;
    }
    let element = extract_element_info(&node.properties);
    results.push(element);
    let ghost after_self = views_of(results@);
    assert(after_self =~= start + seq![element_view_of(node.properties)]);
    if !children_visible(depth, max_depth) {
        proof {
            lemma_forest_below_limit(node.children@, depth + 1, max_depth as int);
        }
        assert(views_of(results@) =~= start + visible_elements(*node, depth as int, max_depth as int));
        return;
    }
    let mut i: usize = 0;
    while i < node.children.len()
        invariant
            depth < max_depth,
            i <= node.children.len(),
            forest_measurable_within(node.children@, depth + 1, max_depth as int),
            views_of(results@) == after_self + visible_in_forest(
                node.children@.take(i as int),
                depth + 1,
                max_depth as int,
            ),
        decreases node.children.len() - i,
    {
        proof {
            lemma_forest_prefix_measurable(node.children@, depth + 1, max_depth as int, i as int + 1);
            assert(node.children@.take(i as int + 1).drop_last() =~= node.children@.take(i as int));
        }
        let ghost before = views_of(results@);
        walk_tree(&node.children[i], depth + 1, max_depth, results);
        assert(views_of(results@) =~= after_self + visible_in_forest(
            node.children@.take(i as int + 1),
            depth + 1,
            max_depth as int,
        ));
        i = i + 1;
    }
    assert(node.children@.take(node.children.len() as int) =~= node.children@);
}

/// Every tree of a sequence measurable within the limit is measurable
/// within it, and so is every prefix.
proof fn lemma_forest_prefix_measurable(trees: Seq<UiNode>, depth: int, max_depth: int, n: int)
    requires
        forest_measurable_within(trees, depth, max_depth),
        0 < n <= trees.len(),
    ensures
        measurable_within(trees[n - 1], depth, max_depth),
        forest_measurable_within(trees.take(n), depth, max_depth),
    decreases trees.len(),
{
    if n == trees.len() {
        assert(trees.take(n) =~= trees);
    } else {
        lemma_forest_prefix_measurable(trees.drop_last(), depth, max_depth, n);
        assert(trees.drop_last().take(n) =~= trees.take(n));
    }
}

/// The records of the elements of the foreground window, down to
/// `max_depth` below the window itself, in pre-order.  `root` is the tree
/// the service gave for the window, or `None` where it could not be had (no
/// service, no foreground window, no element for it, no tree walker): then
/// the list is empty.
pub fn get_ui_tree(root: Option<&UiNode>, max_depth: u32) -> (elements: Vec<UIElement>)
    requires
        root matches Some(node) ==> measurable_within(*node, 0, max_depth as int),
    ensures
        views_of(elements@) == match root {
            Some(node) => visible_elements(*node, 0, max_depth as int),
            None => Seq::empty(),
        },
        views_of(elements@) == match root {
            Some(node) => pre_order(*node, 0).filter(within_depth(max_depth as int)).map_values(
                |e: (int, ElementView)| record_of(e),
            ),
            None => Seq::empty(),
        },
{
    proof {
        if let Some(node) = root {
            lemma_walk_lists_pre_order(*node, 0, max_depth as int);
        }
    }
    let mut elements: Vec<UIElement> = Vec::new();
    match root {
        Some(node) => {
            assert(views_of(elements@) =~= Seq::<ElementView>::empty());
            walk_tree(node, 0, max_depth as usize, &mut elements);
            assert(Seq::<ElementView>::empty() + visible_elements(*node, 0, max_depth as int)
                =~= visible_elements(*node, 0, max_depth as int));
        },
        None => {
            assert(views_of(elements@) =~= Seq::<ElementView>::empty());
        },
    }
    elements
}

/// The walk lists the window itself first, whatever the depth limit.
pub proof fn lemma_root_listed_first(root: UiNode, max_depth: u32)
    ensures
        visible_elements(root, 0, max_depth as int).len() >= 1,
        visible_elements(root, 0, max_depth as int)[0] == element_view_of(root.properties),
{
}

/// With a depth limit of zero the walk lists the window alone.
pub proof fn lemma_depth_zero_lists_root_only(root: UiNode)
    ensures
        visible_elements(root, 0, 0) == seq![element_view_of(root.properties)],
{
    lemma_forest_below_limit(root.children@, 1, 0);
    assert(visible_elements(root, 0, 0) =~= seq![element_view_of(root.properties)]);
}

/// The walk never lists more records than the tree has elements.
pub proof fn lemma_walk_within_tree(node: UiNode, depth: int, max_depth: int)
    ensures
        visible_elements(node, depth, max_depth).len() <= tree_size(node),
    decreases node, 0nat,
{
    if depth <= max_depth {
        lemma_forest_within_trees(node.children@, depth + 1, max_depth);
    }
}

/// `lemma_walk_within_tree` for a sequence of sibling trees.
pub proof fn lemma_forest_within_trees(trees: Seq<UiNode>, depth: int, max_depth: int)
    ensures
        visible_in_forest(trees, depth, max_depth).len() <= forest_size(trees),
    decreases trees, 1nat,
{
    if trees.len() > 0 {
        lemma_forest_within_trees(trees.drop_last(), depth, max_depth);
        lemma_walk_within_tree(trees.last(), depth, max_depth);
    }
}

/// When the depth limit reaches the deepest element, the walk lists every
/// element of the tree.
pub proof fn lemma_walk_complete(node: UiNode, depth: int, max_depth: int)
    requires
        depth <= max_depth,
        depth + tree_height(node) <= max_depth,
    ensures
        visible_elements(node, depth, max_depth).len() == tree_size(node),
    decreases node, 0nat,
{
    lemma_forest_complete(node.children@, depth + 1, max_depth);
}

/// `lemma_walk_complete` for a sequence of sibling trees.
pub proof fn lemma_forest_complete(trees: Seq<UiNode>, depth: int, max_depth: int)
    requires
        trees.len() > 0 ==> depth <= max_depth,
        trees.len() > 0 ==> depth + forest_height(trees) <= max_depth,
    ensures
        visible_in_forest(trees, depth, max_depth).len() == forest_size(trees),
    decreases trees, 1nat,
{
    if trees.len() > 0 {
        lemma_forest_complete(trees.drop_last(), depth, max_depth);
        lemma_walk_complete(trees.last(), depth, max_depth);
    }
}

/// `visible_elements` is `leveled_elements` without the depths.
pub proof fn lemma_visible_is_leveled(node: UiNode, depth: int, max_depth: int)
    ensures
        visible_elements(node, depth, max_depth) == leveled_elements(node, depth, max_depth).map_values(
            |e: (int, ElementView)| record_of(e),
        ),
    decreases node, 0nat,
{
    if depth <= max_depth {
        lemma_forest_visible_is_leveled(node.children@, depth + 1, max_depth);
        let f = |e: (int, ElementView)| record_of(e);
        let head = seq![(depth, element_view_of(node.properties))];
        let rest = leveled_in_forest(node.children@, depth + 1, max_depth);
        assert((head + rest).map_values(f) =~= head.map_values(f) + rest.map_values(f));
        assert(head.map_values(f) =~= seq![element_view_of(node.properties)]);
    } else {
        assert(leveled_elements(node, depth, max_depth).map_values(
            |e: (int, ElementView)| record_of(e),
        ) =~= Seq::<ElementView>::empty());
    }
}

/// `lemma_visible_is_leveled` for a sequence of sibling trees.
pub proof fn lemma_forest_visible_is_leveled(trees: Seq<UiNode>, depth: int, max_depth: int)
    ensures
        visible_in_forest(trees, depth, max_depth) == leveled_in_forest(trees, depth, max_depth).map_values(
            |e: (int, ElementView)| record_of(e),
        ),
    decreases trees, 1nat,
{
    let f = |e: (int, ElementView)| record_of(e);
    if trees.len() > 0 {
        lemma_forest_visible_is_leveled(trees.drop_last(), depth, max_depth);
        lemma_visible_is_leveled(trees.last(), depth, max_depth);
        let a = leveled_in_forest(trees.drop_last(), depth, max_depth);
        let b = leveled_elements(trees.last(), depth, max_depth);
        assert((a + b).map_values(f) =~= a.map_values(f) + b.map_values(f));
    } else {
        assert(leveled_in_forest(trees, depth, max_depth).map_values(f) =~= Seq::<ElementView>::empty());
    }
}

/// Below the limit a sequence of trees has no entries.
proof fn lemma_forest_leveled_below_limit(trees: Seq<UiNode>, depth: int, max_depth: int)
    requires
        depth > max_depth,
    ensures
        leveled_in_forest(trees, depth, max_depth) == Seq::<(int, ElementView)>::empty(),
    decreases trees.len(),
{
    if trees.len() > 0 {
        lemma_forest_leveled_below_limit(trees.drop_last(), depth, max_depth);
        assert(leveled_elements(trees.last(), depth, max_depth) =~= Seq::<(int, ElementView)>::empty());
        assert(leveled_in_forest(trees, depth, max_depth) =~= Seq::<(int, ElementView)>::empty());
    }
}

/// The walk with a smaller depth limit lists exactly the entries of the walk
/// with a larger limit whose depth is within the smaller one, in the same
/// order.
pub proof fn lemma_smaller_limit_restricts(node: UiNode, depth: int, smaller: int, larger: int)
    requires
        smaller <= larger,
    ensures
        leveled_elements(node, depth, smaller) == leveled_elements(node, depth, larger).filter(
            within_depth(smaller),
        ),
    decreases node, 0nat,
{
    reveal(Seq::filter);
    let keep = within_depth(smaller);
    if depth > larger {
        assert(leveled_elements(node, depth, larger).filter(keep) =~= Seq::<(int, ElementView)>::empty());
    } else {
        let head = seq![(depth, element_view_of(node.properties))];
        let rest = leveled_in_forest(node.children@, depth + 1, larger);
        lemma_forest_smaller_limit_restricts(node.children@, depth + 1, smaller, larger);
        Seq::filter_distributes_over_add(head, rest, keep);
        assert(head.drop_last() =~= Seq::<(int, ElementView)>::empty());
        assert(Seq::<(int, ElementView)>::empty().filter(keep) =~= Seq::<(int, ElementView)>::empty());
        if depth > smaller {
            lemma_forest_leveled_below_limit(node.children@, depth + 1, smaller);
            assert(head.filter(keep) =~= Seq::<(int, ElementView)>::empty());
            assert((head + rest).filter(keep) =~= Seq::<(int, ElementView)>::empty());
        } else {
            assert(head.filter(keep) =~= head);
            assert((head + rest).filter(keep) =~= head + leveled_in_forest(node.children@, depth + 1, smaller));
        }
    }
}

/// `lemma_smaller_limit_restricts` for a sequence of sibling trees.
pub proof fn lemma_forest_smaller_limit_restricts(trees: Seq<UiNode>, depth: int, smaller: int, larger: int)
    requires
        smaller <= larger,
    ensures
        leveled_in_forest(trees, depth, smaller) == leveled_in_forest(trees, depth, larger).filter(
            within_depth(smaller),
        ),
    decreases trees, 1nat,
{
    reveal(Seq::filter);
    let keep = within_depth(smaller);
    if trees.len() > 0 {
        lemma_forest_smaller_limit_restricts(trees.drop_last(), depth, smaller, larger);
        lemma_smaller_limit_restricts(trees.last(), depth, smaller, larger);
        Seq::filter_distributes_over_add(
            leveled_in_forest(trees.drop_last(), depth, larger),
            leveled_elements(trees.last(), depth, larger),
            keep,
        );
    } else {
        assert(leveled_in_forest(trees, depth, larger).filter(keep) =~= Seq::<(int, ElementView)>::empty());
    }
}

/// What the depth limit of the window walk does: for two limits, the list
/// under the smaller one is the list under the larger one restricted to the
/// elements within the smaller limit, in the same order.
pub proof fn lemma_depth_limits_agree(root: UiNode, smaller: u32, larger: u32)
    requires
        smaller <= larger,
    ensures
        visible_elements(root, 0, smaller as int) == leveled_elements(root, 0, larger as int).filter(
            within_depth(smaller as int),
        ).map_values(|e: (int, ElementView)| record_of(e)),
        visible_elements(root, 0, larger as int) == leveled_elements(root, 0, larger as int).map_values(
            |e: (int, ElementView)| record_of(e),
        ),
{
    lemma_visible_is_leveled(root, 0, smaller as int);
    lemma_visible_is_leveled(root, 0, larger as int);
    lemma_smaller_limit_restricts(root, 0, smaller as int, larger as int);
}

/// Taking sibling trees from the first to the last is the same as taking
/// all but the last, then the last.
proof fn lemma_children_in_order(trees: Seq<UiNode>, depth: int)
    requires
        trees.len() > 0,
    ensures
        pre_order_of_children(trees, depth) == pre_order_of_children(trees.drop_last(), depth)
            + pre_order(trees.last(), depth),
    decreases trees.len(),
{
    let rest = trees.subrange(1, trees.len() as int);
    if trees.len() == 1 {
        assert(rest =~= Seq::<UiNode>::empty());
        assert(pre_order_of_children(rest, depth) =~= Seq::<(int, ElementView)>::empty());
        assert(trees.drop_last() =~= Seq::<UiNode>::empty());
        assert(pre_order_of_children(trees.drop_last(), depth) =~= Seq::<(int, ElementView)>::empty());
        assert(pre_order_of_children(trees, depth) =~= pre_order(trees[0], depth));
        assert(pre_order_of_children(trees.drop_last(), depth) + pre_order(trees.last(), depth)
            =~= pre_order(trees.last(), depth));
    } else {
        lemma_children_in_order(rest, depth);
        let front = trees.drop_last();
        assert(rest.drop_last() =~= front.subrange(1, front.len() as int));
        assert(rest.last() == trees.last());
        assert(front[0] == trees[0]);
        assert(pre_order_of_children(trees, depth) =~= pre_order(trees[0], depth) + (
        pre_order_of_children(rest.drop_last(), depth) + pre_order(rest.last(), depth)));
        assert(pre_order_of_children(front, depth) =~= pre_order(trees[0], depth)
            + pre_order_of_children(front.subrange(1, front.len() as int), depth));
        assert(pre_order_of_children(trees, depth) =~= pre_order_of_children(front, depth)
            + pre_order(trees.last(), depth));
    }
}

/// The depth-limited walk of a tree is its pre-order with the entries
/// deeper than the limit left out.
proof fn lemma_leveled_is_filtered_pre_order(node: UiNode, depth: int, max_depth: int)
    ensures
        leveled_elements(node, depth, max_depth) == pre_order(node, depth).filter(
            within_depth(max_depth),
        ),
    decreases node, 0nat,
{
    reveal(Seq::filter);
    let keep = within_depth(max_depth);
    let head = seq![(depth, element_view_of(node.properties))];
    let rest = pre_order_of_children(node.children@, depth + 1);
    lemma_forest_leveled_is_filtered_pre_order(node.children@, depth + 1, max_depth);
    Seq::filter_distributes_over_add(head, rest, keep);
    assert(head.drop_last() =~= Seq::<(int, ElementView)>::empty());
    assert(Seq::<(int, ElementView)>::empty().filter(keep) =~= Seq::<(int, ElementView)>::empty());
    if depth > max_depth {
        lemma_forest_leveled_below_limit(node.children@, depth + 1, max_depth);
        assert(head.filter(keep) =~= Seq::<(int, ElementView)>::empty());
        assert(pre_order(node, depth).filter(keep) =~= Seq::<(int, ElementView)>::empty());
    } else {
        assert(head.filter(keep) =~= head);
    }
}

/// `lemma_leveled_is_filtered_pre_order` for sibling trees.
proof fn lemma_forest_leveled_is_filtered_pre_order(trees: Seq<UiNode>, depth: int, max_depth: int)
    ensures
        leveled_in_forest(trees, depth, max_depth) == pre_order_of_children(trees, depth).filter(
            within_depth(max_depth),
        ),
    decreases trees, 1nat,
{
    reveal(Seq::filter);
    let keep = within_depth(max_depth);
    if trees.len() > 0 {
        lemma_children_in_order(trees, depth);
        lemma_forest_leveled_is_filtered_pre_order(trees.drop_last(), depth, max_depth);
        lemma_leveled_is_filtered_pre_order(trees.last(), depth, max_depth);
        Seq::filter_distributes_over_add(
            pre_order_of_children(trees.drop_last(), depth),
            pre_order(trees.last(), depth),
            keep,
        );
    } else {
        assert(pre_order_of_children(trees, depth).filter(keep) =~= Seq::<(int, ElementView)>::empty());
    }
}

/// The walk lists the records of the tree's elements in pre-order (an
/// element, then the tree under its first child, then the tree under its
/// second child, and so on, siblings in the order the service lists them),
/// leaving out exactly the elements deeper than the limit.
pub proof fn lemma_walk_lists_pre_order(node: UiNode, depth: int, max_depth: int)
    ensures
        visible_elements(node, depth, max_depth) == pre_order(node, depth).filter(
            within_depth(max_depth),
        ).map_values(|e: (int, ElementView)| record_of(e)),
{
    lemma_visible_is_leveled(node, depth, max_depth);
    lemma_leveled_is_filtered_pre_order(node, depth, max_depth);
}

/// The record of an element carries what the service reported: its name
/// and identifier (empty when not reported), its enabled flag (not enabled
/// when not reported), the label of its control type (a button's when not
/// reported), and its rectangle as origin and size (all zero when not
/// reported).
pub proof fn lemma_record_carries_properties(p: ElementProperties)
    ensures
        p.name matches Some(n) ==> element_view_of(p).name == n@,
        p.name is None ==> element_view_of(p).name.len() == 0,
        p.automation_id matches Some(n) ==> element_view_of(p).id == n@,
        p.automation_id is None ==> element_view_of(p).id.len() == 0,
        element_view_of(p).is_enabled <==> p.is_enabled == Some(true),
        p.control_type_id matches Some(id) ==> element_view_of(p).control_type == control_type_label(id),
        p.control_type_id is None ==> element_view_of(p).control_type == "Button"@,
        element_view_of(p).bounding_box.len() == 4,
        p.bounding_rectangle matches Some(r) ==> (rect_measurable(r) ==> {
            let b = element_view_of(p).bounding_box;
            &&& b[0] == r.left
            &&& b[1] == r.top
            &&& b[2] == r.right - r.left
            &&& b[3] == r.bottom - r.top
        }),
        p.bounding_rectangle is None ==> element_view_of(p).bounding_box == seq![0i32, 0i32, 0i32, 0i32],
{
    assert(element_view_of(p).bounding_box.len() == 4);
    if p.bounding_rectangle is None {
        assert(element_view_of(p).bounding_box =~= seq![0i32, 0i32, 0i32, 0i32]);
    }
}

/// One of the twelve control types the labels name.
pub open spec fn known_control_type(id: i32) -> bool {
    ||| id == 50000
    ||| id == 50002
    ||| id == 50003
    ||| id == 50004
    ||| id == 50005
    ||| id == 50008
    ||| id == 50009
    ||| id == 50010
    ||| id == 50011
    ||| id == 50020
    ||| id == 50030
    ||| id == 50032
}

/// Each label belongs to exactly one control type identifier, and every
/// identifier outside the twelve known ones is labelled "Other".
pub proof fn lemma_control_type_labels(id: i32)
    ensures
        !known_control_type(id) ==> control_type_label(id) == "Other"@,
        control_type_label(id) == "Button"@ <==> id == 50000,
        control_type_label(id) == "CheckBox"@ <==> id == 50002,
        control_type_label(id) == "ComboBox"@ <==> id == 50003,
        control_type_label(id) == "Edit"@ <==> id == 50004,
        control_type_label(id) == "Hyperlink"@ <==> id == 50005,
        control_type_label(id) == "List"@ <==> id == 50008,
        control_type_label(id) == "Menu"@ <==> id == 50009,
        control_type_label(id) == "MenuBar"@ <==> id == 50010,
        control_type_label(id) == "MenuItem"@ <==> id == 50011,
        control_type_label(id) == "Text"@ <==> id == 50020,
        control_type_label(id) == "Document"@ <==> id == 50030,
        control_type_label(id) == "Window"@ <==> id == 50032,
{
    reveal_strlit("Button");
    reveal_strlit("CheckBox");
    reveal_strlit("ComboBox");
    reveal_strlit("Edit");
    reveal_strlit("Hyperlink");
    reveal_strlit("List");
    reveal_strlit("Menu");
    reveal_strlit("MenuBar");
    reveal_strlit("MenuItem");
    reveal_strlit("Text");
    reveal_strlit("Document");
    reveal_strlit("Window");
    reveal_strlit("Other");
    assert("Button"@.len() == 6 && "Button"@[0] == 'B' && "Button"@[1] == 'u');
    assert("CheckBox"@.len() == 8 && "CheckBox"@[0] == 'C' && "CheckBox"@[1] == 'h');
    assert("ComboBox"@.len() == 8 && "ComboBox"@[0] == 'C' && "ComboBox"@[1] == 'o');
    assert("Edit"@.len() == 4 && "Edit"@[0] == 'E' && "Edit"@[1] == 'd');
    assert("Hyperlink"@.len() == 9 && "Hyperlink"@[0] == 'H' && "Hyperlink"@[1] == 'y');
    assert("List"@.len() == 4 && "List"@[0] == 'L' && "List"@[1] == 'i');
    assert("Menu"@.len() == 4 && "Menu"@[0] == 'M' && "Menu"@[1] == 'e');
    assert("MenuBar"@.len() == 7 && "MenuBar"@[0] == 'M' && "MenuBar"@[1] == 'e');
    assert("MenuItem"@.len() == 8 && "MenuItem"@[0] == 'M' && "MenuItem"@[1] == 'e');
    assert("Text"@.len() == 4 && "Text"@[0] == 'T' && "Text"@[1] == 'e');
    assert("Document"@.len() == 8 && "Document"@[0] == 'D' && "Document"@[1] == 'o');
    assert("Window"@.len() == 6 && "Window"@[0] == 'W' && "Window"@[1] == 'i');
    assert("Other"@.len() == 5 && "Other"@[0] == 'O' && "Other"@[1] == 't');
}

} // verus!
