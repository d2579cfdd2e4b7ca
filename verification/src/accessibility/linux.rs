//! The element tree as the Linux accessibility bus would give it; that bus
//! is not read yet.
use vstd::prelude::*;

use crate::accessibility::UIElement;

verus! {

/// The elements of the active window down to `max_depth`.  The
/// accessibility bus is not read yet, so the list is always empty.
pub fn get_active_window_tree(max_depth: u32) -> (elements: Vec<UIElement>)
    ensures
        elements@.len() == 0,
{
    Vec::new()
}

} // verus!
