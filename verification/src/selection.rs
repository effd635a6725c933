//! User selection state: the image the user last clicked and the monitor the
//! apply protocol targets.

use vstd::prelude::*;

verus! {

/// At most one currently selected image path. Set on click; replaced only by
/// a new selection, never cleared automatically.
pub struct Selection {
    pub selected: Option<String>,
}

impl Selection {
    /// A fresh state with nothing selected.
    pub fn new() -> (s: Selection)
        ensures
            s.selected is None,
    {
        Selection { selected: None }
    }

    /// Records a click on an image: it becomes the selection, replacing any
    /// earlier one.
    pub fn select(&mut self, path: String)
        ensures
            final(self).selected == Some(path),
    {
        self.selected = Some(path);
    }

    /// Whether the given image is the selected one (used to draw the
    /// selection outline).
    pub fn is_selected(&self, path: &String) -> (r: bool)
        ensures
            r <==> (self.selected matches Some(p) && p@ == path@),
    {
        match &self.selected {
            None => false,
            Some(p) => *p == *path,
        }
    }
}

/// The monitor an apply initially targets: the first enumerated monitor, or
/// none when enumeration yielded an empty list.
pub fn choose_initial_monitor(monitors: &Vec<String>) -> (r: Option<String>)
    ensures
        monitors@.len() == 0 ==> r is None,
        monitors@.len() > 0 ==> (r matches Some(m) && m == monitors@[0]),
{
    if monitors.len() == 0 {
        None
    } else {
        Some(monitors[0].clone())
    }
}

} // verus!
