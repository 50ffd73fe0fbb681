//! State of the publish dialog: the reliability checkbox and the color
//! button the user pressed last, pending until the demo consumes it.

use vstd::prelude::*;

verus! {

pub struct PublishWidget {
    pub is_reliable: bool,
    pub closed: bool,
    pub selected_color: Option<String>,
}

impl PublishWidget {
    pub fn new() -> (r: PublishWidget)
        ensures
            r.is_reliable == false,
            r.closed == true,
            r.selected_color is None,
    {
        PublishWidget { is_reliable: false, closed: true, selected_color: None }
    }

    /// Hands out the pending color choice, if any, leaving none pending.
    pub fn selected_color(&mut self) -> (r: Option<String>)
        ensures
            r == old(self).selected_color,
            final(self).selected_color is None,
            final(self).is_reliable == old(self).is_reliable,
            final(self).closed == old(self).closed,
    {
        self.selected_color.take()
    }
}

} // verus!
