//! Top-level windows.
use vstd::prelude::*;
use crate::widget::TkWidget;

verus! {

/// Refers to a top-level window; the root window has the id `.`.
pub struct TkTopLevel {
    pub id: String,
}

impl TkWidget for TkTopLevel {
    open spec fn widget_id(&self) -> Seq<char> {
        self.id@
    }

    fn id(&self) -> (r: &str) {
        self.id.as_str()
    }
}

} // verus!
