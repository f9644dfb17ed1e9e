//! The header bar above the plot.  It contributes a fixed number of rows
//! to the layout when enabled; its content is drawn by the presentation
//! layer, not by the frame assembler.

use vstd::prelude::*;

verus! {

/// Rows the info bar takes from the canvas when it is enabled.
pub const INFO_BAR_HEIGHT: i64 = 3;

pub struct InfoBar {
    pub name: String,
    pub enabled: bool,
}

impl InfoBar {
    pub fn new(name: String) -> (b: InfoBar)
        ensures
            b.name == name,
            b.enabled,
    {
        InfoBar { name, enabled: true }
    }
}

} // verus!
