//! Panels: the corner regions of the screen that can be folded away.

use vstd::prelude::*;

verus! {

/// The corner of a panel in which its toggle sits.
#[derive(Debug, Clone, Copy, PartialEq, Eq, Structural)]
pub enum TogglePosition {
    TopRight,
    TopLeft,
    BottomRight,
    BottomLeft,
}

/// The style class that puts the toggle into its corner.
pub open spec fn class_spec(position: TogglePosition) -> Seq<char> {
    match position {
        TogglePosition::TopRight => "toggle-top-right"@,
        TogglePosition::TopLeft => "toggle-top-left"@,
        TogglePosition::BottomRight => "toggle-bottom-right"@,
        TogglePosition::BottomLeft => "toggle-bottom-left"@,
    }
}

impl Default for TogglePosition {
    /// The toggle sits in the top right corner unless it is put elsewhere.
    fn default() -> (position: TogglePosition)
        ensures
            position == TogglePosition::TopRight,
    {
        TogglePosition::TopRight
    }
}

impl TogglePosition {
    /// The style class that puts the toggle into its corner.
    pub fn to_class(&self) -> (class: &'static str)
        ensures
            class@ == class_spec(*self),
    {
        match self {
            TogglePosition::TopRight => "toggle-top-right",
            TogglePosition::TopLeft => "toggle-top-left",
            TogglePosition::BottomRight => "toggle-bottom-right",
            TogglePosition::BottomLeft => "toggle-bottom-left",
        }
    }
}

/// The style class that tells whether a panel is folded away.
pub fn fold_class(is_collapsed: bool) -> (class: &'static str)
    ensures
        class@ == if is_collapsed {
            "collapsed"@
        } else {
            "expanded"@
        },
{
    if is_collapsed {
        "collapsed"
    } else {
        "expanded"
    }
}

/// The icon of the toggle: the one that offers to open a folded panel, or
/// the one that offers to fold an open one.
pub fn toggle_icon(is_collapsed: bool) -> (icon: &'static str)
    ensures
        icon@ == if is_collapsed {
            "menu"@
        } else {
            "menu_open"@
        },
{
    if is_collapsed {
        "menu"
    } else {
        "menu_open"
    }
}

} // verus!
