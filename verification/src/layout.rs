//! Pane identifiers and visibility rules of the three-pane shell.
use vstd::prelude::*;

verus! {

/// A draggable divider between the center pane and one of the side panes.
#[derive(Clone, Copy, Debug, Eq, PartialEq, Structural)]
pub enum SplitPane {
    Left,
    Right,
    PeerList,
    WinrateGraph,
    Properties,
}

impl SplitPane {
    pub open spec fn spec_debug_selector(self) -> &'static str {
        match self {
            SplitPane::Left => "left-splitter",
            SplitPane::Right => "right-splitter",
            SplitPane::PeerList => "peer-list-splitter",
            SplitPane::WinrateGraph => "winrate-graph-splitter",
            SplitPane::Properties => "properties-splitter",
        }
    }

    /// The element id used by layout tests to find the divider.
    pub fn debug_selector(self) -> (s: &'static str)
        ensures
            s == self.spec_debug_selector(),
    {
        match self {
            SplitPane::Left => "left-splitter",
            SplitPane::Right => "right-splitter",
            SplitPane::PeerList => "peer-list-splitter",
            SplitPane::WinrateGraph => "winrate-graph-splitter",
            SplitPane::Properties => "properties-splitter",
        }
    }

    /// Whether dragging this divider to the right grows its pane (the left
    /// pane and the panes stacked under it) rather than shrinking it.
    pub open spec fn grows_rightward(self) -> bool {
        match self {
            SplitPane::Left | SplitPane::PeerList | SplitPane::WinrateGraph => true,
            SplitPane::Right | SplitPane::Properties => false,
        }
    }

    /// Direction in which a rightward drag changes this pane's size: `1` to
    /// grow, `-1` to shrink.
    pub fn drag_direction(self) -> (d: i8)
        ensures
            d == (if self.grows_rightward() {
                1i8
            } else {
                -1i8
            }),
    {
        match self {
            SplitPane::Left | SplitPane::PeerList | SplitPane::WinrateGraph => 1,
            SplitPane::Right | SplitPane::Properties => -1,
        }
    }
}

/// The right pane hosts the AI preview and the comments/node inspector; it is
/// shown when either of them is.
pub fn right_pane_visible(show_comments: bool, show_analysis_preview: bool) -> (visible: bool)
    ensures
        visible == (show_comments || show_analysis_preview),
{
    show_comments || show_analysis_preview
}

} // verus!
