//! The scrollbar policy: when a scrollable surface shows its bar, and where
//! the bar sits.

use vstd::prelude::*;

verus! {

/// When a scrollable surface shows its scrollbar.
///
/// A reader who cannot tell a surface scrolls will not try to scroll it, so
/// the policy names the three answers and an application chooses once for
/// the whole library instead of per component.
#[derive(Debug, Clone, Copy, PartialEq, Eq, Hash, Structural)]
pub enum ScrollbarVisibility {
    /// Visible while scrolling, fading out once the surface settles.
    Scrolling,
    /// Visible while the pointer is over the surface.
    Hover,
    /// Always visible, so a surface that scrolls always says so.
    Always,
}

impl Default for ScrollbarVisibility {
    fn default() -> (r: Self)
        ensures
            r == ScrollbarVisibility::Always,
    {
        ScrollbarVisibility::Always
    }
}

/// Where a scrollbar sits relative to the content it scrolls.
#[derive(Debug, Clone, Copy, PartialEq, Eq, Hash, Structural)]
pub enum ScrollbarPlacement {
    /// Floats over the content's trailing edge, taking no layout space.
    Overlay,
    /// Reserves a gutter, so the bar never covers what it scrolls.
    Gutter,
}

impl Default for ScrollbarPlacement {
    fn default() -> (r: Self)
        ensures
            r == ScrollbarPlacement::Overlay,
    {
        ScrollbarPlacement::Overlay
    }
}

/// The scrollbar policy, replaceable before any window renders.
///
/// Defaults, then the application's policy, then a component's own builder:
/// the same order every other policy in the library follows.
#[derive(Debug, Clone, Copy, PartialEq, Eq, Structural)]
pub struct ScrollbarTokens {
    visibility: ScrollbarVisibility,
    placement: ScrollbarPlacement,
}

impl View for ScrollbarTokens {
    /// The visibility and the placement.
    type V = (ScrollbarVisibility, ScrollbarPlacement);

    closed spec fn view(&self) -> (ScrollbarVisibility, ScrollbarPlacement) {
        (self.visibility, self.placement)
    }
}

impl Default for ScrollbarTokens {
    /// The default scrollbar policy: always visible, overlaid.
    ///
    /// Always, because a surface that scrolls should look like one before
    /// the reader touches it; overlaid, because reserving a gutter narrows
    /// content that usually does not need it.
    fn default() -> (r: Self)
        ensures
            r@ == (ScrollbarVisibility::Always, ScrollbarPlacement::Overlay),
    {
        ScrollbarTokens {
            visibility: ScrollbarVisibility::Always,
            placement: ScrollbarPlacement::Overlay,
        }
    }
}

impl ScrollbarTokens {
    /// When scrollbars show.
    pub fn visibility(&self) -> (r: ScrollbarVisibility)
        ensures
            r == self@.0,
    {
        self.visibility
    }

    /// Whether scrollbars overlay content or reserve a gutter.
    pub fn placement(&self) -> (r: ScrollbarPlacement)
        ensures
            r == self@.1,
    {
        self.placement
    }

    /// Replaces the [`visibility`](Self::visibility); the placement stays.
    pub fn with_visibility(self, visibility: ScrollbarVisibility) -> (r: Self)
        ensures
            r@.0 == visibility,
            r@.1 == self@.1,
    {
        ScrollbarTokens { visibility, ..self }
    }

    /// Replaces the [`placement`](Self::placement); the visibility stays.
    pub fn with_placement(self, placement: ScrollbarPlacement) -> (r: Self)
        ensures
            r@.1 == placement,
            r@.0 == self@.0,
    {
        ScrollbarTokens { placement, ..self }
    }
}

} // verus!
