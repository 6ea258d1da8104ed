//! What the state asks of the toolkit's scroll region: which inputs may scroll it,
//! whether its bars show, and which cursors it uses.
use vstd::prelude::*;
use eframe::egui::scroll_area::{ScrollBarVisibility, ScrollSource};
use eframe::egui::CursorIcon;
use crate::state::{step, Input, ScrollAreaApp};

verus! {

#[verifier::external_type_specification]
pub struct ExScrollSource(ScrollSource);

#[verifier::external_type_specification]
pub struct ExScrollBarVisibility(ScrollBarVisibility);

#[verifier::external_type_specification]
pub struct ExCursorIcon(CursorIcon);

/// Relies on egui's `impl Default for ScrollBarVisibility`, which returns
/// `VisibleWhenNeeded`.
pub assume_specification[ <ScrollBarVisibility as core::default::Default>::default ]() -> (r:
    ScrollBarVisibility)
    ensures
        r == ScrollBarVisibility::VisibleWhenNeeded,
;

/// Cursor shown while the pointer hovers over the scroll region.
pub const HOVER_CURSOR: CursorIcon = CursorIcon::Grab;

/// Cursor shown while the contents are being dragged.
pub const DRAG_CURSOR: CursorIcon = CursorIcon::Grabbing;

/// Scroll-bar visibility in a state: hidden while the "Bar" source is off, shown
/// when needed otherwise.
pub open spec fn bar_visibility(s: ScrollAreaApp) -> ScrollBarVisibility {
    if s.bar_enabled {
        ScrollBarVisibility::VisibleWhenNeeded
    } else {
        ScrollBarVisibility::AlwaysHidden
    }
}

/// Switching the "Bar" source off hides the scroll bars; switching it back on restores
/// the default visibility; no other input changes the visibility.
pub proof fn lemma_bar_toggle_visibility(s: ScrollAreaApp, e: Input)
    ensures
        s.bar_enabled ==> bar_visibility(step(s, Input::ToggleBar))
            == ScrollBarVisibility::AlwaysHidden,
        !s.bar_enabled ==> bar_visibility(step(s, Input::ToggleBar))
            == ScrollBarVisibility::VisibleWhenNeeded,
        e != Input::ToggleBar ==> bar_visibility(step(s, e)) == bar_visibility(s),
{
}

impl ScrollAreaApp {
    /// The set of inputs allowed to scroll the canvas: exactly the enabled ones.
    pub fn scroll_source(&self) -> (r: ScrollSource)
        ensures
            r.drag == self.drag_enabled,
            r.mouse_wheel == self.wheel_enabled,
            r.scroll_bar == self.bar_enabled,
    {
        let mut source = ScrollSource { scroll_bar: false, drag: false, mouse_wheel: false };
        if self.drag_enabled {
            source.drag = true;
        }
        if self.wheel_enabled {
            source.mouse_wheel = true;
        }
        if self.bar_enabled {
            source.scroll_bar = true;
        }
        source
    }

    /// Scroll bars are always hidden while the "Bar" source is off, and follow the
    /// toolkit's default (shown when needed) while it is on. The scroll position
    /// plays no part.
    pub fn scroll_bar_visibility(&self) -> (r: ScrollBarVisibility)
        ensures
            r == bar_visibility(*self),
            !self.bar_enabled ==> r == ScrollBarVisibility::AlwaysHidden,
            self.bar_enabled ==> r == ScrollBarVisibility::VisibleWhenNeeded,
    {
        if self.bar_enabled {
            ScrollBarVisibility::default()
        } else {
            ScrollBarVisibility::AlwaysHidden
        }
    }

    /// The cursor that hovering over the canvas asks for, if any: the crosshair
    /// once the canvas has been clicked an odd number of times.
    pub fn canvas_hover_cursor(&self) -> (r: Option<CursorIcon>)
        ensures
            self.clicked_within ==> r == Some(CursorIcon::Crosshair),
            !self.clicked_within ==> r.is_none(),
    {
        if self.clicked_within {
            Some(CursorIcon::Crosshair)
        } else {
            None
        }
    }
}

} // verus!
