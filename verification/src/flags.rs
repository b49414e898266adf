//! Small boolean decisions of the island window and the settings window.
use vstd::prelude::*;

verus! {

/// The island shows the widget view exactly when no music page is available.
pub fn should_show_widget_view(music_page_available: bool) -> (show: bool)
    ensures
        show == !music_page_available,
{
    !music_page_available
}

/// A drag move over the widget preview needs a redraw while a drag is running
/// or when the hovered slot changes.
pub fn widget_drag_move_needs_redraw(
    dragging: bool,
    current_slot: Option<usize>,
    new_slot: Option<usize>,
) -> (redraw: bool)
    ensures
        redraw == (dragging || current_slot != new_slot),
{
    dragging || !same_slot(current_slot, new_slot)
}

fn same_slot(a: Option<usize>, b: Option<usize>) -> (same: bool)
    ensures
        same == (a == b),
{
    match (a, b) {
        (None, None) => true,
        (Some(x), Some(y)) => x == y,
        _ => false,
    }
}

/// The settings window keeps scheduling frames while anything is in motion.
pub fn settings_frame_should_continue(
    has_anim: bool,
    has_popup: bool,
    is_scrolling: bool,
    is_widget_dragging: bool,
    is_number_input_active: bool,
) -> (keep_going: bool)
    ensures
        keep_going == (has_anim || has_popup || is_scrolling || is_widget_dragging
            || is_number_input_active),
{
    has_anim || has_popup || is_scrolling || is_widget_dragging || is_number_input_active
}


/// The screen edge the island hides behind.
#[derive(Clone, Copy, PartialEq, Eq, Structural, Debug)]
pub enum HideEdge {
    Top,
    Bottom,
    Left,
    Right,
}

/// Why the island is hidden, and where it was dragged from.
#[derive(Clone, Copy, Debug)]
pub struct HideState {
    pub auto: bool,
    pub manual: bool,
    pub fullscreen: bool,
    pub fullscreen_reveal_override: bool,
    pub origin: Option<(i32, i32)>,
    pub edge: HideEdge,
}

impl HideState {
    /// Some reason hides the island.
    pub open spec fn hidden(self) -> bool {
        self.auto || self.fullscreen || self.manual
    }

    /// Nothing hides the island; it sits at the top edge.
    pub fn default() -> (state: HideState)
        ensures
            !state.auto && !state.manual && !state.fullscreen && !state.fullscreen_reveal_override,
            state.origin is None,
            state.edge == HideEdge::Top,
    {
        HideState {
            auto: false,
            manual: false,
            fullscreen: false,
            fullscreen_reveal_override: false,
            origin: None,
            edge: HideEdge::Top,
        }
    }

    /// The island is hidden when auto-hide, a full-screen application or the
    /// user hid it.
    pub fn is_hidden(&self) -> (hidden: bool)
        ensures
            hidden == self.hidden(),
    {
        self.auto || self.fullscreen || self.manual
    }

    /// The island's width shrinks while it is hidden or dragged out of a
    /// hiding place.
    pub fn is_width_hiding(&self, is_dragging: bool) -> (hiding: bool)
        ensures
            hiding == (self.auto || self.fullscreen || self.manual || (is_dragging
                && self.origin is Some)),
    {
        self.is_hidden() || (is_dragging && self.origin.is_some())
    }

    /// Brings the island back: every hiding reason is cleared, and while a
    /// full-screen application suppresses it the reveal overrides that.
    pub fn reveal_island(&mut self, fullscreen_suppressed: bool)
        ensures
            !final(self).auto && !final(self).manual && !final(self).fullscreen,
            final(self).fullscreen_reveal_override == (old(self).fullscreen_reveal_override
                || fullscreen_suppressed),
            final(self).origin == old(self).origin,
            final(self).edge == old(self).edge,
    {
        self.auto = false;
        self.fullscreen = false;
        self.manual = false;
        if fullscreen_suppressed {
            self.fullscreen_reveal_override = true;
        }
    }

    /// Each frame, a hidden island that has no place to hide in any more is
    /// brought back; answers whether it was.
    pub fn reveal_if_unhideable(&mut self, can_hide: bool, fullscreen_suppressed: bool) -> (revealed: bool)
        ensures
            revealed == (old(self).hidden() && !can_hide),
            revealed ==> !final(self).hidden() && final(self).fullscreen_reveal_override == (old(
                self,
            ).fullscreen_reveal_override || fullscreen_suppressed) && final(self).origin == old(
                self,
            ).origin && final(self).edge == old(self).edge,
            !revealed ==> *final(self) == *old(self),
    {
        if self.is_hidden() && !can_hide {
            self.reveal_island(fullscreen_suppressed);
            true
        } else {
            false
        }
    }
}

/// A scheduled return of the window to its configured position, at
/// `restore_after` on the frame clock, is due once the clock reaches it; the
/// schedule is then cleared. Answers whether the window is to move back now.
pub fn take_position_restore(restore_after: &mut Option<u64>, now: u64) -> (due: bool)
    ensures
        due == match *old(restore_after) {
            Some(at) => now >= at,
            None => false,
        },
        *final(restore_after) == if due { None } else { *old(restore_after) },
{
    match *restore_after {
        Some(at) => {
            if now >= at {
                *restore_after = None;
                true
            } else {
                false
            }
        },
        None => false,
    }
}

/// Whether the desktop compositor changed since the renderer last looked.
pub struct CompositionSignal {
    changed: bool,
}

impl View for CompositionSignal {
    type V = bool;

    closed spec fn view(&self) -> bool {
        self.changed
    }
}

impl CompositionSignal {
    /// No change recorded.
    pub fn new() -> (signal: CompositionSignal)
        ensures
            !signal@,
    {
        CompositionSignal { changed: false }
    }
}

/// Records that the desktop compositor changed.
pub fn signal_dwm_composition_changed(signal: &mut CompositionSignal)
    ensures
        final(signal)@,
{
    signal.changed = true;
}

/// Answers whether the compositor changed since the last call, and clears the
/// record.
pub fn take_dwm_composition_changed(signal: &mut CompositionSignal) -> (changed: bool)
    ensures
        changed == old(signal)@,
        !final(signal)@,
{
    let changed = signal.changed;
    signal.changed = false;
    changed
}

} // verus!
