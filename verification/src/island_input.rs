//! The island's pointer state machine: what a left press or release does,
//! when a drag counts as moved, and the right-button drag that shifts the
//! island's configured position. The window measures geometry and hands in
//! what the pointer hit; these functions decide and update the state.
use vstd::prelude::*;
use crate::flags::HideState;

verus! {

/// Where the expanded island's page slider rests: on the music page, on the
/// widget page, or exactly between them.
#[derive(Clone, Copy, PartialEq, Eq, Structural, Debug)]
pub enum ViewSide {
    Music,
    Middle,
    Widgets,
}

/// What a left press hit, as measured by the window.
#[derive(Clone, Copy, Debug)]
pub struct PressHits {
    /// The pointer is over the visible island shape.
    pub hovering_visible: bool,
    /// The pointer is on the thin strip that brings a hidden island back.
    pub on_hidden_reveal: bool,
    /// The compact overlay shows a notification.
    pub notification_visible: bool,
    /// A track with a title plays from an active media source.
    pub music_on: bool,
    pub on_play: bool,
    pub play_available: bool,
    pub on_previous: bool,
    pub previous_available: bool,
    pub on_next: bool,
    pub next_available: bool,
    /// The pointer is on the progress bar, which exists only while music is on.
    pub on_progress_bar: bool,
    pub seek_available: bool,
    pub on_settings_widget: bool,
    /// The arrow on the widget page that leads back to the music page.
    pub on_back_arrow: bool,
    /// The arrow on the music page that leads to the widget page.
    pub on_forward_arrow: bool,
    /// The pointer is within the top strip of the expanded island.
    pub in_top_strip: bool,
}

/// The left-button drag in progress on the island.
#[derive(Clone, Copy, Debug)]
pub struct PointerState {
    pub is_dragging: bool,
    pub dismissing_notification: bool,
    pub drag_start_px: i32,
    pub drag_start_py: i32,
    pub drag_has_moved: bool,
}

impl PointerState {
    /// No drag in progress.
    pub fn new() -> (pointer: PointerState)
        ensures
            !pointer.is_dragging,
            !pointer.dismissing_notification,
            !pointer.drag_has_moved,
            pointer.drag_start_px == 0,
            pointer.drag_start_py == 0,
    {
        PointerState {
            is_dragging: false,
            dismissing_notification: false,
            drag_start_px: 0,
            drag_start_py: 0,
            drag_has_moved: false,
        }
    }
}

/// Whether the island is expanded, and which page it shows when it is.
#[derive(Clone, Copy, Debug)]
pub struct IslandView {
    pub expanded: bool,
    pub widget_view: bool,
}

/// What a left press did.
#[derive(Clone, Copy, PartialEq, Eq, Structural, Debug)]
pub enum PressOutcome {
    /// The notification was grabbed; a swipe up dismisses it.
    NotificationGrabbed,
    /// The hidden island was brought back.
    Revealed,
    /// A drag of the compact island began.
    DragStarted,
    TogglePlay,
    Previous,
    Next,
    /// Seeking began on the progress bar.
    SeekStarted,
    OpenSettings,
    ShowMusic,
    ShowWidgets,
    /// The expanded island collapsed.
    Collapsed,
    Ignored,
}

/// What a left release did.
#[derive(Clone, Copy, PartialEq, Eq, Structural, Debug)]
pub enum ReleaseOutcome {
    /// A seek drag ended; nothing else happens.
    SeekFinished,
    /// The notification was swiped away.
    NotificationDismissed,
    /// The notification was tapped: it is activated, or the island expands
    /// when it cannot be.
    NotificationTapped,
    /// A tap brought the hidden island back.
    Revealed,
    /// A tap on the visible island expands it.
    Expand,
    /// The island was dragged far enough to stay hidden.
    HiddenByDrag,
    /// The island was dragged but not far enough: it shows again.
    ShownByDrag,
    Ignored,
}

/// The decision of a left press, in the order the island tries its targets.
pub open spec fn press_outcome(
    view: IslandView,
    hidden: bool,
    music_page_available: bool,
    side: ViewSide,
    hits: PressHits,
) -> PressOutcome {
    let music_side = side == ViewSide::Music;
    let widget_side = side == ViewSide::Widgets;
    if !view.expanded && hits.notification_visible && hits.hovering_visible {
        PressOutcome::NotificationGrabbed
    } else if view.expanded {
        if music_side && hits.music_on && hits.play_available && hits.on_play {
            PressOutcome::TogglePlay
        } else if music_side && hits.music_on && hits.previous_available && hits.on_previous {
            PressOutcome::Previous
        } else if music_side && hits.music_on && hits.next_available && hits.on_next {
            PressOutcome::Next
        } else if music_side && hits.on_progress_bar && hits.seek_available {
            PressOutcome::SeekStarted
        } else if widget_side && hits.on_settings_widget {
            PressOutcome::OpenSettings
        } else if widget_side && music_page_available && hits.on_back_arrow {
            PressOutcome::ShowMusic
        } else if music_side && music_page_available && hits.on_forward_arrow {
            PressOutcome::ShowWidgets
        } else if hits.in_top_strip {
            PressOutcome::Collapsed
        } else {
            PressOutcome::Ignored
        }
    } else if hits.hovering_visible || hits.on_hidden_reveal {
        if hidden {
            PressOutcome::Revealed
        } else {
            PressOutcome::DragStarted
        }
    } else {
        PressOutcome::Ignored
    }
}

/// A drag that starts at the pointer, not moved yet.
pub open spec fn drag_from(p: PointerState, dismissing: bool, px: i32, py: i32) -> PointerState {
    PointerState {
        is_dragging: true,
        dismissing_notification: dismissing,
        drag_start_px: px,
        drag_start_py: py,
        drag_has_moved: false,
    }
}

/// The pointer state after a press with the given outcome at `(px, py)`.
pub open spec fn pointer_after_press(p: PointerState, outcome: PressOutcome, px: i32, py: i32) -> PointerState {
    match outcome {
        PressOutcome::NotificationGrabbed => drag_from(p, true, px, py),
        PressOutcome::DragStarted => drag_from(p, p.dismissing_notification, px, py),
        _ => p,
    }
}

/// The island view after a press with the given outcome.
pub open spec fn view_after_press(v: IslandView, outcome: PressOutcome) -> IslandView {
    match outcome {
        PressOutcome::ShowMusic => IslandView { widget_view: false, ..v },
        PressOutcome::ShowWidgets => IslandView { widget_view: true, ..v },
        PressOutcome::Collapsed => IslandView { expanded: false, widget_view: false },
        _ => v,
    }
}

/// The hiding state once every hiding reason is cleared.
pub open spec fn revealed(h: HideState, fullscreen_suppressed: bool) -> HideState {
    HideState {
        auto: false,
        manual: false,
        fullscreen: false,
        fullscreen_reveal_override: h.fullscreen_reveal_override || fullscreen_suppressed,
        ..h
    }
}

/// The hiding state after a press with the given outcome.
pub open spec fn hide_after_press(h: HideState, outcome: PressOutcome, fullscreen_suppressed: bool) -> HideState {
    if outcome == PressOutcome::Revealed {
        revealed(h, fullscreen_suppressed)
    } else {
        h
    }
}

/// Handles a left press at the global position `(px, py)`: decides what was
/// pressed and starts a drag, reveals the island or switches its page.
/// Commands, seeking and opening the settings are left to the caller, as the
/// outcome says.
pub fn handle_press(
    pointer: &mut PointerState,
    view: &mut IslandView,
    hiding: &mut HideState,
    music_page_available: bool,
    side: ViewSide,
    hits: &PressHits,
    fullscreen_suppressed: bool,
    px: i32,
    py: i32,
) -> (outcome: PressOutcome)
    ensures
        outcome == press_outcome(
            *old(view),
            old(hiding).hidden(),
            music_page_available,
            side,
            *hits,
        ),
        *final(pointer) == pointer_after_press(*old(pointer), outcome, px, py),
        *final(view) == view_after_press(*old(view), outcome),
        *final(hiding) == hide_after_press(*old(hiding), outcome, fullscreen_suppressed),
{
    let music_side = side == ViewSide::Music;
    let widget_side = side == ViewSide::Widgets;
    let outcome = if !view.expanded && hits.notification_visible && hits.hovering_visible {
        PressOutcome::NotificationGrabbed
    } else if view.expanded {
        if music_side && hits.music_on && hits.play_available && hits.on_play {
            PressOutcome::TogglePlay
        } else if music_side && hits.music_on && hits.previous_available && hits.on_previous {
            PressOutcome::Previous
        } else if music_side && hits.music_on && hits.next_available && hits.on_next {
            PressOutcome::Next
        } else if music_side && hits.on_progress_bar && hits.seek_available {
            PressOutcome::SeekStarted
        } else if widget_side && hits.on_settings_widget {
            PressOutcome::OpenSettings
        } else if widget_side && music_page_available && hits.on_back_arrow {
            PressOutcome::ShowMusic
        } else if music_side && music_page_available && hits.on_forward_arrow {
            PressOutcome::ShowWidgets
        } else if hits.in_top_strip {
            PressOutcome::Collapsed
        } else {
            PressOutcome::Ignored
        }
    } else if hits.hovering_visible || hits.on_hidden_reveal {
        if hiding.is_hidden() {
            PressOutcome::Revealed
        } else {
            PressOutcome::DragStarted
        }
    } else {
        PressOutcome::Ignored
    };
    match outcome {
        PressOutcome::NotificationGrabbed => {
            pointer.dismissing_notification = true;
            pointer.is_dragging = true;
            pointer.drag_start_px = px;
            pointer.drag_start_py = py;
            pointer.drag_has_moved = false;
        },
        PressOutcome::DragStarted => {
            pointer.is_dragging = true;
            pointer.drag_start_px = px;
            pointer.drag_start_py = py;
            pointer.drag_has_moved = false;
        },
        PressOutcome::Revealed => {
            hiding.reveal_island(fullscreen_suppressed);
        },
        PressOutcome::ShowMusic => {
            view.widget_view = false;
        },
        PressOutcome::ShowWidgets => {
            view.widget_view = true;
        },
        PressOutcome::Collapsed => {
            view.expanded = false;
            view.widget_view = false;
        },
        _ => {},
    }
    outcome
}

/// How far up a grabbed notification must travel before it is dismissed.
pub const NOTIFICATION_SWIPE_DISTANCE: i64 = 20;

/// The decision of a left release at height `py`.
pub open spec fn release_outcome(
    p: PointerState,
    hidden: bool,
    seek_finished: bool,
    py: i32,
    hide_past_threshold: bool,
) -> ReleaseOutcome {
    if seek_finished {
        ReleaseOutcome::SeekFinished
    } else if p.dismissing_notification {
        if p.drag_start_py - py > NOTIFICATION_SWIPE_DISTANCE {
            ReleaseOutcome::NotificationDismissed
        } else {
            ReleaseOutcome::NotificationTapped
        }
    } else if p.is_dragging {
        if !p.drag_has_moved {
            if hidden {
                ReleaseOutcome::Revealed
            } else {
                ReleaseOutcome::Expand
            }
        } else if hide_past_threshold {
            ReleaseOutcome::HiddenByDrag
        } else {
            ReleaseOutcome::ShownByDrag
        }
    } else {
        ReleaseOutcome::Ignored
    }
}

/// The pointer state after a release with the given outcome.
pub open spec fn pointer_after_release(p: PointerState, outcome: ReleaseOutcome) -> PointerState {
    match outcome {
        ReleaseOutcome::SeekFinished | ReleaseOutcome::Ignored => p,
        ReleaseOutcome::NotificationDismissed | ReleaseOutcome::NotificationTapped => PointerState {
            dismissing_notification: false,
            is_dragging: false,
            ..p
        },
        _ => PointerState { is_dragging: false, ..p },
    }
}

/// The hiding state after a release with the given outcome.
pub open spec fn hide_after_release(h: HideState, outcome: ReleaseOutcome, fullscreen_suppressed: bool) -> HideState {
    match outcome {
        ReleaseOutcome::Revealed | ReleaseOutcome::ShownByDrag => revealed(h, fullscreen_suppressed),
        ReleaseOutcome::HiddenByDrag => HideState { manual: true, auto: false, fullscreen: false, ..h },
        _ => h,
    }
}

/// Handles a left release at height `py`. `seek_finished` tells whether the
/// release ended a seek drag; `hide_past_threshold` whether the island was
/// dragged far enough into its hiding place to stay there. Expanding the
/// island and acting on the notification are left to the caller.
pub fn handle_release(
    pointer: &mut PointerState,
    hiding: &mut HideState,
    seek_finished: bool,
    py: i32,
    hide_past_threshold: bool,
    fullscreen_suppressed: bool,
) -> (outcome: ReleaseOutcome)
    ensures
        outcome == release_outcome(*old(pointer), old(hiding).hidden(), seek_finished, py, hide_past_threshold),
        *final(pointer) == pointer_after_release(*old(pointer), outcome),
        *final(hiding) == hide_after_release(*old(hiding), outcome, fullscreen_suppressed),
{
    if seek_finished {
        return ReleaseOutcome::SeekFinished;
    }
    if pointer.dismissing_notification {
        pointer.dismissing_notification = false;
        pointer.is_dragging = false;
        let travel: i64 = pointer.drag_start_py as i64 - py as i64;
        if travel > NOTIFICATION_SWIPE_DISTANCE {
            return ReleaseOutcome::NotificationDismissed;
        } else {
            return ReleaseOutcome::NotificationTapped;
        }
    }
    if !pointer.is_dragging {
        return ReleaseOutcome::Ignored;
    }
    pointer.is_dragging = false;
    if !pointer.drag_has_moved {
        if hiding.is_hidden() {
            hiding.reveal_island(fullscreen_suppressed);
            ReleaseOutcome::Revealed
        } else {
            ReleaseOutcome::Expand
        }
    } else if hide_past_threshold {
        hiding.manual = true;
        hiding.auto = false;
        hiding.fullscreen = false;
        ReleaseOutcome::HiddenByDrag
    } else {
        hiding.reveal_island(fullscreen_suppressed);
        ReleaseOutcome::ShownByDrag
    }
}

/// How far the pointer may wander, in either direction, before a press
/// counts as a drag.
pub const DRAG_SLOP: i64 = 3;

/// Whether a drag from `(sx, sy)` to `(px, py)` left the slop square.
pub open spec fn moved_beyond_slop(sx: i32, sy: i32, px: i32, py: i32) -> bool {
    let up = sy - py;
    let across = px - sx;
    up > DRAG_SLOP || -up > DRAG_SLOP || across > DRAG_SLOP || -across > DRAG_SLOP
}

/// The pointer state after the pointer moved to `(px, py)`.
pub open spec fn pointer_after_motion(p: PointerState, hidden: bool, px: i32, py: i32) -> PointerState {
    if p.is_dragging && !p.dismissing_notification && !hidden && moved_beyond_slop(
        p.drag_start_px,
        p.drag_start_py,
        px,
        py,
    ) {
        PointerState { drag_has_moved: true, ..p }
    } else {
        p
    }
}

/// Follows the pointer during a drag of the visible island: once it leaves
/// the slop square the drag counts as moved, and stays so.
pub fn track_drag_motion(pointer: &mut PointerState, hidden: bool, px: i32, py: i32)
    ensures
        *final(pointer) == pointer_after_motion(*old(pointer), hidden, px, py),
{
    if pointer.is_dragging && !pointer.dismissing_notification && !hidden {
        let up: i64 = pointer.drag_start_py as i64 - py as i64;
        let across: i64 = px as i64 - pointer.drag_start_px as i64;
        if up > DRAG_SLOP || -up > DRAG_SLOP || across > DRAG_SLOP || -across > DRAG_SLOP {
            pointer.drag_has_moved = true;
        }
    }
}

/// How far the pointer must travel, in either direction, before a right
/// press turns into a drag of the island.
pub const RIGHT_DRAG_THRESHOLD: i64 = 4;

/// Whether a value fits in an `i32`.
pub open spec fn fits_i32(v: int) -> bool {
    i32::MIN <= v <= i32::MAX
}

/// The right-button drag that shifts the island's configured position.
#[derive(Clone, Copy, Debug)]
pub struct RightDrag {
    /// Where the right press happened.
    pub press_cursor: Option<(i32, i32)>,
    /// The position offsets, relative to the configured place, at the press.
    pub start_offset: Option<(i32, i32)>,
    pub dragging: bool,
}

impl RightDrag {
    /// No right press recorded.
    pub fn new() -> (drag: RightDrag)
        ensures
            drag.press_cursor is None,
            drag.start_offset is None,
            !drag.dragging,
    {
        RightDrag { press_cursor: None, start_offset: None, dragging: false }
    }
}

/// Records a right press at `cursor` when right-button dragging is `enabled`
/// (switched on, island not expanded, cursor not suppressed) and the press is
/// on the island. The start offset is the configured offset plus how far the
/// window stands from its configured place.
pub fn right_press(
    drag: &mut RightDrag,
    enabled: bool,
    hovering: bool,
    cursor: (i32, i32),
    offset: (i32, i32),
    window: (i32, i32),
    configured: (i32, i32),
)
    requires
        enabled && hovering ==> fits_i32(offset.0 + window.0) && fits_i32(offset.1 + window.1)
            && fits_i32(offset.0 + window.0 - configured.0) && fits_i32(
            offset.1 + window.1 - configured.1,
        ),
    ensures
        enabled && hovering ==> *final(drag) == (RightDrag {
            press_cursor: Some(cursor),
            start_offset: Some(
                (
                    (offset.0 + window.0 - configured.0) as i32,
                    (offset.1 + window.1 - configured.1) as i32,
                ),
            ),
            dragging: old(drag).dragging,
        }),
        !(enabled && hovering) ==> *final(drag) == *old(drag),
{
    if enabled && hovering {
        drag.press_cursor = Some(cursor);
        drag.start_offset = Some(
            (offset.0 + window.0 - configured.0, offset.1 + window.1 - configured.1),
        );
    }
}

/// Ends a right press when right-button dragging is `enabled`; answers
/// whether a drag had begun, in which case the new offsets are to be saved.
pub fn right_release(drag: &mut RightDrag, enabled: bool) -> (save: bool)
    ensures
        save == (enabled && old(drag).dragging),
        enabled ==> *final(drag) == (RightDrag {
            press_cursor: None,
            start_offset: None,
            dragging: false,
        }),
        !enabled ==> *final(drag) == *old(drag),
{
    if !enabled {
        return false;
    }
    let save = drag.dragging;
    drag.dragging = false;
    drag.press_cursor = None;
    drag.start_offset = None;
    save
}

/// Whether the pointer at `(px, py)` left the threshold square around the
/// right press at `(cx, cy)`.
pub open spec fn right_drag_started(cx: i32, cy: i32, px: i32, py: i32) -> bool {
    let dx = px - cx;
    let dy = py - cy;
    dx >= RIGHT_DRAG_THRESHOLD || -dx >= RIGHT_DRAG_THRESHOLD || dy >= RIGHT_DRAG_THRESHOLD
        || -dy >= RIGHT_DRAG_THRESHOLD
}

/// Whether the offsets reached by moving the pointer to `(px, py)` fit.
pub open spec fn right_motion_fits(drag: RightDrag, px: i32, py: i32) -> bool {
    match (drag.press_cursor, drag.start_offset) {
        (Some((cx, cy)), Some((ox, oy))) => fits_i32(px - cx) && fits_i32(py - cy) && fits_i32(
            ox + (px - cx),
        ) && fits_i32(oy + (py - cy)),
        _ => true,
    }
}

/// Follows the pointer after a right press: the drag begins once the pointer
/// leaves the threshold square, and from then on the island's offsets are
/// the start offsets moved by the pointer's travel. Returns the new offsets
/// while dragging.
pub fn right_drag_motion(drag: &mut RightDrag, px: i32, py: i32) -> (moved_to: Option<(i32, i32)>)
    requires
        right_motion_fits(*old(drag), px, py),
    ensures
        match (old(drag).press_cursor, old(drag).start_offset) {
            (Some((cx, cy)), Some((ox, oy))) => {
                &&& final(drag).press_cursor == old(drag).press_cursor
                &&& final(drag).start_offset == old(drag).start_offset
                &&& final(drag).dragging == (old(drag).dragging || right_drag_started(cx, cy, px, py))
                &&& moved_to == if final(drag).dragging {
                    Some(((ox + (px - cx)) as i32, (oy + (py - cy)) as i32))
                } else {
                    None::<(i32, i32)>
                }
            },
            _ => *final(drag) == *old(drag) && moved_to is None,
        },
{
    let (cx, cy) = match drag.press_cursor {
        Some(c) => c,
        None => return None,
    };
    let (ox, oy) = match drag.start_offset {
        Some(o) => o,
        None => return None,
    };
    let dx = px - cx;
    let dy = py - cy;
    if !drag.dragging {
        let far: bool = (dx as i64) >= RIGHT_DRAG_THRESHOLD || -(dx as i64) >= RIGHT_DRAG_THRESHOLD
            || (dy as i64) >= RIGHT_DRAG_THRESHOLD || -(dy as i64) >= RIGHT_DRAG_THRESHOLD;
        if far {
            drag.dragging = true;
        }
    }
    if !drag.dragging {
        return None;
    }
    Some((ox + dx, oy + dy))
}

/// Whether a window move must be undone: unless a drag runs or a restore is
/// already scheduled, the island goes back to its configured position when
/// something else moved it.
pub fn window_move_needs_restore(
    dragging: bool,
    right_dragging: bool,
    restore_pending: bool,
    position: (i32, i32),
    configured: (i32, i32),
) -> (restore: bool)
    ensures
        restore == (!dragging && !right_dragging && !restore_pending && position != configured),
{
    !dragging && !right_dragging && !restore_pending && (position.0 != configured.0 || position.1
        != configured.1)
}

/// The phase of a touch contact.
#[derive(Clone, Copy, PartialEq, Eq, Structural, Debug)]
pub enum TouchPhase {
    Started,
    Moved,
    Ended,
    Cancelled,
}

/// The left-button input that a touch stands for.
#[derive(Clone, Copy, PartialEq, Eq, Structural, Debug)]
pub enum TouchInput {
    Press,
    Release,
    Nothing,
}

/// Turns a touch into left-button input: a touch that starts presses, one
/// that ends or is cancelled releases, and the active contact is remembered
/// while it lasts.
pub fn touch_input(active_touch: &mut Option<u64>, phase: TouchPhase, id: u64) -> (input: TouchInput)
    ensures
        input == match phase {
            TouchPhase::Started => TouchInput::Press,
            TouchPhase::Moved => TouchInput::Nothing,
            _ => TouchInput::Release,
        },
        *final(active_touch) == match phase {
            TouchPhase::Started | TouchPhase::Moved => Some(id),
            _ => None::<u64>,
        },
{
    match phase {
        TouchPhase::Started => {
            *active_touch = Some(id);
            TouchInput::Press
        },
        TouchPhase::Moved => {
            *active_touch = Some(id);
            TouchInput::Nothing
        },
        _ => {
            *active_touch = None;
            TouchInput::Release
        },
    }
}

/// What the pointer is over, for one frame, once suppression is applied.
#[derive(Clone, Copy, Debug)]
pub struct HoverFlags {
    /// Pointer input is ignored this frame.
    pub interaction_suppressed: bool,
    pub hovering_visible: bool,
    pub on_hidden_reveal: bool,
    /// A full-screen application suppresses the island without hiding it,
    /// and the pointer is over its place: a double click reveals it.
    pub passive_reveal_active: bool,
    /// The window takes pointer input at all.
    pub cursor_hittest: bool,
}

/// The pointer input the island accepts this frame. `reveal_strip_ready`
/// tells that the island is fully hidden with a hidden width at the minimum,
/// so its reveal strip is shown.
pub fn hover_flags(
    cursor_suppressed: bool,
    touching: bool,
    fullscreen_auto_hide: bool,
    fullscreen_suppressed: bool,
    overlay_reveal: bool,
    hidden: bool,
    hovering_island: bool,
    in_reveal_rect: bool,
    reveal_strip_ready: bool,
    volume_dragging: bool,
    brightness_dragging: bool,
) -> (flags: HoverFlags)
    ensures
        ({
            let over_reveal = hidden && (hovering_island || (reveal_strip_ready && in_reveal_rect));
            let suppressed = (cursor_suppressed && !touching) || (fullscreen_auto_hide
                && fullscreen_suppressed && !overlay_reveal);
            &&& flags.interaction_suppressed == suppressed
            &&& flags.hovering_visible == (!suppressed && hovering_island)
            &&& flags.on_hidden_reveal == (!suppressed && over_reveal && reveal_strip_ready)
            &&& flags.passive_reveal_active == (fullscreen_suppressed && !fullscreen_auto_hide
                && over_reveal)
            &&& flags.cursor_hittest == (!suppressed && (flags.hovering_visible
                || flags.on_hidden_reveal || volume_dragging || brightness_dragging))
        }),
{
    let over_reveal = hidden && (hovering_island || (reveal_strip_ready && in_reveal_rect));
    let suppressed = (cursor_suppressed && !touching) || (fullscreen_auto_hide
        && fullscreen_suppressed && !overlay_reveal);
    let hovering_visible = !suppressed && hovering_island;
    let on_hidden_reveal = !suppressed && over_reveal && reveal_strip_ready;
    HoverFlags {
        interaction_suppressed: suppressed,
        hovering_visible,
        on_hidden_reveal,
        passive_reveal_active: fullscreen_suppressed && !fullscreen_auto_hide && over_reveal,
        cursor_hittest: !suppressed && (hovering_visible || on_hidden_reveal || volume_dragging
            || brightness_dragging),
    }
}

/// What holding the button down did outside a press event.
#[derive(Clone, Copy, PartialEq, Eq, Structural, Debug)]
pub enum HoldOutcome {
    /// The expanded island collapsed because the button is held elsewhere.
    Collapsed,
    /// The button is held on the compact island: its idle timer restarts.
    KeptAwake,
    Nothing,
}

/// Holding the button away from the expanded island collapses it; holding it
/// on the compact island keeps it from auto-hiding. Nothing happens while a
/// full-screen application hides the island.
pub fn hold_outcome(view: &mut IslandView, fullscreen_hidden: bool, hovering_visible: bool, pressing: bool) -> (outcome: HoldOutcome)
    ensures
        outcome == if fullscreen_hidden || !pressing {
            HoldOutcome::Nothing
        } else if old(view).expanded && !hovering_visible {
            HoldOutcome::Collapsed
        } else if !old(view).expanded && hovering_visible {
            HoldOutcome::KeptAwake
        } else {
            HoldOutcome::Nothing
        },
        *final(view) == if outcome == HoldOutcome::Collapsed {
            IslandView { expanded: false, widget_view: false }
        } else {
            *old(view)
        },
{
    if fullscreen_hidden || !pressing {
        return HoldOutcome::Nothing;
    }
    if view.expanded && !hovering_visible {
        view.expanded = false;
        view.widget_view = false;
        return HoldOutcome::Collapsed;
    }
    if !view.expanded && hovering_visible {
        HoldOutcome::KeptAwake
    } else {
        HoldOutcome::Nothing
    }
}

/// A tap on the visible compact island expands it: with no notification
/// grabbed or shown, the press starts a drag, the pointer stays within the
/// slop square, and the release expands.
pub proof fn lemma_tap_expands(
    pointer: PointerState,
    view: IslandView,
    hiding: HideState,
    music_page_available: bool,
    side: ViewSide,
    hits: PressHits,
    fullscreen_suppressed: bool,
    press_at: (i32, i32),
    move_to: (i32, i32),
    hide_past_threshold: bool,
)
    requires
        !pointer.dismissing_notification,
        !view.expanded,
        !hiding.hidden(),
        hits.hovering_visible,
        !hits.notification_visible,
        !moved_beyond_slop(press_at.0, press_at.1, move_to.0, move_to.1),
    ensures
        ({
            let pressed = press_outcome(view, hiding.hidden(), music_page_available, side, hits);
            let p1 = pointer_after_press(pointer, pressed, press_at.0, press_at.1);
            let h1 = hide_after_press(hiding, pressed, fullscreen_suppressed);
            let p2 = pointer_after_motion(p1, h1.hidden(), move_to.0, move_to.1);
            &&& pressed == PressOutcome::DragStarted
            &&& release_outcome(p2, h1.hidden(), false, move_to.1, hide_past_threshold)
                == ReleaseOutcome::Expand
            &&& !pointer_after_release(p2, ReleaseOutcome::Expand).is_dragging
        }),
{
}

/// Dragging the compact island past the hiding threshold hides it, and the
/// next press on the island or its reveal strip brings it back.
pub proof fn lemma_drag_hides_then_press_reveals(
    pointer: PointerState,
    hiding: HideState,
    view: IslandView,
    music_page_available: bool,
    side: ViewSide,
    hits: PressHits,
    fullscreen_suppressed: bool,
    py: i32,
)
    requires
        pointer.is_dragging,
        !pointer.dismissing_notification,
        pointer.drag_has_moved,
        !view.expanded,
        !hits.notification_visible,
        hits.hovering_visible || hits.on_hidden_reveal,
    ensures
        ({
            let released = release_outcome(pointer, hiding.hidden(), false, py, true);
            let h1 = hide_after_release(hiding, released, fullscreen_suppressed);
            let pressed = press_outcome(view, h1.hidden(), music_page_available, side, hits);
            let h2 = hide_after_press(h1, pressed, fullscreen_suppressed);
            &&& released == ReleaseOutcome::HiddenByDrag
            &&& h1.hidden()
            &&& pressed == PressOutcome::Revealed
            &&& !h2.hidden()
        }),
{
}

/// A grabbed notification that is swiped up further than the swipe distance
/// is dismissed, and the drag ends.
pub proof fn lemma_swipe_up_dismisses_notification(
    pointer: PointerState,
    view: IslandView,
    hiding: HideState,
    music_page_available: bool,
    side: ViewSide,
    hits: PressHits,
    fullscreen_suppressed: bool,
    press_at: (i32, i32),
    release_y: i32,
    hide_past_threshold: bool,
)
    requires
        !view.expanded,
        hits.notification_visible,
        hits.hovering_visible,
        press_at.1 - release_y > NOTIFICATION_SWIPE_DISTANCE,
    ensures
        ({
            let pressed = press_outcome(view, hiding.hidden(), music_page_available, side, hits);
            let p1 = pointer_after_press(pointer, pressed, press_at.0, press_at.1);
            let released = release_outcome(p1, hiding.hidden(), false, release_y, hide_past_threshold);
            let p2 = pointer_after_release(p1, released);
            &&& pressed == PressOutcome::NotificationGrabbed
            &&& released == ReleaseOutcome::NotificationDismissed
            &&& !p2.is_dragging && !p2.dismissing_notification
        }),
{
}

} // verus!
