//! How often the island redraws: which frame rate the current activity
//! calls for, when a redraw is requested, when the process trims its working
//! set, and how a desired interval is aligned to the display's refresh.
use vstd::prelude::*;

verus! {

/// Frame interval while music plays on the compact island, in nanoseconds.
pub const PLAYBACK_FRAME_INTERVAL_NS: u64 = 20_000_000;

/// Frame interval while the pointer interacts with the island.
pub const INTERACTIVE_FRAME_INTERVAL_NS: u64 = 20_000_000;

/// Frame interval of an idle, visible island.
pub const IDLE_FRAME_INTERVAL_NS: u64 = 50_000_000;

/// Frame interval of a hidden island.
pub const HIDDEN_FRAME_INTERVAL_NS: u64 = 100_000_000;

/// The effect of the dynamic island style refreshes at least this often.
pub const EFFECT_REFRESH_INTERVAL_MS: u64 = 1000;

/// How many display refreshes the desired interval rounds to: the nearest
/// whole number, at least one, kept in 32 bits.
pub open spec fn refresh_count(display_interval_ns: u64, desired_ns: u64) -> u32 {
    let refresh: int = if display_interval_ns >= 1 { display_interval_ns as int } else { 1 };
    let nearest: int = (desired_ns + refresh / 2) / refresh;
    (if nearest >= 1 { nearest } else { 1 }) as u32
}

/// The desired interval rounded to a whole number of display refreshes.
pub open spec fn aligned_interval_spec(display_interval_ns: u64, desired_ns: u64) -> int {
    display_interval_ns * refresh_count(display_interval_ns, desired_ns)
}

/// Rounds a desired frame interval to a whole number of display refreshes.
pub fn aligned_frame_interval(display_interval_ns: u64, desired_ns: u64) -> (interval_ns: u128)
    ensures
        interval_ns == aligned_interval_spec(display_interval_ns, desired_ns),
{
    let refresh: u128 = if display_interval_ns >= 1 { display_interval_ns as u128 } else { 1 };
    let nearest: u128 = (desired_ns as u128 + refresh / 2) / refresh;
    let at_least_one: u128 = if nearest >= 1 { nearest } else { 1 };
    let refreshes: u32 = at_least_one as u32;
    assert(display_interval_ns * refreshes <= u64::MAX * u32::MAX) by (nonlinear_arith)
        requires
            display_interval_ns <= u64::MAX,
            refreshes <= u32::MAX,
    ;
    display_interval_ns as u128 * refreshes as u128
}

/// A whole number of refreshes brings the desired interval within half a
/// refresh, as long as the interval is at least half a refresh and the count
/// fits in 32 bits.
pub proof fn lemma_aligned_interval_nearest(display_interval_ns: u64, desired_ns: u64)
    requires
        display_interval_ns >= 1,
        desired_ns * 2 >= display_interval_ns,
        (desired_ns + display_interval_ns / 2) / (display_interval_ns as int) <= u32::MAX,
    ensures
        aligned_interval_spec(display_interval_ns, desired_ns) % (display_interval_ns as int) == 0,
        aligned_interval_spec(display_interval_ns, desired_ns) >= display_interval_ns,
        aligned_interval_spec(display_interval_ns, desired_ns) - desired_ns <= display_interval_ns
            / 2,
        desired_ns - aligned_interval_spec(display_interval_ns, desired_ns) <= display_interval_ns
            / 2,
{
    let d: int = display_interval_ns as int;
    let x: int = desired_ns as int;
    let n: int = (x + d / 2) / d;
    assert(n >= 1) by (nonlinear_arith)
        requires
            d >= 1,
            2 * x >= d,
            n == (x + d / 2) / d,
    {
        assert(x + d / 2 >= d);
    }
    assert((n as u32) as int == n);
    assert(refresh_count(display_interval_ns, desired_ns) as int == n);
    assert(aligned_interval_spec(display_interval_ns, desired_ns) == d * n);
    assert((d * n) % d == 0) by (nonlinear_arith)
        requires
            d >= 1,
    ;
    assert(d * n >= d) by (nonlinear_arith)
        requires
            d >= 1,
            n >= 1,
    ;
    assert(d * n <= x + d / 2 && x + d / 2 < d * n + d) by (nonlinear_arith)
        requires
            d >= 1,
            n == (x + d / 2) / d,
    ;
    assert(d / 2 + d / 2 <= d);
}

/// What the island is doing this frame.
#[derive(Clone, Copy, Debug)]
pub struct FrameActivity {
    pub springs_animating: bool,
    /// The attention pulse started less than 1.6 s ago.
    pub attention_pulse_running: bool,
    pub volume_dragging: bool,
    pub brightness_dragging: bool,
    pub lyric_transition_running: bool,
    pub dragging: bool,
    pub seeking: bool,
    pub right_dragging: bool,
    pub resource_usage_animating: bool,
    pub hidden: bool,
    pub expanded: bool,
    pub components_hidden: bool,
    pub media_is_playing: bool,
    /// The page slider has not fully reached the widget page.
    pub view_short_of_widgets: bool,
    pub dynamic_style: bool,
    pub has_thumbnail: bool,
    pub hovering_visible: bool,
    pub music_page_available: bool,
    pub compact_overlay_visible: bool,
    pub passive_reveal_active: bool,
    pub right_pressed: bool,
    /// The periodic refresh of the island's effect is due.
    pub effect_refresh_due: bool,
    /// The working set was last trimmed long enough ago.
    pub trim_interval_elapsed: bool,
}

/// The frame rate an activity calls for.
#[derive(Clone, Copy, PartialEq, Eq, Structural, Debug)]
pub enum FrameRate {
    /// The display's full animation rate.
    Animation,
    /// The configured idle rate of the expanded island, aligned.
    ExpandedIdle,
    /// The playback interval, aligned.
    Playback,
    /// The interactive interval, aligned.
    Interactive,
    /// The hidden interval.
    Hidden,
    /// The idle interval.
    Idle,
}

/// When the next frame comes and what happens in it.
#[derive(Clone, Copy, Debug)]
pub struct FramePlan {
    pub rate: FrameRate,
    pub request_redraw: bool,
    pub trim_working_set: bool,
}

/// Something animates: springs, the attention pulse, a slider drag, a lyric
/// transition, a drag of the island or a seek.
pub open spec fn transition_active(a: FrameActivity) -> bool {
    a.springs_animating || a.attention_pulse_running || a.volume_dragging || a.brightness_dragging
        || a.lyric_transition_running || a.dragging || a.seeking || a.right_dragging
}

/// The island's components are shown.
pub open spec fn components_visible(a: FrameActivity) -> bool {
    a.expanded || !a.components_hidden
}

/// Music plays where it can be seen.
pub open spec fn playback_active(a: FrameActivity) -> bool {
    !a.hidden && components_visible(a) && a.media_is_playing && (!a.expanded
        || a.view_short_of_widgets)
}

/// The dynamic style animates behind a cover image.
pub open spec fn dynamic_effect_active(a: FrameActivity) -> bool {
    !a.hidden && components_visible(a) && a.dynamic_style && a.has_thumbnail
}

/// The pointer interacts with the island.
pub open spec fn interactive_active(a: FrameActivity) -> bool {
    (a.hovering_visible && (!a.expanded || (a.music_page_available && a.view_short_of_widgets)))
        || a.compact_overlay_visible || a.passive_reveal_active || a.right_pressed
}

/// The frame plan for an activity.
pub open spec fn frame_plan_spec(a: FrameActivity) -> FramePlan {
    let transition = transition_active(a);
    let playback = playback_active(a);
    let dynamic = dynamic_effect_active(a);
    let interactive = interactive_active(a);
    let resources = a.resource_usage_animating;
    let rate = if transition {
        FrameRate::Animation
    } else if a.expanded && (playback || dynamic || interactive || resources) {
        FrameRate::ExpandedIdle
    } else if playback || dynamic {
        FrameRate::Playback
    } else if interactive || resources {
        FrameRate::Interactive
    } else if a.hidden {
        FrameRate::Hidden
    } else {
        FrameRate::Idle
    };
    FramePlan {
        rate,
        request_redraw: transition || resources || playback || dynamic || interactive
            || a.effect_refresh_due,
        trim_working_set: !transition && !interactive && !resources && (!a.expanded || (!playback
            && !dynamic)) && a.trim_interval_elapsed,
    }
}

/// Plans the next frame from what the island is doing.
pub fn plan_frame(a: &FrameActivity) -> (plan: FramePlan)
    ensures
        plan == frame_plan_spec(*a),
{
    let transition = a.springs_animating || a.attention_pulse_running || a.volume_dragging
        || a.brightness_dragging || a.lyric_transition_running || a.dragging || a.seeking
        || a.right_dragging;
    let components = a.expanded || !a.components_hidden;
    let playback = !a.hidden && components && a.media_is_playing && (!a.expanded
        || a.view_short_of_widgets);
    let dynamic = !a.hidden && components && a.dynamic_style && a.has_thumbnail;
    let interactive = (a.hovering_visible && (!a.expanded || (a.music_page_available
        && a.view_short_of_widgets))) || a.compact_overlay_visible || a.passive_reveal_active
        || a.right_pressed;
    let resources = a.resource_usage_animating;
    let rate = if transition {
        FrameRate::Animation
    } else if a.expanded && (playback || dynamic || interactive || resources) {
        FrameRate::ExpandedIdle
    } else if playback || dynamic {
        FrameRate::Playback
    } else if interactive || resources {
        FrameRate::Interactive
    } else if a.hidden {
        FrameRate::Hidden
    } else {
        FrameRate::Idle
    };
    FramePlan {
        rate,
        request_redraw: transition || resources || playback || dynamic || interactive
            || a.effect_refresh_due,
        trim_working_set: !transition && !interactive && !resources && (!a.expanded || (!playback
            && !dynamic)) && a.trim_interval_elapsed,
    }
}

/// A hidden island draws at the hidden rate when nothing animates, no
/// resource meter moves and the pointer does not interact with it: music
/// playing behind it does not speed it up.
pub proof fn lemma_hidden_island_idles(a: FrameActivity)
    requires
        a.hidden,
        !transition_active(a),
        !a.resource_usage_animating,
        !interactive_active(a),
    ensures
        frame_plan_spec(a).rate == FrameRate::Hidden,
{
}

/// The periodic effect refresh is due once a second for a visible island
/// with the dynamic style or an expanded island.
pub fn effect_refresh_due(hidden: bool, since_last_refresh_ms: u64, dynamic_style: bool, expanded: bool) -> (due: bool)
    ensures
        due == (!hidden && since_last_refresh_ms >= EFFECT_REFRESH_INTERVAL_MS && (dynamic_style
            || expanded)),
{
    !hidden && since_last_refresh_ms >= EFFECT_REFRESH_INTERVAL_MS && (dynamic_style || expanded)
}

/// Resource usage animates when its widget is on the page in view and its
/// meters move: on the expanded island's widget page, or on the compact
/// island. Neither counts while the island is hidden or the compact overlay
/// covers it.
pub fn resource_usage_animating(
    hidden: bool,
    compact_overlay_visible: bool,
    expanded: bool,
    music_page_available: bool,
    view_off_music: bool,
    expanded_layout_has_widget: bool,
    compact_layout_has_widget: bool,
    expanded_meters_moving: bool,
    compact_meters_moving: bool,
) -> (animating: bool)
    ensures
        animating == (!hidden && !compact_overlay_visible && if expanded {
            (!music_page_available || view_off_music) && expanded_layout_has_widget
                && expanded_meters_moving
        } else {
            compact_layout_has_widget && compact_meters_moving
        }),
{
    if hidden || compact_overlay_visible {
        return false;
    }
    if expanded {
        (!music_page_available || view_off_music) && expanded_layout_has_widget
            && expanded_meters_moving
    } else {
        compact_layout_has_widget && compact_meters_moving
    }
}

} // verus!
