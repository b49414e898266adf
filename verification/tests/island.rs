use winisland_window::display::monitor_moved;
use winisland_window::flags::HideState;
use winisland_window::frame_pacing::{
    aligned_frame_interval, effect_refresh_due, plan_frame, resource_usage_animating,
    FrameActivity, FrameRate,
};
use winisland_window::island_input::{
    handle_press, handle_release, hold_outcome, hover_flags, right_drag_motion, right_press,
    right_release, touch_input, track_drag_motion, window_move_needs_restore, HoldOutcome,
    IslandView, PointerState, PressHits, PressOutcome, ReleaseOutcome, RightDrag, TouchInput,
    TouchPhase, ViewSide,
};

fn no_hits() -> PressHits {
    PressHits {
        hovering_visible: false,
        on_hidden_reveal: false,
        notification_visible: false,
        music_on: false,
        on_play: false,
        play_available: false,
        on_previous: false,
        previous_available: false,
        on_next: false,
        next_available: false,
        on_progress_bar: false,
        seek_available: false,
        on_settings_widget: false,
        on_back_arrow: false,
        on_forward_arrow: false,
        in_top_strip: false,
    }
}

fn compact() -> IslandView {
    IslandView { expanded: false, widget_view: false }
}

fn expanded_music() -> IslandView {
    IslandView { expanded: true, widget_view: false }
}

#[test]
fn tap_on_compact_island_expands() {
    let mut pointer = PointerState::new();
    let mut view = compact();
    let mut hide = HideState::default();
    let hits = PressHits { hovering_visible: true, ..no_hits() };
    let outcome = handle_press(
        &mut pointer, &mut view, &mut hide, true, ViewSide::Music, &hits, false, 100, 50,
    );
    assert_eq!(outcome, PressOutcome::DragStarted);
    assert!(pointer.is_dragging);
    assert_eq!((pointer.drag_start_px, pointer.drag_start_py), (100, 50));
    track_drag_motion(&mut pointer, false, 103, 47);
    assert!(!pointer.drag_has_moved);
    let released = handle_release(&mut pointer, &mut hide, false, 47, false, false);
    assert_eq!(released, ReleaseOutcome::Expand);
    assert!(!pointer.is_dragging);
}

#[test]
fn drag_hides_and_press_reveals() {
    let mut pointer = PointerState::new();
    let mut view = compact();
    let mut hide = HideState::default();
    let hits = PressHits { hovering_visible: true, ..no_hits() };
    handle_press(&mut pointer, &mut view, &mut hide, false, ViewSide::Widgets, &hits, false, 10, 40);
    track_drag_motion(&mut pointer, false, 10, 36);
    assert!(pointer.drag_has_moved);
    let released = handle_release(&mut pointer, &mut hide, false, 0, true, false);
    assert_eq!(released, ReleaseOutcome::HiddenByDrag);
    assert!(hide.manual && hide.is_hidden());
    let outcome = handle_press(
        &mut pointer, &mut view, &mut hide, false, ViewSide::Widgets, &hits, true, 10, 0,
    );
    assert_eq!(outcome, PressOutcome::Revealed);
    assert!(!hide.is_hidden());
    assert!(hide.fullscreen_reveal_override);
}

#[test]
fn short_drag_shows_island_again() {
    let mut pointer = PointerState::new();
    let mut hide = HideState::default();
    hide.auto = true;
    pointer.is_dragging = true;
    pointer.drag_has_moved = true;
    let released = handle_release(&mut pointer, &mut hide, false, 0, false, false);
    assert_eq!(released, ReleaseOutcome::ShownByDrag);
    assert!(!hide.is_hidden());
}

#[test]
fn tap_on_hidden_island_reveals_on_release() {
    let mut pointer = PointerState::new();
    let mut hide = HideState::default();
    hide.fullscreen = true;
    pointer.is_dragging = true;
    let released = handle_release(&mut pointer, &mut hide, false, 0, true, false);
    assert_eq!(released, ReleaseOutcome::Revealed);
    assert!(!hide.is_hidden());
}

#[test]
fn notification_swipe_and_tap() {
    let mut pointer = PointerState::new();
    let mut view = compact();
    let mut hide = HideState::default();
    let hits = PressHits { hovering_visible: true, notification_visible: true, ..no_hits() };
    let outcome = handle_press(
        &mut pointer, &mut view, &mut hide, false, ViewSide::Music, &hits, false, 5, 60,
    );
    assert_eq!(outcome, PressOutcome::NotificationGrabbed);
    assert!(pointer.dismissing_notification);
    let released = handle_release(&mut pointer, &mut hide, false, 39, false, false);
    assert_eq!(released, ReleaseOutcome::NotificationDismissed);
    assert!(!pointer.dismissing_notification && !pointer.is_dragging);

    handle_press(&mut pointer, &mut view, &mut hide, false, ViewSide::Music, &hits, false, 5, 60);
    let released = handle_release(&mut pointer, &mut hide, false, 40, false, false);
    assert_eq!(released, ReleaseOutcome::NotificationTapped);
}

#[test]
fn seek_release_takes_priority() {
    let mut pointer = PointerState::new();
    pointer.is_dragging = true;
    let mut hide = HideState::default();
    let released = handle_release(&mut pointer, &mut hide, true, 0, false, false);
    assert_eq!(released, ReleaseOutcome::SeekFinished);
    assert!(pointer.is_dragging);
    let mut idle = PointerState::new();
    assert_eq!(handle_release(&mut idle, &mut hide, false, 0, false, false), ReleaseOutcome::Ignored);
}

#[test]
fn expanded_press_targets() {
    let mut pointer = PointerState::new();
    let mut hide = HideState::default();
    let mut view = expanded_music();
    let play = PressHits { music_on: true, on_play: true, play_available: true, ..no_hits() };
    let outcome =
        handle_press(&mut pointer, &mut view, &mut hide, true, ViewSide::Music, &play, false, 0, 0);
    assert_eq!(outcome, PressOutcome::TogglePlay);

    let unavailable = PressHits { play_available: false, in_top_strip: true, ..play };
    let outcome = handle_press(
        &mut pointer, &mut view, &mut hide, true, ViewSide::Music, &unavailable, false, 0, 0,
    );
    assert_eq!(outcome, PressOutcome::Collapsed);
    assert!(!view.expanded && !view.widget_view);

    let mut view = expanded_music();
    let next = PressHits { music_on: true, on_next: true, next_available: true, ..no_hits() };
    assert_eq!(
        handle_press(&mut pointer, &mut view, &mut hide, true, ViewSide::Music, &next, false, 0, 0),
        PressOutcome::Next
    );
    let prev = PressHits { music_on: true, on_previous: true, previous_available: true, ..no_hits() };
    assert_eq!(
        handle_press(&mut pointer, &mut view, &mut hide, true, ViewSide::Music, &prev, false, 0, 0),
        PressOutcome::Previous
    );
    let seek = PressHits { on_progress_bar: true, seek_available: true, ..no_hits() };
    assert_eq!(
        handle_press(&mut pointer, &mut view, &mut hide, true, ViewSide::Music, &seek, false, 0, 0),
        PressOutcome::SeekStarted
    );
    let forward = PressHits { on_forward_arrow: true, ..no_hits() };
    assert_eq!(
        handle_press(&mut pointer, &mut view, &mut hide, true, ViewSide::Music, &forward, false, 0, 0),
        PressOutcome::ShowWidgets
    );
    assert!(view.widget_view && view.expanded);
    let back = PressHits { on_back_arrow: true, ..no_hits() };
    assert_eq!(
        handle_press(&mut pointer, &mut view, &mut hide, true, ViewSide::Widgets, &back, false, 0, 0),
        PressOutcome::ShowMusic
    );
    assert!(!view.widget_view);
    assert_eq!(
        handle_press(&mut pointer, &mut view, &mut hide, false, ViewSide::Widgets, &back, false, 0, 0),
        PressOutcome::Ignored
    );
    let settings = PressHits { on_settings_widget: true, ..no_hits() };
    assert_eq!(
        handle_press(&mut pointer, &mut view, &mut hide, true, ViewSide::Widgets, &settings, false, 0, 0),
        PressOutcome::OpenSettings
    );
    assert_eq!(
        handle_press(&mut pointer, &mut view, &mut hide, true, ViewSide::Middle, &settings, false, 0, 0),
        PressOutcome::Ignored
    );
    assert!(!pointer.is_dragging);
}

#[test]
fn right_drag_moves_offsets() {
    let mut drag = RightDrag::new();
    right_press(&mut drag, true, true, (200, 100), (5, -3), (110, 20), (100, 20));
    assert_eq!(drag.press_cursor, Some((200, 100)));
    assert_eq!(drag.start_offset, Some((15, -3)));
    assert_eq!(right_drag_motion(&mut drag, 203, 97), None);
    assert!(!drag.dragging);
    assert_eq!(right_drag_motion(&mut drag, 204, 100), Some((19, -3)));
    assert!(drag.dragging);
    assert_eq!(right_drag_motion(&mut drag, 201, 101), Some((16, -2)));
    assert!(right_release(&mut drag, true));
    assert_eq!(drag.press_cursor, None);
    assert!(!right_release(&mut drag, true));

    let mut ignored = RightDrag::new();
    right_press(&mut ignored, false, true, (1, 1), (0, 0), (0, 0), (0, 0));
    assert_eq!(ignored.press_cursor, None);
    assert_eq!(right_drag_motion(&mut ignored, 50, 50), None);
}

#[test]
fn window_moves_and_touches() {
    assert!(window_move_needs_restore(false, false, false, (10, 0), (0, 0)));
    assert!(!window_move_needs_restore(true, false, false, (10, 0), (0, 0)));
    assert!(!window_move_needs_restore(false, false, true, (10, 0), (0, 0)));
    assert!(!window_move_needs_restore(false, false, false, (3, 4), (3, 4)));

    let mut touch = None;
    assert_eq!(touch_input(&mut touch, TouchPhase::Started, 7), TouchInput::Press);
    assert_eq!(touch, Some(7));
    assert_eq!(touch_input(&mut touch, TouchPhase::Moved, 7), TouchInput::Nothing);
    assert_eq!(touch, Some(7));
    assert_eq!(touch_input(&mut touch, TouchPhase::Cancelled, 7), TouchInput::Release);
    assert_eq!(touch, None);
}

#[test]
fn hover_flags_follow_suppression() {
    let flags = hover_flags(false, false, false, false, false, false, true, false, false, false, false);
    assert!(flags.hovering_visible && flags.cursor_hittest && !flags.interaction_suppressed);

    let hidden_cursor = hover_flags(true, false, false, false, false, false, true, false, false, true, false);
    assert!(hidden_cursor.interaction_suppressed && !hidden_cursor.cursor_hittest);
    let touching = hover_flags(true, true, false, false, false, false, true, false, false, false, false);
    assert!(!touching.interaction_suppressed && touching.hovering_visible);

    let strip = hover_flags(false, false, false, false, false, true, false, true, true, false, false);
    assert!(strip.on_hidden_reveal && strip.cursor_hittest && !strip.hovering_visible);

    let passive = hover_flags(false, false, false, true, false, true, true, false, false, false, false);
    assert!(passive.passive_reveal_active);
    let auto_hidden = hover_flags(false, false, true, true, false, true, true, false, false, false, false);
    assert!(auto_hidden.interaction_suppressed && !auto_hidden.passive_reveal_active);
    let overlay = hover_flags(false, false, true, true, true, false, true, false, false, false, false);
    assert!(!overlay.interaction_suppressed && overlay.hovering_visible);
}

#[test]
fn holding_the_button() {
    let mut view = expanded_music();
    assert_eq!(hold_outcome(&mut view, false, false, true), HoldOutcome::Collapsed);
    assert!(!view.expanded);
    assert_eq!(hold_outcome(&mut view, false, true, true), HoldOutcome::KeptAwake);
    let mut view = expanded_music();
    assert_eq!(hold_outcome(&mut view, true, false, true), HoldOutcome::Nothing);
    assert!(view.expanded);
    assert_eq!(hold_outcome(&mut view, false, false, false), HoldOutcome::Nothing);
}

#[test]
fn aligned_intervals() {
    // 144 Hz display: 6_944_444 ns per refresh; 20 ms rounds to three refreshes.
    assert_eq!(aligned_frame_interval(6_944_444, 20_000_000), 20_833_332);
    assert_eq!(aligned_frame_interval(16_666_667, 50_000_000), 50_000_001);
    assert_eq!(aligned_frame_interval(16_666_667, 1_000), 16_666_667);
    assert_eq!(aligned_frame_interval(0, 20), 0);
    assert_eq!(aligned_frame_interval(10, 14), 10);
    assert_eq!(aligned_frame_interval(10, 15), 20);
}

fn quiet() -> FrameActivity {
    FrameActivity {
        springs_animating: false,
        attention_pulse_running: false,
        volume_dragging: false,
        brightness_dragging: false,
        lyric_transition_running: false,
        dragging: false,
        seeking: false,
        right_dragging: false,
        resource_usage_animating: false,
        hidden: false,
        expanded: false,
        components_hidden: false,
        media_is_playing: false,
        view_short_of_widgets: false,
        dynamic_style: false,
        has_thumbnail: false,
        hovering_visible: false,
        music_page_available: false,
        compact_overlay_visible: false,
        passive_reveal_active: false,
        right_pressed: false,
        effect_refresh_due: false,
        trim_interval_elapsed: true,
    }
}

#[test]
fn frame_plans() {
    let idle = plan_frame(&quiet());
    assert_eq!(idle.rate, FrameRate::Idle);
    assert!(!idle.request_redraw);
    assert!(idle.trim_working_set);

    let hidden = plan_frame(&FrameActivity { hidden: true, media_is_playing: true, ..quiet() });
    assert_eq!(hidden.rate, FrameRate::Hidden);

    let animating = plan_frame(&FrameActivity { springs_animating: true, ..quiet() });
    assert_eq!(animating.rate, FrameRate::Animation);
    assert!(animating.request_redraw && !animating.trim_working_set);

    let playing = plan_frame(&FrameActivity { media_is_playing: true, ..quiet() });
    assert_eq!(playing.rate, FrameRate::Playback);
    assert!(playing.request_redraw && playing.trim_working_set);

    let expanded = plan_frame(&FrameActivity {
        expanded: true,
        media_is_playing: true,
        view_short_of_widgets: true,
        ..quiet()
    });
    assert_eq!(expanded.rate, FrameRate::ExpandedIdle);
    assert!(!expanded.trim_working_set);

    let hovering = plan_frame(&FrameActivity { hovering_visible: true, ..quiet() });
    assert_eq!(hovering.rate, FrameRate::Interactive);

    let refresh = plan_frame(&FrameActivity { effect_refresh_due: true, ..quiet() });
    assert_eq!(refresh.rate, FrameRate::Idle);
    assert!(refresh.request_redraw);
}

#[test]
fn periodic_and_resource_decisions() {
    assert!(effect_refresh_due(false, 1000, true, false));
    assert!(!effect_refresh_due(false, 999, true, true));
    assert!(!effect_refresh_due(true, 5000, true, true));
    assert!(!effect_refresh_due(false, 5000, false, false));

    assert!(resource_usage_animating(false, false, false, true, false, false, true, false, true));
    assert!(!resource_usage_animating(false, true, false, true, false, false, true, false, true));
    assert!(resource_usage_animating(false, false, true, true, true, true, false, true, false));
    assert!(!resource_usage_animating(false, false, true, true, false, true, false, true, false));
}

#[test]
fn monitor_changes() {
    assert!(monitor_moved((1920, 1080), (0, 0), (2560, 1440), (0, 0)));
    assert!(monitor_moved((1920, 1080), (1920, 0), (1920, 1080), (0, 0)));
    assert!(!monitor_moved((1920, 1080), (0, 0), (1920, 1080), (0, 0)));
    assert!(!monitor_moved((0, 1080), (5, 0), (1920, 1080), (0, 0)));
}
