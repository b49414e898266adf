use winisland_window::surface_format::{choose_surface_format, ColorFormat, SurfaceFormat};
use winisland_window::display::{accept_revision, monitor_labels, theme_is_light, DisplayDevice};
use winisland_window::flags::{
    settings_frame_should_continue, should_show_widget_view, signal_dwm_composition_changed,
    take_dwm_composition_changed, take_position_restore, widget_drag_move_needs_redraw, CompositionSignal,
    HideEdge, HideState,
};
use winisland_window::markdown::{markdown_colors, SettingsTheme};
use winisland_window::media::{
    app_label, audio_target_app_id, media_active, media_control_available, merge_detected_apps,
    toggle_media_app, PluginMediaSource,
};
use winisland_window::pixel::{convert_frame, rgb, software_pixel, FrameError, PixelOrder};
use winisland_window::resource_editor::{
    apply_editor_control, metric_name, next_color, parse_usize, select_resource_size,
    selected_size_option, size_option_label, size_option_value, EditorControl, EditorOutcome,
    ResourceMetricConfig, ResourceMetricKind, ResourceMetricStyle,
};
use winisland_window::text::{copy_text, eq_ignore_ascii_case, push_decimal, starts_with, str_eq};

#[test]
fn small_decisions() {
    assert!(should_show_widget_view(false));
    assert!(!should_show_widget_view(true));
    assert!(widget_drag_move_needs_redraw(true, Some(1), Some(1)));
    assert!(widget_drag_move_needs_redraw(false, Some(1), None));
    assert!(!widget_drag_move_needs_redraw(false, Some(2), Some(2)));
    assert!(!settings_frame_should_continue(false, false, false, false, false));
    assert!(settings_frame_should_continue(false, false, false, false, true));
}

#[test]
fn hiding_and_revealing() {
    let mut hide = HideState::default();
    assert!(!hide.is_hidden());
    assert_eq!(hide.edge, HideEdge::Top);
    hide.manual = true;
    hide.origin = Some((1, 2));
    assert!(hide.is_hidden());
    hide.reveal_island(true);
    assert!(!hide.is_hidden());
    assert!(hide.fullscreen_reveal_override);
    assert!(hide.is_width_hiding(true));
    assert!(!hide.is_width_hiding(false));
}

#[test]
fn composition_signal_is_taken_once() {
    let mut signal = CompositionSignal::new();
    assert!(!take_dwm_composition_changed(&mut signal));
    signal_dwm_composition_changed(&mut signal);
    signal_dwm_composition_changed(&mut signal);
    assert!(take_dwm_composition_changed(&mut signal));
    assert!(!take_dwm_composition_changed(&mut signal));
}

#[test]
fn pixels() {
    assert_eq!(software_pixel(255, 255, 255, 8), 0x0001_0001);
    assert_eq!(software_pixel(255, 0, 0, 255), 0x00ff_0000);
    assert_eq!(software_pixel(64, 32, 16, 128), (127 << 16) | (63 << 8) | 31);
    assert_eq!(software_pixel(200, 0, 0, 100), 0x00ff_0000);
    assert_eq!(software_pixel(0, 1, 1, 255), 0x0000_0101);
    assert_eq!(software_pixel(1, 0, 1, 255), 0x0001_0002);
    assert_eq!(rgb(0x0a84ff), (0x0a, 0x84, 0xff));
}

#[test]
fn frames_convert_row_by_row() {
    let bytes = [0u8, 0, 255, 255, 9, 9, 9, 0, 0xaa, 0xbb, 255, 255, 0, 0, 0, 0];
    let mut buffer = vec![0u32; 2];
    assert_eq!(convert_frame(&bytes, 8, 2, 1, PixelOrder::Bgra8888, &mut buffer), Ok(()));
    assert_eq!(buffer, vec![0x00ff_0000, 0x0001_0001]);
    assert_eq!(convert_frame(&bytes, 8, 1, 2, PixelOrder::Rgba8888, &mut buffer), Ok(()));
    assert_eq!(buffer, vec![0x0000_00ff, 0x00aa_bbff]);
    let mut wrong = vec![0u32; 3];
    assert_eq!(convert_frame(&bytes, 8, 2, 1, PixelOrder::Rgba8888, &mut wrong), Err(FrameError::UnexpectedSize));
    assert_eq!(convert_frame(&bytes, 8, 2, 1, PixelOrder::Unsupported, &mut buffer), Err(FrameError::UnsupportedFormat));
    let mut empty: Vec<u32> = Vec::new();
    assert_eq!(convert_frame(&bytes, 8, 0, 2, PixelOrder::Unsupported, &mut empty), Ok(()));
}

fn metric(kind: ResourceMetricKind, color: u32) -> ResourceMetricConfig {
    ResourceMetricConfig { kind, enabled: true, style: ResourceMetricStyle::Bar, color }
}

#[test]
fn editor_controls() {
    let mut metrics = vec![metric(ResourceMetricKind::Cpu, 0x8e8e93), metric(ResourceMetricKind::Ram, 0x123456)];
    assert_eq!(apply_editor_control(&mut metrics, EditorControl::Color(0)), EditorOutcome::Updated);
    assert_eq!(metrics[0].color, 0x0a84ff);
    apply_editor_control(&mut metrics, EditorControl::Color(1));
    assert_eq!(metrics[1].color, 0x0a84ff);
    apply_editor_control(&mut metrics, EditorControl::Color(1));
    assert_eq!(metrics[1].color, 0x32bef6);
    apply_editor_control(&mut metrics, EditorControl::Toggle(1));
    assert!(!metrics[1].enabled);
    apply_editor_control(&mut metrics, EditorControl::Ring(0));
    assert_eq!(metrics[0].style, ResourceMetricStyle::Ring);
    apply_editor_control(&mut metrics, EditorControl::MoveUp(1));
    assert_eq!(metrics[0].kind, ResourceMetricKind::Ram);
    apply_editor_control(&mut metrics, EditorControl::MoveUp(0));
    apply_editor_control(&mut metrics, EditorControl::MoveDown(1));
    assert_eq!(metrics[0].kind, ResourceMetricKind::Ram);
    apply_editor_control(&mut metrics, EditorControl::MoveDown(0));
    assert_eq!(metrics[0].kind, ResourceMetricKind::Cpu);
    apply_editor_control(&mut metrics, EditorControl::Bar(9));
    assert_eq!(apply_editor_control(&mut metrics, EditorControl::Close), EditorOutcome::Close);
    assert_eq!(apply_editor_control(&mut metrics, EditorControl::SizeDropdown), EditorOutcome::OpenSizePopup);
    assert_eq!(next_color(0xffffff), 0x8e8e93);
    assert_eq!(metric_name(ResourceMetricKind::Network), "NET");
}

#[test]
fn size_choices_round_trip() {
    assert_eq!(selected_size_option(3, 2), 5);
    assert_eq!(selected_size_option(4, 4), 0);
    assert_eq!(size_option_label(2, 3), "2 × 3");
    assert_eq!(size_option_value(2, 3), "2x3");
    assert_eq!(select_resource_size(&size_option_value(12, 307)), Some((12, 307)));
    assert_eq!(select_resource_size("1x"), None);
    assert_eq!(select_resource_size("x1"), None);
    assert_eq!(select_resource_size("13"), None);
    assert_eq!(select_resource_size("+2x3"), Some((2, 3)));
    assert_eq!(parse_usize("18446744073709551615"), Some(usize::MAX));
    assert_eq!(parse_usize("18446744073709551616"), None);
    assert_eq!(parse_usize("+"), None);
    assert_eq!(parse_usize("-1"), None);
}

#[test]
fn media_apps() {
    let mut apps = vec!["a!x".to_string()];
    let mut known = vec!["a!x".to_string()];
    toggle_media_app(&mut apps, &mut known, &"b".to_string());
    assert_eq!(apps, vec!["a!x".to_string(), "b".to_string()]);
    assert_eq!(known, vec!["a!x".to_string(), "b".to_string()]);
    toggle_media_app(&mut apps, &mut known, &"b".to_string());
    assert_eq!(apps, vec!["a!x".to_string()]);
    assert_eq!(known.len(), 2);
    let mut detected = vec!["a".to_string()];
    assert!(merge_detected_apps(&mut detected, &vec!["b".to_string(), "a".to_string(), "b".to_string()]));
    assert_eq!(detected, vec!["a".to_string(), "b".to_string()]);
    assert!(!merge_detected_apps(&mut detected, &vec!["a".to_string()]));
    assert_eq!(app_label("Spotify.exe!App"), "Spotify.exe");
    assert_eq!(app_label("chrome"), "chrome");
}

#[test]
fn media_sources() {
    let source = Some(PluginMediaSource { resource_id: 1, available_controls: 0b101, title: String::new() });
    assert!(media_control_available(&source, false, 0b100));
    assert!(!media_control_available(&source, true, 0b010));
    assert!(media_control_available(&None, true, 0b010));
    assert!(!media_active(&source, true, "song"));
    assert!(media_active(&None, true, "song"));
    assert!(!media_active(&None, false, "song"));
    assert_eq!(audio_target_app_id(&source, true, "spotify"), "");
    assert_eq!(audio_target_app_id(&None, true, "spotify"), "spotify");
    assert_eq!(audio_target_app_id(&None, false, "spotify"), "");
}

#[test]
fn displays_and_theme() {
    assert_eq!(monitor_labels(&Vec::new()), vec!["Primary".to_string()]);
    let devices = vec![
        DisplayDevice { name: "\\\\.\\DISPLAY1".to_string(), friendly: Some("Dell".to_string()) },
        DisplayDevice { name: "\\\\.\\DISPLAY2".to_string(), friendly: Some(String::new()) },
    ];
    assert_eq!(monitor_labels(&devices), vec!["Display 1: Dell".to_string(), "Display 2: \\\\.\\DISPLAY2".to_string()]);
    assert!(theme_is_light("light", Some(false)));
    assert!(!theme_is_light("dark", Some(true)));
    assert!(theme_is_light("system", Some(true)));
    assert!(!theme_is_light("system", None));
    let mut last = 3;
    assert!(!accept_revision(&mut last, 3));
    assert!(accept_revision(&mut last, 4));
    assert_eq!(last, 4);
}

#[test]
fn markdown_theme_colors() {
    let theme = SettingsTheme { text_pri: 1, text_sec: 2, accent: 3, control_bg: 4, group_bg: 5, separator: 6 };
    let colors = markdown_colors(&theme);
    assert_eq!((colors.code_background, colors.quote_background, colors.separator), (4, 5, 6));
}

#[test]
fn text_helpers() {
    let mut s = String::from("n=");
    push_decimal(&mut s, 1209);
    assert_eq!(s, "n=1209");
    assert!(starts_with("hello", "he"));
    assert!(!starts_with("h", "he"));
    assert!(eq_ignore_ascii_case("AbC", "aBc"));
    assert!(!eq_ignore_ascii_case("Ä", "ä"));
    assert!(str_eq("x", "x"));
    let mut buffer = [9u8; 6];
    copy_text(&mut buffer, "héllo");
    assert_eq!(&buffer, &[b'h', 0xc3, 0xa9, b'l', b'l', 9]);
    let mut small = [7u8; 3];
    copy_text(&mut small, "é€");
    assert_eq!(&small, &[0xc3, 0xa9, 7]);
    let mut tiny = [5u8; 2];
    copy_text(&mut tiny, "€");
    assert_eq!(&tiny, &[5, 5]);
    let mut none: [u8; 0] = [];
    copy_text(&mut none, "abc");
}

fn offer(format: ColorFormat, color_space: i32) -> SurfaceFormat {
    SurfaceFormat { format, color_space }
}

#[test]
fn surface_format_choice() {
    assert_eq!(
        choose_surface_format(&vec![offer(ColorFormat::Undefined, 3)]),
        Ok(offer(ColorFormat::Bgra8Unorm, 3))
    );
    assert_eq!(
        choose_surface_format(&vec![
            offer(ColorFormat::Other(50), 0),
            offer(ColorFormat::Rgba8Unorm, 1),
            offer(ColorFormat::Bgra8Unorm, 2),
            offer(ColorFormat::Bgra8Unorm, 4),
        ]),
        Ok(offer(ColorFormat::Bgra8Unorm, 2))
    );
    assert_eq!(
        choose_surface_format(&vec![offer(ColorFormat::Other(50), 0), offer(ColorFormat::Rgba8Unorm, 1)]),
        Ok(offer(ColorFormat::Rgba8Unorm, 1))
    );
    assert_eq!(
        choose_surface_format(&vec![offer(ColorFormat::Undefined, 0), offer(ColorFormat::Other(9), 0)]),
        Err("Vulkan surface has no Skia-compatible color format".to_string())
    );
    assert!(choose_surface_format(&vec![]).is_err());
}

#[test]
fn merge_keeps_batch_order() {
    let mut detected = vec!["a".to_string()];
    assert!(merge_detected_apps(
        &mut detected,
        &vec!["c".to_string(), "a".to_string(), "d".to_string(), "c".to_string()]
    ));
    assert_eq!(detected, vec!["a".to_string(), "c".to_string(), "d".to_string()]);
}

#[test]
fn unhideable_island_and_position_restore() {
    let mut hide = HideState::default();
    hide.auto = true;
    assert!(!hide.reveal_if_unhideable(true, false));
    assert!(hide.is_hidden());
    assert!(hide.reveal_if_unhideable(false, true));
    assert!(!hide.is_hidden() && hide.fullscreen_reveal_override);
    assert!(!hide.reveal_if_unhideable(false, false));

    let mut restore = Some(750);
    assert!(!take_position_restore(&mut restore, 749));
    assert_eq!(restore, Some(750));
    assert!(take_position_restore(&mut restore, 750));
    assert_eq!(restore, None);
    assert!(!take_position_restore(&mut restore, 10_000));
}
