use winisland_window::number_input::{handle_number_input_key, Key, NumberKeyOutcome};
use winisland_window::page_history::{PageNavigation, SettingsNavigation, PLUGINS_PAGE_INDEX};
use winisland_window::settings_page::{ClickResult, SettingsItem, SettingsPage, StepDirection};

#[derive(Debug, Clone, Copy, PartialEq)]
enum Action {
    Toggle,
    Pick,
}

#[test]
fn page_rows_and_actions_line_up() {
    let mut page: SettingsPage<Action> = SettingsPage::new();
    page.section("Section".to_string());
    page.group_start();
    page.row_switch("Switch".to_string(), true, true, Action::Toggle);
    page.row_label("Label".to_string());
    page.row_source("Choice".to_string(), vec![("A".to_string(), true)], true, Action::Pick);
    page.group_end();
    assert_eq!(page.items().len(), 6);
    assert!(matches!(page.items()[2], SettingsItem::RowSwitch { on: true, .. }));
    assert_eq!(page.action(&ClickResult::Switch(2)), Some(&Action::Toggle));
    assert_eq!(page.action(&ClickResult::SourceButton(4)), Some(&Action::Pick));
    assert_eq!(page.action(&ClickResult::RowButton(3)), None);
    assert_eq!(page.action(&ClickResult::Switch(42)), None);
    assert_eq!(page.action(&ClickResult::NoHit), None);
    assert_eq!(page.into_items().len(), 6);
}

#[test]
fn every_row_builder_adds_one_row() {
    let mut page: SettingsPage<u8> = SettingsPage::new();
    page.row_stepper("Step".to_string(), "1".to_string(), true, 1);
    page.row_button("Btn".to_string(), "Go".to_string(), false, 2);
    page.center_link("Link".to_string(), 0xff0a84ff, 3);
    page.row_app("App".to_string(), false, true, 4);
    page.row_folder("Dir".to_string(), "Pick".to_string(), Some("Clear".to_string()), None, true, 5);
    page.push(SettingsItem::GroupStart);
    page.push_action(SettingsItem::GroupEnd, 7);
    assert_eq!(page.items().len(), 7);
    for (index, expected) in [(0, Some(1)), (4, Some(5)), (5, None), (6, Some(7))] {
        assert_eq!(page.action(&ClickResult::AppItem(index)).copied(), expected);
    }
    assert!(matches!(page.items()[2], SettingsItem::CenterLink { color: 0xff0a84ff, .. }));
}

#[test]
fn click_results() {
    assert_eq!(ClickResult::FolderClear(3).item_index(), Some(3));
    assert_eq!(ClickResult::NoHit.item_index(), None);
    assert_eq!(ClickResult::StepperDec(1).step_direction(), Some(StepDirection::Decrement));
    assert_eq!(ClickResult::StepperInc(1).step_direction(), Some(StepDirection::Increment));
    assert_eq!(ClickResult::StepperValue(1).step_direction(), None);
}

#[test]
fn history_walks_back_and_forward() {
    let mut nav = SettingsNavigation::new();
    assert_eq!(nav.active_page(), 0);
    assert!(!nav.can_navigate_back());
    assert!(!nav.navigate_page_history(PageNavigation::Back));
    assert!(nav.visit_page(2));
    assert!(nav.visit_page(4));
    assert!(nav.navigate_page_history(PageNavigation::Back));
    assert_eq!(nav.active_page(), 2);
    assert!(nav.can_navigate_forward());
    assert!(nav.navigate_page_history(PageNavigation::Forward));
    assert_eq!(nav.active_page(), 4);
    assert!(!nav.navigate_page_history(PageNavigation::Forward));
}

#[test]
fn visiting_drops_forward_history() {
    let mut nav = SettingsNavigation::new();
    nav.visit_page(1);
    nav.visit_page(2);
    nav.navigate_page_history(PageNavigation::Back);
    assert_eq!(nav.active_page(), 1);
    assert!(nav.visit_page(3));
    assert!(!nav.can_navigate_forward());
    nav.navigate_page_history(PageNavigation::Back);
    assert_eq!(nav.active_page(), 1);
    assert!(!nav.visit_page(1));
}

#[test]
fn leaving_plugins_closes_detail() {
    let mut nav = SettingsNavigation::new();
    nav.visit_page(PLUGINS_PAGE_INDEX);
    nav.select_plugin("demo".to_string());
    assert_eq!(nav.selected_plugin_id().map(|s| s.as_str()), Some("demo"));
    nav.visit_page(0);
    assert_eq!(nav.selected_plugin_id(), None);
    nav.navigate_page_history(PageNavigation::Back);
    assert_eq!(nav.active_page(), PLUGINS_PAGE_INDEX);
    nav.select_plugin("demo".to_string());
    nav.close_plugin_detail();
    assert!(nav.plugin_detail_closing());
    nav.finish_plugin_detail_close();
    assert!(!nav.plugin_detail_closing());
    assert_eq!(nav.selected_plugin_id(), None);
}

#[test]
fn number_input_keys() {
    let mut input: Option<String> = None;
    assert!(matches!(handle_number_input_key(&mut input, &Key::Enter), NumberKeyOutcome::NotHandled));
    let mut input = Some("1".to_string());
    assert!(matches!(handle_number_input_key(&mut input, &Key::Character("2.5".to_string())), NumberKeyOutcome::Edited));
    assert_eq!(input.as_deref(), Some("12.5"));
    assert!(matches!(handle_number_input_key(&mut input, &Key::Character("a".to_string())), NumberKeyOutcome::NotHandled));
    assert_eq!(input.as_deref(), Some("12.5"));
    assert!(matches!(handle_number_input_key(&mut input, &Key::Backspace), NumberKeyOutcome::Edited));
    assert_eq!(input.as_deref(), Some("12."));
    assert!(matches!(handle_number_input_key(&mut input, &Key::Other), NumberKeyOutcome::NotHandled));
    match handle_number_input_key(&mut input, &Key::Enter) {
        NumberKeyOutcome::Commit(text) => assert_eq!(text, "12."),
        other => panic!("unexpected {other:?}"),
    }
    assert_eq!(input, None);
    let mut input = Some(String::new());
    assert!(matches!(handle_number_input_key(&mut input, &Key::Backspace), NumberKeyOutcome::Edited));
    assert_eq!(input.as_deref(), Some(""));
    assert!(matches!(handle_number_input_key(&mut input, &Key::Escape), NumberKeyOutcome::Cancelled));
    assert_eq!(input, None);
}

#[test]
fn digit_then_backspace_restores() {
    let mut input = Some("-4".to_string());
    handle_number_input_key(&mut input, &Key::Character("7".to_string()));
    handle_number_input_key(&mut input, &Key::Backspace);
    assert_eq!(input.as_deref(), Some("-4"));
}
