use winisland_window::plugin_sync::{find_widget, stale_ids, widget_needs_update, WidgetSummary};
use winisland_window::caches::{
    clear_cache, clear_plugin_icon_cache, clear_plugin_settings_icon_cache, clear_sidebar_icon_cache,
    KeyedCache, NamedCache, LAYOUT_CACHE_LIMIT,
};
use winisland_window::plugins::{
    find_installed_plugin, marketplace_action, marketplace_subtitle, safe_github_url,
    selected_detail_plugin, selection_survives, uninstall_click, DetailPlugin, InstalledPlugin,
    MarketplaceAction, MarketplacePlugin, MarketplaceViewState, PluginPageTab, PluginPanel,
    PluginSettingsRequest,
};

fn installed(id: &str, enabled: bool) -> InstalledPlugin {
    InstalledPlugin {
        id: id.to_string(),
        name: format!("{id} name"),
        author: "Ann".to_string(),
        version: "1.0".to_string(),
        description: "desc".to_string(),
        github_link: "https://github.com/ann/x".to_string(),
        readme: None,
        enabled,
    }
}

fn listing(id: &str, categories: &[&str], revoked: bool) -> MarketplacePlugin {
    MarketplacePlugin {
        id: id.to_string(),
        name: format!("{id} name"),
        author: "Bo".to_string(),
        version: "2.1".to_string(),
        description: "d".to_string(),
        repository: "https://gitlab.com/bo/y".to_string(),
        readme: "# R".to_string(),
        categories: categories.iter().map(|c| c.to_string()).collect(),
        revoked_reason: revoked.then(|| "bad".to_string()),
    }
}

#[test]
fn action_labels_and_availability() {
    assert_eq!(MarketplaceAction::Install.label(), "plugin_marketplace_install");
    assert_eq!(MarketplaceAction::Downloading.label(), "plugin_marketplace_pending");
    assert_eq!(MarketplaceAction::Revoked.label(), "plugin_marketplace_revoked");
    assert!(MarketplaceAction::Install.is_available());
    assert!(MarketplaceAction::Update.is_available());
    assert!(!MarketplaceAction::Installed.is_available());
    assert!(!MarketplaceAction::Incompatible.is_available());
}

#[test]
fn marketplace_action_precedence() {
    let plugin = listing("Demo", &[], false);
    assert_eq!(marketplace_action(&Some("demo".to_string()), &plugin, false, None), MarketplaceAction::Downloading);
    assert_eq!(marketplace_action(&None, &listing("x", &[], true), true, None), MarketplaceAction::Revoked);
    assert_eq!(marketplace_action(&None, &plugin, false, Some(true)), MarketplaceAction::Incompatible);
    assert_eq!(marketplace_action(&None, &plugin, true, Some(true)), MarketplaceAction::Update);
    assert_eq!(marketplace_action(&None, &plugin, true, Some(false)), MarketplaceAction::Installed);
    assert_eq!(marketplace_action(&Some("other".to_string()), &plugin, true, None), MarketplaceAction::Install);
}

#[test]
fn installed_lookup_ignores_ascii_case() {
    let list = vec![installed("alpha", true), installed("Beta", false), installed("beta", true)];
    assert_eq!(find_installed_plugin(&list, "BETA"), Some(1));
    assert_eq!(find_installed_plugin(&list, "gamma"), None);
}

#[test]
fn subtitles() {
    assert_eq!(marketplace_subtitle(&listing("a", &["Tools", "Fun"], false)), "Bo · v2.1 · Tools");
    assert_eq!(marketplace_subtitle(&listing("a", &[], false)), "Bo · v2.1");
}

#[test]
fn detail_accessors() {
    let mut p = installed("x", true);
    let detail = DetailPlugin::Installed(p.duplicate());
    assert_eq!(detail.name(), "x name");
    assert_eq!(detail.author(), "Ann");
    assert_eq!(detail.version(), "1.0");
    assert_eq!(detail.description(), "desc");
    assert_eq!(detail.repository(), "https://github.com/ann/x");
    assert_eq!(detail.readme(), "");
    p.readme = Some("hi".to_string());
    assert_eq!(DetailPlugin::Installed(p).readme(), "hi");
    let market = DetailPlugin::Marketplace(listing("m", &[], false));
    assert_eq!(market.repository(), "https://gitlab.com/bo/y");
    assert_eq!(market.readme(), "# R");
}

#[test]
fn github_urls() {
    assert!(safe_github_url("https://github.com/a/b"));
    assert!(!safe_github_url("http://github.com/a/b"));
    assert!(!safe_github_url("https://github.co/a"));
}

#[test]
fn detail_selection() {
    let list = vec![installed("a", true), installed("b", false)];
    let market = MarketplaceViewState::Loaded(vec![listing("b", &[], false)]);
    let sel = Some("b".to_string());
    match selected_detail_plugin(&sel, PluginPageTab::Installed, &list, &market) {
        Some(DetailPlugin::Installed(p)) => assert!(!p.enabled),
        other => panic!("unexpected {other:?}"),
    }
    match selected_detail_plugin(&sel, PluginPageTab::Marketplace, &list, &market) {
        Some(DetailPlugin::Marketplace(p)) => assert_eq!(p.author, "Bo"),
        other => panic!("unexpected {other:?}"),
    }
    assert!(selected_detail_plugin(&sel, PluginPageTab::Marketplace, &list, &MarketplaceViewState::Loading).is_none());
    assert!(selected_detail_plugin(&None, PluginPageTab::Installed, &list, &market).is_none());
    assert!(selection_survives(&sel, &list));
    assert!(!selection_survives(&Some("z".to_string()), &list));
    assert!(selection_survives(&None, &list));
}

#[test]
fn uninstall_takes_two_clicks() {
    let mut pending = None;
    let id = "x".to_string();
    assert!(!uninstall_click(&mut pending, &id));
    assert_eq!(pending.as_deref(), Some("x"));
    assert!(!uninstall_click(&mut pending, &"y".to_string()));
    assert_eq!(pending.as_deref(), Some("y"));
    assert!(!uninstall_click(&mut pending, &id));
    assert!(uninstall_click(&mut pending, &id));
    assert_eq!(pending, None);
}

#[test]
fn panel_tabs_and_requests() {
    let mut panel = PluginPanel::new();
    assert_eq!(panel.entry_count(3), 3);
    assert!(!panel.switch_plugin_tab(PluginPageTab::Installed));
    assert!(panel.switch_plugin_tab(PluginPageTab::Marketplace));
    assert!(matches!(panel.marketplace_state, MarketplaceViewState::Loading));
    assert!(matches!(panel.take_plugin_request(), Some(PluginSettingsRequest::LoadMarketplace)));
    assert!(panel.take_plugin_request().is_none());
    assert_eq!(panel.entry_count(3), 0);
    panel.set_marketplace_catalog(vec![listing("a", &[], false), listing("b", &[], false)]);
    assert_eq!(panel.entry_count(3), 2);
    panel.set_marketplace_loading();
    assert!(matches!(panel.marketplace_state, MarketplaceViewState::Loaded(_)));
    panel.switch_plugin_tab(PluginPageTab::Installed);
    panel.switch_plugin_tab(PluginPageTab::Marketplace);
    assert!(matches!(panel.marketplace_state, MarketplaceViewState::Loaded(_)));
    assert!(matches!(panel.take_plugin_request(), Some(PluginSettingsRequest::LoadMarketplace)));
    panel.set_marketplace_error("down".to_string());
    assert!(matches!(&panel.marketplace_state, MarketplaceViewState::Failed(e) if e == "down"));
    panel.retry_marketplace();
    assert!(matches!(panel.marketplace_state, MarketplaceViewState::Loading));
    panel.install_marketplace(listing("c", &[], false));
    assert_eq!(panel.marketplace_installing_id.as_deref(), Some("c"));
    panel.finish_marketplace_install();
    assert_eq!(panel.marketplace_installing_id, None);
    panel.toggle_installed(&installed("t", true));
    assert!(matches!(panel.take_plugin_request(), Some(PluginSettingsRequest::SetEnabled { enabled: false, .. })));
    let victim = installed("v", true);
    assert!(!panel.click_uninstall(&victim));
    assert!(panel.click_uninstall(&victim));
    assert!(matches!(panel.take_plugin_request(), Some(PluginSettingsRequest::Uninstall { id }) if id == "v"));
    panel.handle_plugin_file_drop("p.zip".to_string(), "Installing".to_string());
    assert_eq!(panel.plugin_status, Some(("Installing".to_string(), false)));
    assert!(matches!(panel.take_plugin_request(), Some(PluginSettingsRequest::Install(p)) if p == "p.zip"));
    panel.set_plugin_status("Done".to_string(), true);
    panel.request_restart();
    assert!(matches!(panel.take_plugin_request(), Some(PluginSettingsRequest::Restart)));
}

#[test]
fn caches_keep_and_forget() {
    let mut layouts: KeyedCache<u32> = KeyedCache::new();
    for key in 0..LAYOUT_CACHE_LIMIT as u64 {
        layouts.insert_bounded(key, key as u32, LAYOUT_CACHE_LIMIT);
    }
    assert_eq!(layouts.len(), LAYOUT_CACHE_LIMIT);
    layouts.insert_bounded(99, 7, LAYOUT_CACHE_LIMIT);
    assert_eq!(layouts.len(), 1);
    assert_eq!(layouts.get(99), Some(&7));
    assert_eq!(layouts.get(0), None);
    let mut icons: NamedCache<u8> = NamedCache::new();
    icons.insert("a".to_string(), 1);
    icons.insert("b".to_string(), 2);
    icons.insert("a".to_string(), 3);
    assert_eq!(icons.get("a"), Some(&3));
    assert_eq!(icons.get("b"), Some(&2));
    clear_plugin_icon_cache(&mut icons, &mut layouts);
    assert_eq!(icons.get("a"), None);
    assert_eq!(layouts.len(), 0);
    layouts.insert(5, 5);
    clear_cache(&mut layouts);
    assert_eq!(layouts.get(5), None);
    let mut settings_icons: KeyedCache<u8> = KeyedCache::new();
    settings_icons.insert(1, 1);
    clear_plugin_settings_icon_cache(&mut settings_icons);
    assert_eq!(settings_icons.len(), 0);
    let mut sidebar = Some(vec![1u8, 2]);
    clear_sidebar_icon_cache(&mut sidebar);
    assert_eq!(sidebar, None);
}

fn summary(id: u64, title: &str) -> WidgetSummary {
    WidgetSummary {
        id,
        plugin_id: "clock".to_string(),
        key: "main".to_string(),
        span_cols: 2,
        span_rows: 1,
        title: title.to_string(),
        body: String::new(),
    }
}

#[test]
fn stale_ids_are_the_vanished_ones() {
    assert_eq!(stale_ids(&vec![1, 2, 3, 4], &vec![2, 4, 5]), vec![1, 3]);
    assert_eq!(stale_ids(&vec![], &vec![2]), Vec::<u64>::new());
    assert_eq!(stale_ids(&vec![7, 7], &vec![]), vec![7, 7]);
    assert_eq!(stale_ids(&vec![9], &vec![9]), Vec::<u64>::new());
}

#[test]
fn widget_updates_follow_changes() {
    let old = summary(1, "Clock");
    assert!(widget_needs_update(None, &old));
    assert!(!widget_needs_update(Some(&old), &summary(1, "Clock")));
    assert!(widget_needs_update(Some(&old), &summary(1, "Timer")));
    let wider = WidgetSummary { span_cols: 3, ..summary(1, "Clock") };
    assert!(widget_needs_update(Some(&old), &wider));
    let widgets = vec![summary(4, "a"), summary(6, "b"), summary(6, "c")];
    assert_eq!(find_widget(&widgets, 6), Some(1));
    assert_eq!(find_widget(&widgets, 5), None);
}
