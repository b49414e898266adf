//! Plugin pages: the installed list, the marketplace and the detail panel.
use crate::markdown_events::opt_string_view;
use crate::media::strings_view;
use crate::text::{eq_ignore_ascii_case, eq_ignore_ascii_case_spec, starts_with, str_eq};
use vstd::prelude::*;

verus! {

/// What the settings window knows of an installed plugin.
#[derive(Debug)]
pub struct InstalledPlugin {
    pub id: String,
    pub name: String,
    pub author: String,
    pub version: String,
    pub description: String,
    pub github_link: String,
    pub readme: Option<String>,
    pub enabled: bool,
}

/// What the settings window knows of a marketplace listing.
#[derive(Debug)]
pub struct MarketplacePlugin {
    pub id: String,
    pub name: String,
    pub author: String,
    pub version: String,
    pub description: String,
    pub repository: String,
    pub readme: String,
    pub categories: Vec<String>,
    pub revoked_reason: Option<String>,
}

/// The action button of a marketplace listing.
#[derive(Clone, Copy, PartialEq, Eq, Structural, Debug)]
pub enum MarketplaceAction {
    Install,
    Update,
    Downloading,
    Installed,
    Incompatible,
    Revoked,
}

/// The message key of each marketplace action's label.
pub open spec fn action_label_key(action: MarketplaceAction) -> Seq<char> {
    match action {
        MarketplaceAction::Install => "plugin_marketplace_install"@,
        MarketplaceAction::Update => "plugin_marketplace_update"@,
        MarketplaceAction::Downloading => "plugin_marketplace_pending"@,
        MarketplaceAction::Installed => "plugin_marketplace_installed"@,
        MarketplaceAction::Incompatible => "plugin_marketplace_incompatible"@,
        MarketplaceAction::Revoked => "plugin_marketplace_revoked"@,
    }
}

impl MarketplaceAction {
    /// The message key of the button label; the window translates it.
    pub fn label(self) -> (key: &'static str)
        ensures
            key@ == action_label_key(self),
    {
        match self {
            MarketplaceAction::Install => "plugin_marketplace_install",
            MarketplaceAction::Update => "plugin_marketplace_update",
            MarketplaceAction::Downloading => "plugin_marketplace_pending",
            MarketplaceAction::Installed => "plugin_marketplace_installed",
            MarketplaceAction::Incompatible => "plugin_marketplace_incompatible",
            MarketplaceAction::Revoked => "plugin_marketplace_revoked",
        }
    }

    /// Only installing and updating can be started from the button.
    pub fn is_available(self) -> (available: bool)
        ensures
            available == (self == MarketplaceAction::Install || self == MarketplaceAction::Update),
    {
        match self {
            MarketplaceAction::Install | MarketplaceAction::Update => true,
            _ => false,
        }
    }
}

/// The position of the first installed plugin whose id equals `id` up to
/// ASCII case.
pub fn find_installed_plugin(installed: &Vec<InstalledPlugin>, id: &str) -> (found: Option<usize>)
    ensures
        match found {
            Some(i) => i < installed@.len() && eq_ignore_ascii_case_spec(installed@[i as int].id@, id@)
                && forall|j: int| 0 <= j < i ==> !eq_ignore_ascii_case_spec(#[trigger] installed@[j].id@, id@),
            None => forall|j: int|
                0 <= j < installed@.len() ==> !eq_ignore_ascii_case_spec(#[trigger] installed@[j].id@, id@),
        },
{
    let mut i: usize = 0;
    while i < installed.len()
        invariant
            i <= installed@.len(),
            forall|j: int| 0 <= j < i ==> !eq_ignore_ascii_case_spec(#[trigger] installed@[j].id@, id@),
        decreases installed@.len() - i,
    {
        if eq_ignore_ascii_case(installed[i].id.as_str(), id) {
            return Some(i);
        }
        i += 1;
    }
    None
}

/// The action a marketplace listing offers.  `compatible` says whether the
/// plugin suits this host; `installed` is `None` when no installed plugin
/// has its id, and otherwise whether the listing updates that plugin.
pub open spec fn marketplace_action_spec(
    installing: bool,
    revoked: bool,
    compatible: bool,
    installed: Option<bool>,
) -> MarketplaceAction {
    if installing {
        MarketplaceAction::Downloading
    } else if revoked {
        MarketplaceAction::Revoked
    } else if !compatible {
        MarketplaceAction::Incompatible
    } else {
        match installed {
            Some(true) => MarketplaceAction::Update,
            Some(false) => MarketplaceAction::Installed,
            None => MarketplaceAction::Install,
        }
    }
}

/// Whether a download of `plugin` is running: the id being installed equals
/// the listing's id up to ASCII case.
pub open spec fn installing_spec(installing_id: Option<Seq<char>>, plugin_id: Seq<char>) -> bool {
    match installing_id {
        Some(id) => eq_ignore_ascii_case_spec(id, plugin_id),
        None => false,
    }
}

/// The action a marketplace listing offers: a running download first, then a
/// revoked listing, then an incompatible one; otherwise update, installed or
/// install, by whether and how the plugin is installed.
pub fn marketplace_action(
    installing_id: &Option<String>,
    plugin: &MarketplacePlugin,
    compatible: bool,
    installed: Option<bool>,
) -> (action: MarketplaceAction)
    ensures
        action == marketplace_action_spec(
            installing_spec(crate::markdown_events::opt_string_view(*installing_id), plugin.id@),
            plugin.revoked_reason is Some,
            compatible,
            installed,
        ),
{
    let installing = match installing_id {
        Some(id) => eq_ignore_ascii_case(id.as_str(), plugin.id.as_str()),
        None => false,
    };
    if installing {
        return MarketplaceAction::Downloading;
    }
    if plugin.revoked_reason.is_some() {
        return MarketplaceAction::Revoked;
    }
    if !compatible {
        return MarketplaceAction::Incompatible;
    }
    match installed {
        Some(true) => MarketplaceAction::Update,
        Some(false) => MarketplaceAction::Installed,
        None => MarketplaceAction::Install,
    }
}

/// The second line of a marketplace card: author and version, and the first
/// category when there is one.
pub open spec fn subtitle_spec(author: Seq<char>, version: Seq<char>, category: Option<Seq<char>>) -> Seq<
    char,
> {
    match category {
        Some(c) => author + " · v"@ + version + " · "@ + c,
        None => author + " · v"@ + version,
    }
}

/// The second line of a marketplace card.
pub fn marketplace_subtitle(plugin: &MarketplacePlugin) -> (subtitle: String)
    ensures
        subtitle@ == subtitle_spec(
            plugin.author@,
            plugin.version@,
            if plugin.categories@.len() > 0 {
                Some(plugin.categories@[0]@)
            } else {
                None
            },
        ),
{
    let mut subtitle = plugin.author.clone();
    subtitle.append(" · v");
    subtitle.append(plugin.version.as_str());
    if plugin.categories.len() > 0 {
        subtitle.append(" · ");
        subtitle.append(plugin.categories[0].as_str());
    }
    proof {
        reveal_strlit(" · v");
        reveal_strlit(" · ");
    }
    subtitle
}

/// A plugin shown in the detail panel.
#[derive(Debug)]
pub enum DetailPlugin {
    Installed(InstalledPlugin),
    Marketplace(MarketplacePlugin),
}

impl DetailPlugin {
    /// The plugin's name.
    pub fn name(&self) -> (name: &str)
        ensures
            name@ == match self {
                DetailPlugin::Installed(p) => p.name@,
                DetailPlugin::Marketplace(p) => p.name@,
            },
    {
        match self {
            DetailPlugin::Installed(plugin) => plugin.name.as_str(),
            DetailPlugin::Marketplace(plugin) => plugin.name.as_str(),
        }
    }

    /// The plugin's author.
    pub fn author(&self) -> (author: &str)
        ensures
            author@ == match self {
                DetailPlugin::Installed(p) => p.author@,
                DetailPlugin::Marketplace(p) => p.author@,
            },
    {
        match self {
            DetailPlugin::Installed(plugin) => plugin.author.as_str(),
            DetailPlugin::Marketplace(plugin) => plugin.author.as_str(),
        }
    }

    /// The plugin's version.
    pub fn version(&self) -> (version: &str)
        ensures
            version@ == match self {
                DetailPlugin::Installed(p) => p.version@,
                DetailPlugin::Marketplace(p) => p.version@,
            },
    {
        match self {
            DetailPlugin::Installed(plugin) => plugin.version.as_str(),
            DetailPlugin::Marketplace(plugin) => plugin.version.as_str(),
        }
    }

    /// The plugin's markdown description.
    pub fn description(&self) -> (description: &str)
        ensures
            description@ == match self {
                DetailPlugin::Installed(p) => p.description@,
                DetailPlugin::Marketplace(p) => p.description@,
            },
    {
        match self {
            DetailPlugin::Installed(plugin) => plugin.description.as_str(),
            DetailPlugin::Marketplace(plugin) => plugin.description.as_str(),
        }
    }

    /// The plugin's source repository: the GitHub link of an installed plugin,
    /// the repository of a listing.
    pub fn repository(&self) -> (repository: &str)
        ensures
            repository@ == match self {
                DetailPlugin::Installed(p) => p.github_link@,
                DetailPlugin::Marketplace(p) => p.repository@,
            },
    {
        match self {
            DetailPlugin::Installed(plugin) => plugin.github_link.as_str(),
            DetailPlugin::Marketplace(plugin) => plugin.repository.as_str(),
        }
    }

    /// The plugin's read-me; an installed plugin without one has an empty one.
    pub fn readme(&self) -> (readme: &str)
        ensures
            readme@ == match self {
                DetailPlugin::Installed(p) => match p.readme {
                    Some(r) => r@,
                    None => Seq::<char>::empty(),
                },
                DetailPlugin::Marketplace(p) => p.readme@,
            },
    {
        match self {
            DetailPlugin::Installed(plugin) => match &plugin.readme {
                Some(readme) => readme.as_str(),
                None => {
                    proof {
                        reveal_strlit("");
                    }
                    ""
                },
            },
            DetailPlugin::Marketplace(plugin) => plugin.readme.as_str(),
        }
    }
}

/// Only links into GitHub over HTTPS get an "open on GitHub" button.
pub fn safe_github_url(url: &str) -> (safe: bool)
    ensures
        safe == (url@.len() >= "https://github.com/"@.len() && url@.subrange(
            0,
            "https://github.com/"@.len() as int,
        ) == "https://github.com/"@),
{
    starts_with(url, "https://github.com/")
}

/// A click on an installed plugin's uninstall button: a click on the plugin
/// whose uninstall is armed confirms it (and disarms); any other click arms
/// the button for the clicked plugin.  Answers the pending id afterwards and
/// whether the uninstall was confirmed.
pub open spec fn uninstall_click_spec(pending: Option<Seq<char>>, id: Seq<char>) -> (Option<Seq<char>>, bool) {
    if pending == Some(id) {
        (None, true)
    } else {
        (Some(id), false)
    }
}

/// Handles a click on an installed plugin's uninstall button; answers whether
/// the uninstall is confirmed and should be requested.
pub fn uninstall_click(pending_uninstall_id: &mut Option<String>, id: &String) -> (confirmed: bool)
    ensures
        (crate::markdown_events::opt_string_view(*final(pending_uninstall_id)), confirmed)
            == uninstall_click_spec(crate::markdown_events::opt_string_view(*old(pending_uninstall_id)), id@),
{
    let confirmed = match &*pending_uninstall_id {
        Some(pending) => pending.eq(id),
        None => false,
    };
    if confirmed {
        *pending_uninstall_id = None;
    } else {
        *pending_uninstall_id = Some(id.clone());
    }
    confirmed
}

/// Uninstalling takes two clicks on the same plugin: from a disarmed button
/// the first click only arms it, the second confirms; a click on another
/// plugin in between re-arms for that plugin instead.
pub proof fn lemma_uninstall_needs_two_clicks(id: Seq<char>, other: Seq<char>)
    requires
        other != id,
    ensures
        uninstall_click_spec(None, id) == (Some(id), false),
        uninstall_click_spec(uninstall_click_spec(None, id).0, id) == (None::<Seq<char>>, true),
        uninstall_click_spec(uninstall_click_spec(None, id).0, other) == (Some(other), false),
{
}


fn clone_strings(list: &Vec<String>) -> (copy: Vec<String>)
    ensures
        strings_view(copy@) == strings_view(list@),
{
    let mut copy: Vec<String> = Vec::new();
    let mut i: usize = 0;
    while i < list.len()
        invariant
            i <= list@.len(),
            strings_view(copy@) == strings_view(list@).take(i as int),
        decreases list@.len() - i,
    {
        let ghost before = copy@;
        copy.push(list[i].clone());
        assert(strings_view(copy@) =~= strings_view(before).push(list@[i as int]@));
        assert(strings_view(copy@) =~= strings_view(list@).take(i + 1));
        i += 1;
    }
    assert(strings_view(list@).take(list@.len() as int) =~= strings_view(list@));
    copy
}

fn clone_opt(o: &Option<String>) -> (copy: Option<String>)
    ensures
        opt_string_view(copy) == opt_string_view(*o),
{
    match o {
        Some(s) => Some(s.clone()),
        None => None,
    }
}

/// Whether two installed-plugin records hold the same texts and state.
pub open spec fn same_installed(a: InstalledPlugin, b: InstalledPlugin) -> bool {
    &&& a.id@ == b.id@
    &&& a.name@ == b.name@
    &&& a.author@ == b.author@
    &&& a.version@ == b.version@
    &&& a.description@ == b.description@
    &&& a.github_link@ == b.github_link@
    &&& opt_string_view(a.readme) == opt_string_view(b.readme)
    &&& a.enabled == b.enabled
}

/// Whether two marketplace listings hold the same texts.
pub open spec fn same_listing(a: MarketplacePlugin, b: MarketplacePlugin) -> bool {
    &&& a.id@ == b.id@
    &&& a.name@ == b.name@
    &&& a.author@ == b.author@
    &&& a.version@ == b.version@
    &&& a.description@ == b.description@
    &&& a.repository@ == b.repository@
    &&& a.readme@ == b.readme@
    &&& strings_view(a.categories@) == strings_view(b.categories@)
    &&& opt_string_view(a.revoked_reason) == opt_string_view(b.revoked_reason)
}

impl InstalledPlugin {
    /// A copy of this record.
    pub fn duplicate(&self) -> (copy: InstalledPlugin)
        ensures
            same_installed(copy, *self),
    {
        InstalledPlugin {
            id: self.id.clone(),
            name: self.name.clone(),
            author: self.author.clone(),
            version: self.version.clone(),
            description: self.description.clone(),
            github_link: self.github_link.clone(),
            readme: clone_opt(&self.readme),
            enabled: self.enabled,
        }
    }
}

impl MarketplacePlugin {
    /// A copy of this listing.
    pub fn duplicate(&self) -> (copy: MarketplacePlugin)
        ensures
            same_listing(copy, *self),
    {
        MarketplacePlugin {
            id: self.id.clone(),
            name: self.name.clone(),
            author: self.author.clone(),
            version: self.version.clone(),
            description: self.description.clone(),
            repository: self.repository.clone(),
            readme: self.readme.clone(),
            categories: clone_strings(&self.categories),
            revoked_reason: clone_opt(&self.revoked_reason),
        }
    }
}

/// The two tabs of the plugins page.
#[derive(Clone, Copy, PartialEq, Eq, Structural, Debug)]
pub enum PluginPageTab {
    Installed,
    Marketplace,
}

/// Where the marketplace catalogue stands.
#[derive(Debug)]
pub enum MarketplaceViewState {
    NotLoaded,
    Loading,
    Loaded(Vec<MarketplacePlugin>),
    Failed(String),
}

/// What the settings window asks the application to do for plugins.
#[derive(Debug)]
pub enum PluginSettingsRequest {
    Install(String),
    LoadMarketplace,
    InstallMarketplace(MarketplacePlugin),
    SetEnabled { id: String, enabled: bool },
    Uninstall { id: String },
    Restart,
}

/// The first plugin with exactly the id `id`.
fn position_by_id(installed: &Vec<InstalledPlugin>, id: &String) -> (found: Option<usize>)
    ensures
        match found {
            Some(i) => i < installed@.len() && installed@[i as int].id@ == id@ && forall|j: int|
                0 <= j < i ==> (#[trigger] installed@[j]).id@ != id@,
            None => forall|j: int| 0 <= j < installed@.len() ==> (#[trigger] installed@[j]).id@ != id@,
        },
{
    let mut i: usize = 0;
    while i < installed.len()
        invariant
            i <= installed@.len(),
            forall|j: int| 0 <= j < i ==> (#[trigger] installed@[j]).id@ != id@,
        decreases installed@.len() - i,
    {
        if str_eq(installed[i].id.as_str(), id.as_str()) {
            return Some(i);
        }
        i += 1;
    }
    None
}

fn listing_by_id(listings: &Vec<MarketplacePlugin>, id: &String) -> (found: Option<usize>)
    ensures
        match found {
            Some(i) => i < listings@.len() && listings@[i as int].id@ == id@ && forall|j: int|
                0 <= j < i ==> (#[trigger] listings@[j]).id@ != id@,
            None => forall|j: int| 0 <= j < listings@.len() ==> (#[trigger] listings@[j]).id@ != id@,
        },
{
    let mut i: usize = 0;
    while i < listings.len()
        invariant
            i <= listings@.len(),
            forall|j: int| 0 <= j < i ==> (#[trigger] listings@[j]).id@ != id@,
        decreases listings@.len() - i,
    {
        if str_eq(listings[i].id.as_str(), id.as_str()) {
            return Some(i);
        }
        i += 1;
    }
    None
}

/// The plugin the detail panel shows: on the installed tab the first
/// installed plugin with the selected id, on the marketplace tab the first
/// loaded listing with it; nothing without a selection or a match.
pub fn selected_detail_plugin(
    selected_id: &Option<String>,
    tab: PluginPageTab,
    installed: &Vec<InstalledPlugin>,
    marketplace: &MarketplaceViewState,
) -> (plugin: Option<DetailPlugin>)
    ensures
        match *selected_id {
            None => plugin is None,
            Some(id) => match tab {
                PluginPageTab::Installed => match plugin {
                    Some(DetailPlugin::Installed(p)) => exists|i: int|
                        0 <= i < installed@.len() && installed@[i].id@ == id@ && same_installed(
                            p,
                            installed@[i],
                        ) && forall|j: int| 0 <= j < i ==> (#[trigger] installed@[j]).id@ != id@,
                    Some(DetailPlugin::Marketplace(_)) => false,
                    None => forall|j: int| 0 <= j < installed@.len() ==> (#[trigger] installed@[j]).id@ != id@,
                },
                PluginPageTab::Marketplace => match *marketplace {
                    MarketplaceViewState::Loaded(listings) => match plugin {
                        Some(DetailPlugin::Marketplace(p)) => exists|i: int|
                            0 <= i < listings@.len() && listings@[i].id@ == id@ && same_listing(
                                p,
                                listings@[i],
                            ) && forall|j: int| 0 <= j < i ==> (#[trigger] listings@[j]).id@ != id@,
                        Some(DetailPlugin::Installed(_)) => false,
                        None => forall|j: int|
                            0 <= j < listings@.len() ==> (#[trigger] listings@[j]).id@ != id@,
                    },
                    _ => plugin is None,
                },
            },
        },
{
    let id = match selected_id {
        Some(id) => id,
        None => return None,
    };
    match tab {
        PluginPageTab::Installed => match position_by_id(installed, id) {
            Some(i) => Some(DetailPlugin::Installed(installed[i].duplicate())),
            None => None,
        },
        PluginPageTab::Marketplace => match marketplace {
            MarketplaceViewState::Loaded(listings) => match listing_by_id(listings, id) {
                Some(i) => Some(DetailPlugin::Marketplace(listings[i].duplicate())),
                None => None,
            },
            _ => None,
        },
    }
}

/// Whether the plugin selected for the detail panel is still installed
/// after the installed list changed; no selection always survives.
pub fn selection_survives(selected_id: &Option<String>, plugins: &Vec<InstalledPlugin>) -> (survives: bool)
    ensures
        survives == match *selected_id {
            Some(id) => exists|i: int| 0 <= i < plugins@.len() && (#[trigger] plugins@[i]).id@ == id@,
            None => true,
        },
{
    match selected_id {
        Some(id) => position_by_id(plugins, id).is_some(),
        None => true,
    }
}

/// The state of the plugins page besides the detail panel's selection.
pub struct PluginPanel {
    pub tab: PluginPageTab,
    pub marketplace_state: MarketplaceViewState,
    pub marketplace_installing_id: Option<String>,
    pub pending_plugin_uninstall_id: Option<String>,
    pub plugin_status: Option<(String, bool)>,
    pub plugin_request: Option<PluginSettingsRequest>,
}

/// The number of cards the current tab lists.
pub open spec fn entry_count_spec(
    tab: PluginPageTab,
    marketplace: MarketplaceViewState,
    installed_len: nat,
) -> nat {
    match tab {
        PluginPageTab::Installed => installed_len,
        PluginPageTab::Marketplace => match marketplace {
            MarketplaceViewState::Loaded(listings) => listings@.len(),
            _ => 0,
        },
    }
}

impl PluginPanel {
    /// The installed tab, with nothing loaded, pending or requested.
    pub fn new() -> (panel: PluginPanel)
        ensures
            panel.tab == PluginPageTab::Installed,
            panel.marketplace_state is NotLoaded,
            panel.marketplace_installing_id is None,
            panel.pending_plugin_uninstall_id is None,
            panel.plugin_status is None,
            panel.plugin_request is None,
    {
        PluginPanel {
            tab: PluginPageTab::Installed,
            marketplace_state: MarketplaceViewState::NotLoaded,
            marketplace_installing_id: None,
            pending_plugin_uninstall_id: None,
            plugin_status: None,
            plugin_request: None,
        }
    }

    /// The number of cards the current tab lists.
    pub fn entry_count(&self, installed_len: usize) -> (count: usize)
        ensures
            count == entry_count_spec(self.tab, self.marketplace_state, installed_len as nat),
    {
        match self.tab {
            PluginPageTab::Installed => installed_len,
            PluginPageTab::Marketplace => match &self.marketplace_state {
                MarketplaceViewState::Loaded(listings) => listings.len(),
                _ => 0,
            },
        }
    }

    /// Switches tabs; answers whether the tab changed.  Switching disarms a
    /// pending uninstall; arriving at the marketplace asks for the catalogue
    /// unless it is already loading, showing it as loading unless it was
    /// loaded before.
    pub fn switch_plugin_tab(&mut self, tab: PluginPageTab) -> (changed: bool)
        ensures
            changed == (old(self).tab != tab),
            final(self).tab == tab,
            !changed ==> final(self).pending_plugin_uninstall_id == old(self).pending_plugin_uninstall_id
                && final(self).plugin_request == old(self).plugin_request
                && final(self).marketplace_state == old(self).marketplace_state,
            changed ==> final(self).pending_plugin_uninstall_id is None,
            changed && tab == PluginPageTab::Marketplace && !(old(self).marketplace_state is Loading)
                ==> final(self).plugin_request == Some(PluginSettingsRequest::LoadMarketplace)
                && (old(self).marketplace_state is Loaded ==> final(self).marketplace_state
                == old(self).marketplace_state) && (!(old(self).marketplace_state is Loaded)
                ==> final(self).marketplace_state is Loading),
            !(changed && tab == PluginPageTab::Marketplace && !(old(self).marketplace_state is Loading))
                ==> final(self).plugin_request == old(self).plugin_request
                && final(self).marketplace_state == old(self).marketplace_state,
            final(self).marketplace_installing_id == old(self).marketplace_installing_id,
            final(self).plugin_status == old(self).plugin_status,
    {
        if self.tab == tab {
            return false;
        }
        self.tab = tab;
        self.pending_plugin_uninstall_id = None;
        let loading = match self.marketplace_state {
            MarketplaceViewState::Loading => true,
            _ => false,
        };
        if tab == PluginPageTab::Marketplace && !loading {
            let loaded = match self.marketplace_state {
                MarketplaceViewState::Loaded(_) => true,
                _ => false,
            };
            if !loaded {
                self.marketplace_state = MarketplaceViewState::Loading;
            }
            self.plugin_request = Some(PluginSettingsRequest::LoadMarketplace);
        }
        true
    }

    /// The catalogue is being fetched; a loaded catalogue stays shown.
    pub fn set_marketplace_loading(&mut self)
        ensures
            old(self).marketplace_state is Loaded ==> final(self).marketplace_state
                == old(self).marketplace_state,
            !(old(self).marketplace_state is Loaded) ==> final(self).marketplace_state is Loading,
            final(self).tab == old(self).tab,
            final(self).marketplace_installing_id == old(self).marketplace_installing_id,
            final(self).pending_plugin_uninstall_id == old(self).pending_plugin_uninstall_id,
            final(self).plugin_status == old(self).plugin_status,
            final(self).plugin_request == old(self).plugin_request,
    {
        let loaded = match self.marketplace_state {
            MarketplaceViewState::Loaded(_) => true,
            _ => false,
        };
        if !loaded {
            self.marketplace_state = MarketplaceViewState::Loading;
        }
    }

    /// The catalogue arrived.
    pub fn set_marketplace_catalog(&mut self, plugins: Vec<MarketplacePlugin>)
        ensures
            final(self).marketplace_state == MarketplaceViewState::Loaded(plugins),
            final(self).tab == old(self).tab,
            final(self).marketplace_installing_id == old(self).marketplace_installing_id,
            final(self).pending_plugin_uninstall_id == old(self).pending_plugin_uninstall_id,
            final(self).plugin_status == old(self).plugin_status,
            final(self).plugin_request == old(self).plugin_request,
    {
        self.marketplace_state = MarketplaceViewState::Loaded(plugins);
    }

    /// Fetching the catalogue failed.
    pub fn set_marketplace_error(&mut self, error: String)
        ensures
            final(self).marketplace_state == MarketplaceViewState::Failed(error),
            final(self).tab == old(self).tab,
            final(self).marketplace_installing_id == old(self).marketplace_installing_id,
            final(self).pending_plugin_uninstall_id == old(self).pending_plugin_uninstall_id,
            final(self).plugin_status == old(self).plugin_status,
            final(self).plugin_request == old(self).plugin_request,
    {
        self.marketplace_state = MarketplaceViewState::Failed(error);
    }

    /// A marketplace download finished, successfully or not.
    pub fn finish_marketplace_install(&mut self)
        ensures
            final(self).marketplace_installing_id is None,
            final(self).tab == old(self).tab,
            final(self).marketplace_state == old(self).marketplace_state,
            final(self).pending_plugin_uninstall_id == old(self).pending_plugin_uninstall_id,
            final(self).plugin_status == old(self).plugin_status,
            final(self).plugin_request == old(self).plugin_request,
    {
        self.marketplace_installing_id = None;
    }

    /// Shows a status line, optionally with a restart button.
    pub fn set_plugin_status(&mut self, message: String, restart: bool)
        ensures
            final(self).plugin_status == Some((message, restart)),
            final(self).tab == old(self).tab,
            final(self).marketplace_state == old(self).marketplace_state,
            final(self).marketplace_installing_id == old(self).marketplace_installing_id,
            final(self).pending_plugin_uninstall_id == old(self).pending_plugin_uninstall_id,
            final(self).plugin_request == old(self).plugin_request,
    {
        self.plugin_status = Some((message, restart));
    }

    /// Hands over the pending request, leaving none.
    pub fn take_plugin_request(&mut self) -> (request: Option<PluginSettingsRequest>)
        ensures
            request == old(self).plugin_request,
            final(self).plugin_request is None,
            final(self).tab == old(self).tab,
            final(self).marketplace_state == old(self).marketplace_state,
            final(self).marketplace_installing_id == old(self).marketplace_installing_id,
            final(self).pending_plugin_uninstall_id == old(self).pending_plugin_uninstall_id,
            final(self).plugin_status == old(self).plugin_status,
    {
        self.plugin_request.take()
    }

    /// A plugin archive was dropped on the page: it is to be installed, and
    /// the status line says so with `message`.
    pub fn handle_plugin_file_drop(&mut self, path: String, message: String)
        ensures
            final(self).plugin_status == Some((message, false)),
            final(self).plugin_request == Some(PluginSettingsRequest::Install(path)),
            final(self).tab == old(self).tab,
            final(self).marketplace_state == old(self).marketplace_state,
            final(self).marketplace_installing_id == old(self).marketplace_installing_id,
            final(self).pending_plugin_uninstall_id == old(self).pending_plugin_uninstall_id,
    {
        self.plugin_status = Some((message, false));
        self.plugin_request = Some(PluginSettingsRequest::Install(path));
    }

    /// The retry button after a failed load: show loading and fetch again.
    pub fn retry_marketplace(&mut self)
        ensures
            final(self).marketplace_state is Loading,
            final(self).plugin_request == Some(PluginSettingsRequest::LoadMarketplace),
            final(self).tab == old(self).tab,
            final(self).marketplace_installing_id == old(self).marketplace_installing_id,
            final(self).pending_plugin_uninstall_id == old(self).pending_plugin_uninstall_id,
            final(self).plugin_status == old(self).plugin_status,
    {
        self.marketplace_state = MarketplaceViewState::Loading;
        self.plugin_request = Some(PluginSettingsRequest::LoadMarketplace);
    }

    /// Starts installing a listing: it shows as downloading until the install
    /// finishes.
    pub fn install_marketplace(&mut self, plugin: MarketplacePlugin)
        ensures
            opt_string_view(final(self).marketplace_installing_id) == Some(plugin.id@),
            final(self).plugin_request == Some(PluginSettingsRequest::InstallMarketplace(plugin)),
            final(self).tab == old(self).tab,
            final(self).marketplace_state == old(self).marketplace_state,
            final(self).pending_plugin_uninstall_id == old(self).pending_plugin_uninstall_id,
            final(self).plugin_status == old(self).plugin_status,
    {
        self.marketplace_installing_id = Some(plugin.id.clone());
        self.plugin_request = Some(PluginSettingsRequest::InstallMarketplace(plugin));
    }

    /// Asks to switch an installed plugin on or off, the opposite of its state.
    pub fn toggle_installed(&mut self, plugin: &InstalledPlugin)
        ensures
            match final(self).plugin_request {
                Some(PluginSettingsRequest::SetEnabled { id, enabled }) => id@ == plugin.id@ && enabled
                    == !plugin.enabled,
                _ => false,
            },
            final(self).tab == old(self).tab,
            final(self).marketplace_state == old(self).marketplace_state,
            final(self).marketplace_installing_id == old(self).marketplace_installing_id,
            final(self).pending_plugin_uninstall_id == old(self).pending_plugin_uninstall_id,
            final(self).plugin_status == old(self).plugin_status,
    {
        self.plugin_request = Some(PluginSettingsRequest::SetEnabled {
            id: plugin.id.clone(),
            enabled: !plugin.enabled,
        });
    }

    /// A click on an installed plugin's uninstall button: asks for the
    /// uninstall on the confirming click, arms the button otherwise.
    pub fn click_uninstall(&mut self, plugin: &InstalledPlugin) -> (confirmed: bool)
        ensures
            (opt_string_view(final(self).pending_plugin_uninstall_id), confirmed) == uninstall_click_spec(
                opt_string_view(old(self).pending_plugin_uninstall_id),
                plugin.id@,
            ),
            confirmed ==> match final(self).plugin_request {
                Some(PluginSettingsRequest::Uninstall { id }) => id@ == plugin.id@,
                _ => false,
            },
            !confirmed ==> final(self).plugin_request == old(self).plugin_request,
            final(self).tab == old(self).tab,
            final(self).marketplace_state == old(self).marketplace_state,
            final(self).marketplace_installing_id == old(self).marketplace_installing_id,
            final(self).plugin_status == old(self).plugin_status,
    {
        let confirmed = uninstall_click(&mut self.pending_plugin_uninstall_id, &plugin.id);
        if confirmed {
            self.plugin_request = Some(PluginSettingsRequest::Uninstall { id: plugin.id.clone() });
        }
        confirmed
    }

    /// Asks to restart the application so plugin changes take effect.
    pub fn request_restart(&mut self)
        ensures
            final(self).plugin_request == Some(PluginSettingsRequest::Restart),
            final(self).tab == old(self).tab,
            final(self).marketplace_state == old(self).marketplace_state,
            final(self).marketplace_installing_id == old(self).marketplace_installing_id,
            final(self).pending_plugin_uninstall_id == old(self).pending_plugin_uninstall_id,
            final(self).plugin_status == old(self).plugin_status,
    {
        self.plugin_request = Some(PluginSettingsRequest::Restart);
    }
}

} // verus!
