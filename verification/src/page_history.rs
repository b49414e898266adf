//! Page navigation of the settings window: the sidebar visits pages, and the
//! back and forward buttons walk the history of visited pages like a browser.
use crate::markdown_events::opt_string_view;
use vstd::prelude::*;

verus! {

/// The page shown when the settings window opens.
pub const GENERAL_PAGE_INDEX: usize = 0;

/// The plugins page; the plugin detail panel only stays open there.
pub const PLUGINS_PAGE_INDEX: usize = 3;

/// A step through the page history.
#[derive(Clone, Copy, PartialEq, Eq, Structural, Debug)]
pub enum PageNavigation {
    Back,
    Forward,
}

/// The navigation state of the settings window.
pub struct SettingsNavigation {
    active_page: usize,
    page_history: Vec<usize>,
    page_history_index: usize,
    selected_plugin_id: Option<String>,
    plugin_detail_closing: bool,
}

pub struct NavigationView {
    pub active_page: nat,
    pub history: Seq<usize>,
    pub index: nat,
    pub selected_plugin_id: Option<Seq<char>>,
    pub plugin_detail_closing: bool,
}

impl View for SettingsNavigation {
    type V = NavigationView;

    closed spec fn view(&self) -> NavigationView {
        NavigationView {
            active_page: self.active_page as nat,
            history: self.page_history@,
            index: self.page_history_index as nat,
            selected_plugin_id: opt_string_view(self.selected_plugin_id),
            plugin_detail_closing: self.plugin_detail_closing,
        }
    }
}

/// The history is never empty, its cursor points into it, and the active page
/// is the page under the cursor.
pub open spec fn navigation_well_formed(v: NavigationView) -> bool {
    &&& v.history.len() > 0
    &&& v.index < v.history.len()
    &&& v.active_page == v.history[v.index as int]
}

pub open spec fn can_go_back(v: NavigationView) -> bool {
    v.index > 0
}

pub open spec fn can_go_forward(v: NavigationView) -> bool {
    v.index + 1 < v.history.len()
}

/// Leaving the plugins page closes the plugin detail panel at once.
pub open spec fn arrive_at(v: NavigationView, page: nat) -> NavigationView {
    if page != PLUGINS_PAGE_INDEX {
        NavigationView { selected_plugin_id: None, plugin_detail_closing: false, ..v }
    } else {
        v
    }
}

/// Visiting a page: nothing happens when it is already shown; otherwise the
/// forward history is dropped and the page is appended and shown.
pub open spec fn visit_spec(v: NavigationView, page: nat) -> NavigationView {
    if v.active_page == page {
        v
    } else {
        let history = v.history.take((v.index + 1) as int).push(page as usize);
        arrive_at(
            NavigationView {
                active_page: page,
                history,
                index: (history.len() - 1) as nat,
                ..v
            },
            page,
        )
    }
}

pub open spec fn opt_ref_view(o: Option<&String>) -> Option<Seq<char>> {
    match o {
        Some(s) => Some(s@),
        None => None,
    }
}

/// Whether the history has a page in the given direction.
pub open spec fn step_possible(v: NavigationView, direction: PageNavigation) -> bool {
    match direction {
        PageNavigation::Back => can_go_back(v),
        PageNavigation::Forward => can_go_forward(v),
    }
}

/// Walking the history one step, when that step exists.
pub open spec fn navigate_spec(v: NavigationView, direction: PageNavigation) -> NavigationView {
    if !step_possible(v, direction) {
        v
    } else {
        let index: nat = match direction {
            PageNavigation::Back => (v.index - 1) as nat,
            PageNavigation::Forward => v.index + 1,
        };
        let page = v.history[index as int] as nat;
        arrive_at(NavigationView { active_page: page, index, ..v }, page)
    }
}

impl SettingsNavigation {
    #[verifier::type_invariant]
    spec fn well_formed(self) -> bool {
        navigation_well_formed(self@)
    }

    /// The general page, alone in the history, with no plugin selected.
    pub fn new() -> (nav: SettingsNavigation)
        ensures
            nav@.active_page == GENERAL_PAGE_INDEX,
            nav@.history == seq![GENERAL_PAGE_INDEX],
            nav@.index == 0,
            nav@.selected_plugin_id is None,
            !nav@.plugin_detail_closing,
    {
        let mut history = Vec::new();
        history.push(GENERAL_PAGE_INDEX);
        let nav = SettingsNavigation {
            active_page: GENERAL_PAGE_INDEX,
            page_history: history,
            page_history_index: 0,
            selected_plugin_id: None,
            plugin_detail_closing: false,
        };
        assert(nav@.history =~= seq![GENERAL_PAGE_INDEX]);
        nav
    }

    /// The page shown.
    pub fn active_page(&self) -> (page: usize)
        ensures
            page == self@.active_page,
    {
        self.active_page
    }

    /// The plugin whose detail panel is open, if any.
    pub fn selected_plugin_id(&self) -> (id: Option<&String>)
        ensures
            opt_ref_view(id) == self@.selected_plugin_id,
    {
        self.selected_plugin_id.as_ref()
    }

    /// Whether the plugin detail panel is sliding shut.
    pub fn plugin_detail_closing(&self) -> (closing: bool)
        ensures
            closing == self@.plugin_detail_closing,
    {
        self.plugin_detail_closing
    }

    /// Opens the detail panel of a plugin.
    pub fn select_plugin(&mut self, id: String)
        ensures
            final(self)@ == (NavigationView {
                selected_plugin_id: Some(id@),
                plugin_detail_closing: false,
                ..old(self)@
            }),
    {
        proof {
            use_type_invariant(&*self);
        }
        self.selected_plugin_id = Some(id);
        self.plugin_detail_closing = false;
    }

    /// Starts closing the plugin detail panel.
    pub fn close_plugin_detail(&mut self)
        ensures
            final(self)@ == (NavigationView { plugin_detail_closing: true, ..old(self)@ }),
    {
        proof {
            use_type_invariant(&*self);
        }
        self.plugin_detail_closing = true;
    }

    /// Finishes closing the plugin detail panel.
    pub fn finish_plugin_detail_close(&mut self)
        ensures
            final(self)@ == (NavigationView {
                selected_plugin_id: None,
                plugin_detail_closing: false,
                ..old(self)@
            }),
    {
        proof {
            use_type_invariant(&*self);
        }
        self.selected_plugin_id = None;
        self.plugin_detail_closing = false;
    }

    /// Whether there is a page to go back to.
    pub fn can_navigate_back(&self) -> (r: bool)
        ensures
            r == can_go_back(self@),
    {
        self.page_history_index > 0
    }

    /// Whether there is a page to go forward to.
    pub fn can_navigate_forward(&self) -> (r: bool)
        ensures
            r == can_go_forward(self@),
    {
        proof {
            use_type_invariant(self);
        }
        let n = self.page_history.len();
        self.page_history_index < n - 1
    }

    /// Steps back or forward through the history; answers whether it moved.
    pub fn navigate_page_history(&mut self, direction: PageNavigation) -> (moved: bool)
        ensures
            final(self)@ == navigate_spec(old(self)@, direction),
            moved == step_possible(old(self)@, direction),
    {
        proof {
            use_type_invariant(&*self);
        }
        let next_index = match direction {
            PageNavigation::Back => {
                if self.can_navigate_back() {
                    self.page_history_index - 1
                } else {
                    return false;
                }
            },
            PageNavigation::Forward => {
                if self.can_navigate_forward() {
                    let n = self.page_history.len();
                    assert(self.page_history_index < n);
                    self.page_history_index + 1
                } else {
                    return false;
                }
            },
        };
        let page = self.page_history[next_index];
        let mut previous = SettingsNavigation::new();
        std::mem::swap(&mut previous, self);
        let SettingsNavigation {
            page_history: history,
            selected_plugin_id: mut selected,
            plugin_detail_closing: mut closing,
            ..
        } = previous;
        if page != PLUGINS_PAGE_INDEX {
            selected = None;
            closing = false;
        }
        *self = SettingsNavigation {
            active_page: page,
            page_history: history,
            page_history_index: next_index,
            selected_plugin_id: selected,
            plugin_detail_closing: closing,
        };
        true
    }

    /// Shows a page from the sidebar; answers whether the page changed.
    pub fn visit_page(&mut self, page: usize) -> (changed: bool)
        ensures
            final(self)@ == visit_spec(old(self)@, page as nat),
            changed == (old(self)@.active_page != page),
    {
        proof {
            use_type_invariant(&*self);
        }
        if self.active_page == page {
            return false;
        }
        let ghost v = self@;
        let cursor = self.page_history_index;
        let mut previous = SettingsNavigation::new();
        std::mem::swap(&mut previous, self);
        proof {
            use_type_invariant(&previous);
        }
        let SettingsNavigation {
            page_history: mut history,
            selected_plugin_id: mut selected,
            plugin_detail_closing: mut closing,
            ..
        } = previous;
        let n = history.len();
        assert(cursor < n);
        history.truncate(cursor + 1);
        history.push(page);
        let index = history.len() - 1;
        if page != PLUGINS_PAGE_INDEX {
            selected = None;
            closing = false;
        }
        *self = SettingsNavigation {
            active_page: page,
            page_history: history,
            page_history_index: index,
            selected_plugin_id: selected,
            plugin_detail_closing: closing,
        };
        assert(self@.history =~= visit_spec(v, page as nat).history);
        true
    }
}

/// Going back and then forward again returns to the same page, with the
/// same history and cursor.
pub proof fn lemma_back_then_forward(v: NavigationView)
    requires
        navigation_well_formed(v),
        can_go_back(v),
    ensures
        can_go_forward(navigate_spec(v, PageNavigation::Back)),
        navigate_spec(navigate_spec(v, PageNavigation::Back), PageNavigation::Forward).active_page
            == v.active_page,
        navigate_spec(navigate_spec(v, PageNavigation::Back), PageNavigation::Forward).history
            == v.history,
        navigate_spec(navigate_spec(v, PageNavigation::Back), PageNavigation::Forward).index
            == v.index,
{
}

/// Visiting a new page leaves no forward history, and going back from it
/// returns to the page shown before.
pub proof fn lemma_visit_then_back(v: NavigationView, page: nat)
    requires
        navigation_well_formed(v),
        page != v.active_page,
        page <= usize::MAX,
    ensures
        navigation_well_formed(visit_spec(v, page)),
        !can_go_forward(visit_spec(v, page)),
        can_go_back(visit_spec(v, page)),
        navigate_spec(visit_spec(v, page), PageNavigation::Back).active_page == v.active_page,
{
    let w = visit_spec(v, page);
    assert(w.history[w.index - 1] == v.history[v.index as int]);
}

/// Visiting the page already shown changes nothing.
pub proof fn lemma_visit_current_page(v: NavigationView)
    ensures
        visit_spec(v, v.active_page) == v,
{
}

/// Every navigation keeps the history well formed.
pub proof fn lemma_navigation_well_formed(v: NavigationView, direction: PageNavigation, page: nat)
    requires
        navigation_well_formed(v),
        page <= usize::MAX,
    ensures
        navigation_well_formed(navigate_spec(v, direction)),
        navigation_well_formed(visit_spec(v, page)),
{
}

} // verus!
