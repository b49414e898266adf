//! Settings pages: an ordered list of rows, each optionally tied to the action
//! a click on it performs.
use vstd::prelude::*;

verus! {

/// One row of a settings page.  `CenterLink::color` is an ARGB colour.
#[derive(Debug)]
pub enum SettingsItem {
    SectionHeader { label: String },
    GroupStart,
    GroupEnd,
    RowSwitch { label: String, on: bool, enabled: bool },
    RowStepper { label: String, value: String, enabled: bool },
    RowSourceSelect { label: String, options: Vec<(String, bool)>, enabled: bool },
    RowButton { label: String, btn_label: String, enabled: bool },
    CenterLink { label: String, color: u32 },
    RowLabel { label: String },
    RowAppItem { label: String, active: bool, enabled: bool },
    RowFolderPicker {
        label: String,
        btn_label: String,
        clear_label: Option<String>,
        current_path: Option<String>,
        enabled: bool,
    },
}

/// Which part of which row a click landed on.
#[derive(Clone, Copy, PartialEq, Eq, Structural, Debug)]
pub enum ClickResult {
    NoHit,
    Switch(usize),
    StepperDec(usize),
    StepperInc(usize),
    StepperValue(usize),
    SourceButton(usize),
    RowButton(usize),
    CenterLink(usize),
    FolderSelect(usize),
    FolderClear(usize),
    AppItem(usize),
}

/// Direction of a stepper click.
#[derive(Clone, Copy, PartialEq, Eq, Structural, Debug)]
pub enum StepDirection {
    Decrement,
    Increment,
}

impl ClickResult {
    /// The row a click result refers to.
    pub open spec fn spec_item_index(&self) -> Option<usize> {
        match *self {
            ClickResult::NoHit => None,
            ClickResult::Switch(i) => Some(i),
            ClickResult::StepperDec(i) => Some(i),
            ClickResult::StepperInc(i) => Some(i),
            ClickResult::StepperValue(i) => Some(i),
            ClickResult::SourceButton(i) => Some(i),
            ClickResult::RowButton(i) => Some(i),
            ClickResult::CenterLink(i) => Some(i),
            ClickResult::FolderSelect(i) => Some(i),
            ClickResult::FolderClear(i) => Some(i),
            ClickResult::AppItem(i) => Some(i),
        }
    }

    /// The row a click result refers to, if any.
    #[verifier::when_used_as_spec(spec_item_index)]
    pub fn item_index(&self) -> (r: Option<usize>)
        ensures
            r == self.spec_item_index(),
    {
        match *self {
            ClickResult::NoHit => None,
            ClickResult::Switch(i) => Some(i),
            ClickResult::StepperDec(i) => Some(i),
            ClickResult::StepperInc(i) => Some(i),
            ClickResult::StepperValue(i) => Some(i),
            ClickResult::SourceButton(i) => Some(i),
            ClickResult::RowButton(i) => Some(i),
            ClickResult::CenterLink(i) => Some(i),
            ClickResult::FolderSelect(i) => Some(i),
            ClickResult::FolderClear(i) => Some(i),
            ClickResult::AppItem(i) => Some(i),
        }
    }

    /// The stepper direction of a click on a stepper's minus or plus button.
    pub fn step_direction(&self) -> (r: Option<StepDirection>)
        ensures
            r == match *self {
                ClickResult::StepperDec(_) => Some(StepDirection::Decrement),
                ClickResult::StepperInc(_) => Some(StepDirection::Increment),
                _ => None,
            },
    {
        match *self {
            ClickResult::StepperDec(_) => Some(StepDirection::Decrement),
            ClickResult::StepperInc(_) => Some(StepDirection::Increment),
            _ => None,
        }
    }
}

/// Every click on a row, whatever part of the row it hit, names that row;
/// only a click on no row names none.
pub proof fn lemma_click_names_its_row(i: usize)
    ensures
        ClickResult::NoHit.spec_item_index() is None,
        ClickResult::Switch(i).spec_item_index() == Some(i),
        ClickResult::StepperDec(i).spec_item_index() == Some(i),
        ClickResult::StepperInc(i).spec_item_index() == Some(i),
        ClickResult::StepperValue(i).spec_item_index() == Some(i),
        ClickResult::SourceButton(i).spec_item_index() == Some(i),
        ClickResult::RowButton(i).spec_item_index() == Some(i),
        ClickResult::CenterLink(i).spec_item_index() == Some(i),
        ClickResult::FolderSelect(i).spec_item_index() == Some(i),
        ClickResult::FolderClear(i).spec_item_index() == Some(i),
        ClickResult::AppItem(i).spec_item_index() == Some(i),
{
}

/// A settings page under construction: rows and, row for row, the action a
/// click on the row performs.
pub struct SettingsPage<A> {
    items: Vec<SettingsItem>,
    actions: Vec<Option<A>>,
}

impl<A> SettingsPage<A> {
    #[verifier::type_invariant]
    spec fn rows_match_actions(self) -> bool {
        self.items@.len() == self.actions@.len()
    }

    /// The rows of the page, in order.
    pub closed spec fn rows(self) -> Seq<SettingsItem> {
        self.items@
    }

    /// The action of each row, in order; `None` for rows without one.
    pub closed spec fn row_actions(self) -> Seq<Option<A>> {
        self.actions@
    }

    /// An empty page.
    pub fn new() -> (page: Self)
        ensures
            page.rows() == Seq::<SettingsItem>::empty(),
            page.row_actions() == Seq::<Option<A>>::empty(),
    {
        SettingsPage { items: Vec::new(), actions: Vec::new() }
    }

    /// Appends a row without an action.
    pub fn push(&mut self, item: SettingsItem)
        ensures
            final(self).rows() == old(self).rows().push(item),
            final(self).row_actions() == old(self).row_actions().push(None),
    {
        let mut page = SettingsPage { items: Vec::new(), actions: Vec::new() };
        std::mem::swap(&mut page, self);
        proof {
            use_type_invariant(&page);
        }
        let SettingsPage { mut items, mut actions } = page;
        items.push(item);
        actions.push(None);
        *self = SettingsPage { items, actions };
    }

    /// Appends a row with the action a click on it performs.
    pub fn push_action(&mut self, item: SettingsItem, action: A)
        ensures
            final(self).rows() == old(self).rows().push(item),
            final(self).row_actions() == old(self).row_actions().push(Some(action)),
    {
        let mut page = SettingsPage { items: Vec::new(), actions: Vec::new() };
        std::mem::swap(&mut page, self);
        proof {
            use_type_invariant(&page);
        }
        let SettingsPage { mut items, mut actions } = page;
        items.push(item);
        actions.push(Some(action));
        *self = SettingsPage { items, actions };
    }

    /// Appends a section header.
    pub fn section(&mut self, label: String)
        ensures
            final(self).rows() == old(self).rows().push(SettingsItem::SectionHeader { label }),
            final(self).row_actions() == old(self).row_actions().push(None),
    {
        self.push(SettingsItem::SectionHeader { label });
    }

    /// Opens a group of rows.
    pub fn group_start(&mut self)
        ensures
            final(self).rows() == old(self).rows().push(SettingsItem::GroupStart),
            final(self).row_actions() == old(self).row_actions().push(None),
    {
        self.push(SettingsItem::GroupStart);
    }

    /// Closes a group of rows.
    pub fn group_end(&mut self)
        ensures
            final(self).rows() == old(self).rows().push(SettingsItem::GroupEnd),
            final(self).row_actions() == old(self).row_actions().push(None),
    {
        self.push(SettingsItem::GroupEnd);
    }

    /// Appends a switch row.
    pub fn row_switch(&mut self, label: String, on: bool, enabled: bool, action: A)
        ensures
            final(self).rows() == old(self).rows().push(
                SettingsItem::RowSwitch { label, on, enabled },
            ),
            final(self).row_actions() == old(self).row_actions().push(Some(action)),
    {
        self.push_action(SettingsItem::RowSwitch { label, on, enabled }, action);
    }

    /// Appends a stepper row showing `value`.
    pub fn row_stepper(&mut self, label: String, value: String, enabled: bool, action: A)
        ensures
            final(self).rows() == old(self).rows().push(
                SettingsItem::RowStepper { label, value, enabled },
            ),
            final(self).row_actions() == old(self).row_actions().push(Some(action)),
    {
        self.push_action(SettingsItem::RowStepper { label, value, enabled }, action);
    }

    /// Appends a choice row; each option carries whether it is selected.
    pub fn row_source(
        &mut self,
        label: String,
        options: Vec<(String, bool)>,
        enabled: bool,
        action: A,
    )
        ensures
            final(self).rows() == old(self).rows().push(
                SettingsItem::RowSourceSelect { label, options, enabled },
            ),
            final(self).row_actions() == old(self).row_actions().push(Some(action)),
    {
        self.push_action(SettingsItem::RowSourceSelect { label, options, enabled }, action);
    }

    /// Appends a row with a button.
    pub fn row_button(&mut self, label: String, btn_label: String, enabled: bool, action: A)
        ensures
            final(self).rows() == old(self).rows().push(
                SettingsItem::RowButton { label, btn_label, enabled },
            ),
            final(self).row_actions() == old(self).row_actions().push(Some(action)),
    {
        self.push_action(SettingsItem::RowButton { label, btn_label, enabled }, action);
    }

    /// Appends a centred link in the given ARGB colour.
    pub fn center_link(&mut self, label: String, color: u32, action: A)
        ensures
            final(self).rows() == old(self).rows().push(SettingsItem::CenterLink { label, color }),
            final(self).row_actions() == old(self).row_actions().push(Some(action)),
    {
        self.push_action(SettingsItem::CenterLink { label, color }, action);
    }

    /// Appends a row of plain text.
    pub fn row_label(&mut self, label: String)
        ensures
            final(self).rows() == old(self).rows().push(SettingsItem::RowLabel { label }),
            final(self).row_actions() == old(self).row_actions().push(None),
    {
        self.push(SettingsItem::RowLabel { label });
    }

    /// Appends a row for a media application that can be switched on or off.
    pub fn row_app(&mut self, label: String, active: bool, enabled: bool, action: A)
        ensures
            final(self).rows() == old(self).rows().push(
                SettingsItem::RowAppItem { label, active, enabled },
            ),
            final(self).row_actions() == old(self).row_actions().push(Some(action)),
    {
        self.push_action(SettingsItem::RowAppItem { label, active, enabled }, action);
    }

    /// Appends a folder picker row.
    pub fn row_folder(
        &mut self,
        label: String,
        btn_label: String,
        clear_label: Option<String>,
        current_path: Option<String>,
        enabled: bool,
        action: A,
    )
        ensures
            final(self).rows() == old(self).rows().push(
                SettingsItem::RowFolderPicker {
                    label,
                    btn_label,
                    clear_label,
                    current_path,
                    enabled,
                },
            ),
            final(self).row_actions() == old(self).row_actions().push(Some(action)),
    {
        self.push_action(
            SettingsItem::RowFolderPicker { label, btn_label, clear_label, current_path, enabled },
            action,
        );
    }

    /// The rows of the page.
    pub fn items(&self) -> (items: &[SettingsItem])
        ensures
            items@ == self.rows(),
    {
        self.items.as_slice()
    }

    /// The action of the row a click landed on: `None` when the click is on
    /// no row, on a row past the end, or on a row without an action.
    pub fn action(&self, result: &ClickResult) -> (action: Option<&A>)
        ensures
            match result.item_index() {
                Some(i) => if i < self.rows().len() {
                    match self.row_actions()[i as int] {
                        Some(a) => action == Some(&a),
                        None => action is None,
                    }
                } else {
                    action is None
                },
                None => action is None,
            },
    {
        proof {
            use_type_invariant(self);
        }
        match result.item_index() {
            Some(index) => {
                if index < self.actions.len() {
                    self.actions[index].as_ref()
                } else {
                    None
                }
            },
            None => None,
        }
    }

    /// The rows of the page, giving up their actions.
    pub fn into_items(self) -> (items: Vec<SettingsItem>)
        ensures
            items@ == self.rows(),
    {
        self.items
    }
}

} // verus!
