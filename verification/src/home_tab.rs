//! The home tab, with its one setting: whether it is shown on startup.

use vstd::prelude::*;

verus! {

pub struct HomeTab {
    show_on_startup: bool,
}

#[derive(Debug, Clone)]
pub enum HomeTabMessage {
    ShowOnStartupChanged(bool),
}

#[derive(Debug)]
pub enum HomeTabAction {
    ShowOnStartupChanged,
}

impl View for HomeTab {
    type V = bool;

    /// Whether the home tab is shown on startup.
    closed spec fn view(&self) -> bool {
        self.show_on_startup
    }
}

impl Default for HomeTab {
    /// A home tab that is not shown on startup.
    fn default() -> (tab: Self)
        ensures
            tab == HomeTab::with_setting(false),
    {
        Self { show_on_startup: false }
    }
}

impl HomeTab {
    /// The home tab with the setting `show_on_startup`.
    pub closed spec fn with_setting(show_on_startup: bool) -> HomeTab {
        HomeTab { show_on_startup }
    }

    /// The setting of `with_setting(show_on_startup)` is `show_on_startup`.
    pub broadcast proof fn lemma_with_setting(show_on_startup: bool)
        ensures
            (#[trigger] HomeTab::with_setting(show_on_startup))@ == show_on_startup,
    {
    }

    /// A home tab with the setting as it was last stored.
    pub fn new(show_on_startup: bool) -> (tab: Self)
        ensures
            tab == HomeTab::with_setting(show_on_startup),
    {
        Self { show_on_startup }
    }

    /// Whether the home tab is shown on startup.
    pub fn show_on_startup(&self) -> (shown: bool)
        ensures
            shown == self@,
    {
        self.show_on_startup
    }

    /// The text on the tab's button.
    pub fn label(&self) -> (label: String)
        ensures
            label@ == "Home"@,
    {
        "Home".to_owned()
    }

    /// Takes the new setting over and reports that it changed.
    pub fn update(&mut self, message: HomeTabMessage) -> (action: HomeTabAction)
        ensures
            message matches HomeTabMessage::ShowOnStartupChanged(value) && *final(self)
                == HomeTab::with_setting(value),
            action is ShowOnStartupChanged,
    {
        match message {
            HomeTabMessage::ShowOnStartupChanged(value) => {
                self.show_on_startup = value;

                HomeTabAction::ShowOnStartupChanged
            },
        }
    }
}

} // verus!
