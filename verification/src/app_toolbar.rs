//! The toolbar above the tab bar.

use vstd::prelude::*;

verus! {

/// A press on one of the toolbar's buttons.
#[derive(Debug, Clone)]
pub enum ToolbarMessage {
    ShowHome,
    CloseAllTabs,
    OpenDocument,
    NewDocument,
}

/// What the application is to do after a press.
#[derive(Debug)]
pub enum ToolbarAction {
    ShowHome,
    CloseAllTabs,
    OpenDocument,
    NewDocument,
}

/// The action that `message` asks for.
pub open spec fn requested(message: ToolbarMessage) -> ToolbarAction {
    match message {
        ToolbarMessage::ShowHome => ToolbarAction::ShowHome,
        ToolbarMessage::CloseAllTabs => ToolbarAction::CloseAllTabs,
        ToolbarMessage::OpenDocument => ToolbarAction::OpenDocument,
        ToolbarMessage::NewDocument => ToolbarAction::NewDocument,
    }
}

pub struct Toolbar {}

impl Default for Toolbar {
    fn default() -> Self {
        Toolbar {  }
    }
}

impl Toolbar {
    /// Turns a press into the action of the same name.
    pub fn update(&mut self, message: ToolbarMessage) -> (action: ToolbarAction)
        ensures
            action == requested(message),
    {
        match message {
            ToolbarMessage::ShowHome => { ToolbarAction::ShowHome },
            ToolbarMessage::CloseAllTabs => { ToolbarAction::CloseAllTabs },
            ToolbarMessage::OpenDocument => { ToolbarAction::OpenDocument },
            ToolbarMessage::NewDocument => { ToolbarAction::NewDocument },
        }
    }
}

} // verus!
