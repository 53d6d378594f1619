//! The tab in which a new document is set up: its name, the directory it
//! goes to, and its kind.

use vstd::prelude::*;

verus! {

/// The kinds of document that can be created.
#[derive(Debug, Clone, Copy, PartialEq, Eq, Structural)]
pub enum NewDocumentKind {
    Text,
    Image,
}

impl NewDocumentKind {
    /// The name under which the kind is offered: `Text` or `Image`.
    pub open spec fn name_text(self) -> Seq<char> {
        match self {
            NewDocumentKind::Text => "Text"@,
            NewDocumentKind::Image => "Image"@,
        }
    }

    /// The name under which the kind is offered: `Text` or `Image`.
    pub fn to_string(&self) -> (name: String)
        ensures
            name@ == self.name_text(),
    {
        match self {
            NewDocumentKind::Text => "Text".to_owned(),
            NewDocumentKind::Image => "Image".to_owned(),
        }
    }
}

/// What the form reports: an edit of a field, or the press of a button.
#[derive(Debug, Clone)]
pub enum NewTabMessage {
    Nothing,
    NameChanged(String),
    ChooseDirectory,
    KindSelected(NewDocumentKind),
    DirectoryChosen(String),
    CreateDocument,
}

/// What the application is to do after a message.
pub enum NewTabAction {
    Nothing,
    /// Create the document: its name, its directory, its kind.
    CreateDocument(String, String, NewDocumentKind),
    /// Ask for a directory, and report it with `DirectoryChosen`.
    ChooseDirectory,
}

/// The form's fields, as contracts speak of them.
pub struct NewTabState {
    pub directory: Seq<char>,
    pub name: Seq<char>,
    pub kind: Option<NewDocumentKind>,
}

impl NewTabState {
    /// The form can be sent off: it has a name and a kind, and its
    /// directory exists.
    pub open spec fn complete(self, directory_exists: bool) -> bool {
        self.name.len() > 0 && self.kind is Some && directory_exists
    }

    /// The form takes `message`: all but a request to create a document
    /// before a kind is selected.
    pub open spec fn accepts(self, message: NewTabMessage) -> bool {
        message is CreateDocument ==> self.kind is Some
    }

    /// `message` turns the form `self` into `after` and asks for `action`.
    ///
    /// An edit changes its field and asks for nothing. The request for a
    /// directory is passed on. The request to create the document hands
    /// over name, directory and kind, and leaves the form as it is.
    pub open spec fn updated(self, message: NewTabMessage, after: Self, action: NewTabAction) -> bool {
        match message {
            NewTabMessage::Nothing => after == self && action is Nothing,
            NewTabMessage::NameChanged(name) => {
                &&& after == (NewTabState { name: name@, ..self })
                &&& action is Nothing
            },
            NewTabMessage::ChooseDirectory => after == self && action is ChooseDirectory,
            NewTabMessage::KindSelected(kind) => {
                &&& after == (NewTabState { kind: Some(kind), ..self })
                &&& action is Nothing
            },
            NewTabMessage::DirectoryChosen(directory) => {
                &&& after == (NewTabState { directory: directory@, ..self })
                &&& action is Nothing
            },
            NewTabMessage::CreateDocument => {
                &&& after == self
                &&& action matches NewTabAction::CreateDocument(name, directory, kind)
                &&& name@ == self.name
                &&& directory@ == self.directory
                &&& Some(kind) == self.kind
            },
        }
    }
}

#[derive(Debug)]
pub struct NewTab {
    directory: String,
    name: String,
    kind: Option<NewDocumentKind>,
}

impl View for NewTab {
    type V = NewTabState;

    closed spec fn view(&self) -> NewTabState {
        NewTabState { directory: self.directory@, name: self.name@, kind: self.kind }
    }
}

impl NewTab {
    /// An empty form.
    pub fn new() -> (tab: Self)
        ensures
            tab@ == (NewTabState { directory: Seq::empty(), name: Seq::empty(), kind: None }),
    {
        Self { directory: String::new(), name: String::new(), kind: None }
    }

    /// The text on the tab's button.
    pub fn label(&self) -> (label: String)
        ensures
            label@ == "New"@,
    {
        "New".to_owned()
    }

    /// The name typed so far.
    pub fn name(&self) -> (name: &String)
        ensures
            name@ == self@.name,
    {
        &self.name
    }

    /// The directory chosen so far.
    pub fn directory(&self) -> (directory: &String)
        ensures
            directory@ == self@.directory,
    {
        &self.directory
    }

    /// The kind selected so far.
    pub fn kind(&self) -> (kind: Option<NewDocumentKind>)
        ensures
            kind == self@.kind,
    {
        self.kind
    }

    /// What the form's button sends when pressed: `CreateDocument` where the
    /// form is complete, nothing where it is not.
    pub fn message_to_emit_when_valid(&self, directory_exists: bool) -> (message: Option<
        NewTabMessage,
    >)
        ensures
            self@.complete(directory_exists) ==> message == Some(NewTabMessage::CreateDocument),
            !self@.complete(directory_exists) ==> message is None,
    {
        if !self.name.as_str().is_empty() && self.kind.is_some() && directory_exists {
            Some(NewTabMessage::CreateDocument)
        } else {
            None
        }
    }

    /// Takes an edit into the form, or passes a button's request on.
    ///
    /// A document can be created only once a kind is selected.
    pub fn update(&mut self, message: NewTabMessage) -> (action: NewTabAction)
        requires
            old(self)@.accepts(message),
        ensures
            old(self)@.updated(message, final(self)@, action),
    {
        match message {
            NewTabMessage::Nothing => { NewTabAction::Nothing },
            NewTabMessage::NameChanged(name) => {
                self.name = name;
                NewTabAction::Nothing
            },
            NewTabMessage::ChooseDirectory => { NewTabAction::ChooseDirectory },
            NewTabMessage::KindSelected(kind) => {
                self.kind = Some(kind);
                NewTabAction::Nothing
            },
            NewTabMessage::DirectoryChosen(directory) => {
                self.directory = directory;
                NewTabAction::Nothing
            },
            NewTabMessage::CreateDocument => {
                NewTabAction::CreateDocument(
                    self.name.clone(),
                    self.directory.clone(),
                    self.kind.unwrap(),
                )
            },
        }
    }
}

} // verus!
