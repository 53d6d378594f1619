//! A text document: where its file is, the editor's content once the file is
//! loaded, and the lines of its information panel.
//!
//! The content is the editor's own value of type `C`, and an edit is the
//! editor's own value of type `E`. Both pass through unread; what the editor
//! does with them is handed in as functions.

use vstd::prelude::*;
use vstd::pervasive::unreached;
use crate::sidebar::{Sidebar, SidebarItem, SidebarLine};

verus! {

pub struct TextDocument<C> {
    path: String,
    state: TextDocumentState<C>,
}

pub struct TextDocumentState<C> {
    content: Option<C>,
    sidebar: Sidebar,
}

#[derive(Debug, Clone)]
pub enum TextDocumentMessage<E> {
    Nothing,
    Edit(E),
    Load,
    Loaded(String),
}

#[derive(Debug)]
pub enum TextDocumentAction {
    Nothing,
    Load,
}

pub const SIDEBAR_ITEM_PATH: &'static str = "PATH";

impl<C> TextDocument<C> {
    /// The editor's content, once the file is loaded.
    pub closed spec fn loaded(&self) -> Option<C> {
        self.state.content
    }

    /// The path of the document's file.
    pub closed spec fn location(&self) -> Seq<char> {
        self.path@
    }

    /// The lines of the information panel.
    pub closed spec fn lines(&self) -> Seq<SidebarLine> {
        self.state.sidebar.lines()
    }

    /// The document takes `message`: `perform` takes an edit of the content,
    /// `with_text` takes the text that was loaded, and the message is not
    /// `Nothing`, which is never sent to a document.
    pub open spec fn accepts<E, P: FnOnce(&mut C, E) -> (), W: FnOnce(&str) -> C>(
        self,
        message: TextDocumentMessage<E>,
        perform: P,
        with_text: W,
    ) -> bool {
        &&& !(message is Nothing)
        &&& message matches TextDocumentMessage::Edit(edit) ==> forall|content: &mut C|
            Some(*content) == self.loaded() ==> #[trigger] perform.requires((content, edit))
        &&& message matches TextDocumentMessage::Loaded(text) ==> forall|given: &str|
            given@ == text@ ==> #[trigger] with_text.requires((given,))
    }

    /// The document for the file at `path`, together with the message that
    /// starts the reading of the file. The panel shows the path.
    pub fn from_path<E>(path: String) -> (opened: (Self, TextDocumentMessage<E>))
        ensures
            opened.0.location() == path@,
            opened.0.loaded() is None,
            opened.0.lines() == seq![
                SidebarLine { key: SIDEBAR_ITEM_PATH@, title: "Path"@, value: path@ },
            ],
            opened.1 is Load,
    {
        let mut sidebar = Sidebar::default();
        sidebar.add_item(SIDEBAR_ITEM_PATH, SidebarItem::Text("Path".to_owned(), path.clone()));

        let state = TextDocumentState { content: None, sidebar };
        let document = TextDocument { path, state };
        assert(document.lines() =~= seq![
            SidebarLine { key: SIDEBAR_ITEM_PATH@, title: "Path"@, value: path@ },
        ]);

        (document, TextDocumentMessage::Load)
    }

    /// The path of the document's file.
    pub fn path(&self) -> (path: &String)
        ensures
            path@ == self.location(),
    {
        &self.path
    }

    /// The editor's content, once the file is loaded.
    pub fn content(&self) -> (content: Option<&C>)
        ensures
            match content {
                Some(content) => self.loaded() == Some(*content),
                None => self.loaded() is None,
            },
    {
        self.state.content.as_ref()
    }

    /// The information panel.
    pub fn sidebar(&self) -> (sidebar: &Sidebar)
        ensures
            sidebar.lines() == self.lines(),
    {
        &self.state.sidebar
    }

    /// Carries out one message of the document.
    ///
    /// An edit is what `perform` makes of the content; before the file is
    /// loaded there is no content, and the edit is dropped. `Load` asks the
    /// application to read the file. `Loaded` brings the text that was read,
    /// from which `with_text` makes the content. Path and panel stay.
    pub fn update<E, P, W>(
        &mut self,
        message: TextDocumentMessage<E>,
        perform: P,
        with_text: W,
    ) -> (action: TextDocumentAction) where P: FnOnce(&mut C, E) -> (), W: FnOnce(&str) -> C
        requires
            old(self).accepts(message, perform, with_text),
        ensures
            final(self).location() == old(self).location(),
            final(self).lines() == old(self).lines(),
            message is Load <==> action is Load,
            message is Load ==> final(self).loaded() == old(self).loaded(),
            message matches TextDocumentMessage::Edit(edit) ==> match old(self).loaded() {
                Some(before) => exists|content: &mut C|
                    {
                        &&& #[trigger] perform.ensures((content, edit), ())
                        &&& *content == before
                        &&& final(self).loaded() == Some(*final(content))
                    },
                None => final(self).loaded() is None,
            },
            message matches TextDocumentMessage::Loaded(text) ==> exists|given: &str, content: C|
                {
                    &&& #[trigger] with_text.ensures((given,), content)
                    &&& given@ == text@
                    &&& final(self).loaded() == Some(content)
                },
    {
        match message {
            TextDocumentMessage::Edit(action) => {
                match &mut self.state.content {
                    Some(content) => {
                        perform(content, action);
                    },
                    None => (),
                }
                TextDocumentAction::Nothing
            },
            TextDocumentMessage::Load => { TextDocumentAction::Load },
            TextDocumentMessage::Loaded(text) => {
                let content = with_text(text.as_str());

                self.state.content = Some(content);

                TextDocumentAction::Nothing
            },
            TextDocumentMessage::Nothing => unreached(),
        }
    }
}

} // verus!
