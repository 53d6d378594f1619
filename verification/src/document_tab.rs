//! The tab that shows one document, and how a message for the tab reaches
//! the document.

use vstd::prelude::*;
use vstd::pervasive::unreached;
use crate::document::{DocumentKey, DocumentKind};
use crate::image_document::ImageDocumentMessage;
use crate::text_document::{TextDocumentAction, TextDocumentMessage};

verus! {

pub struct DocumentTab {
    key: DocumentKey,
}

#[derive(Debug, Clone)]
pub enum DocumentTabMessage<E> {
    Nothing,
    TextDocumentMessage(TextDocumentMessage<E>),
    ImageDocumentMessage(ImageDocumentMessage),
}

/// What the application is to do after a message.
#[derive(Debug)]
pub enum DocumentTabAction {
    Nothing,
    /// Read the text file at this path, and report its text with `Loaded`.
    TextDocumentLoad(String),
}

impl View for DocumentTab {
    type V = DocumentKey;

    /// The key of the document that the tab shows.
    closed spec fn view(&self) -> DocumentKey {
        self.key
    }
}

/// `message` is for a document like `document`: a message for a text
/// document meets a text document that takes it, and a message for an image
/// document meets an image document. `Nothing` is for no document.
pub open spec fn message_fits<C, H, E, P: FnOnce(&mut C, E) -> (), W: FnOnce(&str) -> C>(
    document: DocumentKind<C, H>,
    message: DocumentTabMessage<E>,
    perform: P,
    with_text: W,
) -> bool {
    match message {
        DocumentTabMessage::Nothing => false,
        DocumentTabMessage::TextDocumentMessage(text_message) => {
            &&& document matches DocumentKind::TextDocument(text_document)
            &&& text_document.accepts(text_message, perform, with_text)
        },
        DocumentTabMessage::ImageDocumentMessage(_) => {
            &&& document matches DocumentKind::ImageDocument(image_document)
            &&& image_document.wf()
        },
    }
}

impl DocumentTab {
    /// The tab for `key`.
    pub closed spec fn showing(key: DocumentKey) -> DocumentTab {
        DocumentTab { key }
    }

    /// A tab determines its document and a document its tab.
    pub broadcast proof fn lemma_showing(key: DocumentKey)
        ensures
            (#[trigger] DocumentTab::showing(key))@ == key,
    {
    }

    /// A tab that shows the document under `key`.
    pub fn new(key: DocumentKey) -> (tab: Self)
        ensures
            tab == DocumentTab::showing(key),
    {
        Self { key }
    }

    /// The key of the document that the tab shows.
    pub fn key(&self) -> (key: DocumentKey)
        ensures
            key == self@,
    {
        self.key
    }

    /// Hands `message` to `document`, the document that the tab shows.
    ///
    /// A text document that asks to be loaded has the application read its
    /// file; nothing else is asked of the application. The tab stays as it is.
    pub fn update<C, H, E, P, W>(
        &mut self,
        message: DocumentTabMessage<E>,
        document: &mut DocumentKind<C, H>,
        perform: P,
        with_text: W,
    ) -> (action: DocumentTabAction) where P: FnOnce(&mut C, E) -> (), W: FnOnce(&str) -> C
        requires
            message_fits(*old(document), message, perform, with_text),
        ensures
            *final(self) == *old(self),
            message matches DocumentTabMessage::ImageDocumentMessage(image_message) ==> {
                &&& *old(document) matches DocumentKind::ImageDocument(before)
                &&& *final(document) matches DocumentKind::ImageDocument(after)
                &&& before.updated(image_message, after)
                &&& action is Nothing
            },
            message matches DocumentTabMessage::TextDocumentMessage(text_message) ==> {
                &&& *old(document) matches DocumentKind::TextDocument(before)
                &&& *final(document) matches DocumentKind::TextDocument(after)
                &&& after.location() == before.location()
                &&& after.lines() == before.lines()
                &&& match text_message {
                    TextDocumentMessage::Load => {
                        &&& after.loaded() == before.loaded()
                        &&& action matches DocumentTabAction::TextDocumentLoad(path)
                        &&& path@ == before.location()
                    },
                    TextDocumentMessage::Edit(edit) => {
                        &&& action is Nothing
                        &&& match before.loaded() {
                            Some(content_before) => exists|content: &mut C|
                                {
                                    &&& #[trigger] perform.ensures((content, edit), ())
                                    &&& *content == content_before
                                    &&& after.loaded() == Some(*final(content))
                                },
                            None => after.loaded() is None,
                        }
                    },
                    TextDocumentMessage::Loaded(text) => {
                        &&& action is Nothing
                        &&& exists|given: &str, content: C|
                            {
                                &&& #[trigger] with_text.ensures((given,), content)
                                &&& given@ == text@
                                &&& after.loaded() == Some(content)
                            }
                    },
                    TextDocumentMessage::Nothing => false,
                }
            },
    {
        match document {
            DocumentKind::TextDocument(document) => {
                match message {
                    DocumentTabMessage::TextDocumentMessage(message) => {
                        let action = document.update(message, perform, with_text);

                        match action {
                            TextDocumentAction::Nothing => DocumentTabAction::Nothing,
                            TextDocumentAction::Load => {
                                DocumentTabAction::TextDocumentLoad(document.path().clone())
                            },
                        }
                    },
                    _ => unreached(),
                }
            },
            DocumentKind::ImageDocument(document) => {
                match message {
                    DocumentTabMessage::ImageDocumentMessage(message) => {
                        let _action = document.update(message);
                        DocumentTabAction::Nothing
                    },
                    _ => unreached(),
                }
            },
        }
    }
}

} // verus!
