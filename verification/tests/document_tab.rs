use tabbed_document_ui::document::{DocumentKey, DocumentKind};
use tabbed_document_ui::document_tab::{DocumentTab, DocumentTabAction, DocumentTabMessage};
use tabbed_document_ui::image_document::{Coordinate, ImageDocument, ImageDocumentMessage};
use tabbed_document_ui::sidebar::SidebarItem;
use tabbed_document_ui::text_document::{TextDocument, TextDocumentMessage};

type Document = DocumentKind<String, u8>;
type Message = DocumentTabMessage<char>;

fn text_document(path: &str) -> Document {
    let (document, _load): (TextDocument<String>, TextDocumentMessage<char>) =
        TextDocument::from_path(path.to_string());
    DocumentKind::TextDocument(document)
}

fn image_document(path: &str) -> Document {
    DocumentKind::ImageDocument(ImageDocument::new(path.to_string(), 1, Some((2, 3))))
}

fn type_char(content: &mut String, edit: char) {
    content.push(edit);
}

fn content_of(text: &str) -> String {
    text.to_string()
}

fn content(document: &Document) -> Option<String> {
    match document {
        DocumentKind::TextDocument(document) => document.content().cloned(),
        DocumentKind::ImageDocument(_) => panic!("a text document is asked for its content"),
    }
}

#[test]
fn a_document_tab_keeps_its_key() {
    let tab = DocumentTab::new(DocumentKey::from_ffi(9));
    assert_eq!(tab.key(), DocumentKey::from_ffi(9));
}

#[test]
fn loading_a_text_document_names_its_file() {
    let mut tab = DocumentTab::new(DocumentKey::from_ffi(1));
    let mut document = text_document("/tmp/a.txt");
    let action = tab.update(
        Message::TextDocumentMessage(TextDocumentMessage::Load),
        &mut document,
        type_char,
        content_of,
    );
    match action {
        DocumentTabAction::TextDocumentLoad(path) => assert_eq!(path, "/tmp/a.txt"),
        _ => panic!("the file is to be read"),
    }
    assert_eq!(content(&document), None);
    assert_eq!(tab.key(), DocumentKey::from_ffi(1));
}

#[test]
fn loaded_text_and_edits_reach_the_text_document() {
    let mut tab = DocumentTab::new(DocumentKey::from_ffi(1));
    let mut document = text_document("/tmp/a.txt");
    let action = tab.update(
        Message::TextDocumentMessage(TextDocumentMessage::Loaded("ab".to_string())),
        &mut document,
        type_char,
        content_of,
    );
    assert!(matches!(action, DocumentTabAction::Nothing));
    assert_eq!(content(&document), Some("ab".to_string()));
    let action = tab.update(
        Message::TextDocumentMessage(TextDocumentMessage::Edit('c')),
        &mut document,
        type_char,
        content_of,
    );
    assert!(matches!(action, DocumentTabAction::Nothing));
    assert_eq!(content(&document), Some("abc".to_string()));
}

#[test]
fn a_click_reaches_the_image_document() {
    let mut tab = DocumentTab::new(DocumentKey::from_ffi(2));
    let mut document = image_document("/tmp/a.png");
    let action = tab.update(
        Message::ImageDocumentMessage(ImageDocumentMessage::ImageClicked(Coordinate {
            x: 5,
            y: 6,
        })),
        &mut document,
        type_char,
        content_of,
    );
    assert!(matches!(action, DocumentTabAction::Nothing));
    match &document {
        DocumentKind::ImageDocument(document) => {
            let clicked = document.last_clicked().clone().expect("the click is kept");
            assert_eq!((clicked.x, clicked.y), (5, 6));
            match &document.sidebar().items()[2].1 {
                SidebarItem::Text(_title, value) => {
                    assert_eq!(value, "Some(Coordinate { x: 5, y: 6 })")
                }
            }
        }
        DocumentKind::TextDocument(_) => panic!("the document stays an image document"),
    }
}
