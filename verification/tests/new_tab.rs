use tabbed_document_ui::new_tab::{NewDocumentKind, NewTab, NewTabAction, NewTabMessage};

#[test]
fn a_new_form_is_empty() {
    let tab = NewTab::new();
    assert_eq!(tab.name(), "");
    assert_eq!(tab.directory(), "");
    assert_eq!(tab.kind(), None);
    assert_eq!(tab.label(), "New");
}

#[test]
fn kinds_are_offered_under_their_names() {
    assert_eq!(NewDocumentKind::Text.to_string(), "Text");
    assert_eq!(NewDocumentKind::Image.to_string(), "Image");
}

#[test]
fn edits_are_taken_into_the_form() {
    let mut tab = NewTab::new();
    assert!(matches!(
        tab.update(NewTabMessage::NameChanged("notes".to_string())),
        NewTabAction::Nothing
    ));
    assert!(matches!(
        tab.update(NewTabMessage::KindSelected(NewDocumentKind::Text)),
        NewTabAction::Nothing
    ));
    assert!(matches!(
        tab.update(NewTabMessage::DirectoryChosen("/tmp".to_string())),
        NewTabAction::Nothing
    ));
    assert_eq!(tab.name(), "notes");
    assert_eq!(tab.directory(), "/tmp");
    assert_eq!(tab.kind(), Some(NewDocumentKind::Text));
}

#[test]
fn an_empty_message_leaves_the_form_alone() {
    let mut tab = NewTab::new();
    let _ = tab.update(NewTabMessage::NameChanged("notes".to_string()));
    assert!(matches!(tab.update(NewTabMessage::Nothing), NewTabAction::Nothing));
    assert_eq!(tab.name(), "notes");
    assert_eq!(tab.directory(), "");
    assert_eq!(tab.kind(), None);
}

#[test]
fn choosing_a_directory_is_left_to_the_application() {
    let mut tab = NewTab::new();
    assert!(matches!(tab.update(NewTabMessage::ChooseDirectory), NewTabAction::ChooseDirectory));
    assert_eq!(tab.directory(), "");
}

#[test]
fn creating_hands_the_form_over() {
    let mut tab = NewTab::new();
    let _ = tab.update(NewTabMessage::NameChanged("photo".to_string()));
    let _ = tab.update(NewTabMessage::DirectoryChosen("/home/me".to_string()));
    let _ = tab.update(NewTabMessage::KindSelected(NewDocumentKind::Image));
    match tab.update(NewTabMessage::CreateDocument) {
        NewTabAction::CreateDocument(name, directory, kind) => {
            assert_eq!(name, "photo");
            assert_eq!(directory, "/home/me");
            assert_eq!(kind, NewDocumentKind::Image);
        }
        _ => panic!("the form is handed over"),
    }
    assert_eq!(tab.name(), "photo");
}

#[test]
fn the_form_can_be_sent_once_it_is_complete() {
    let mut tab = NewTab::new();
    assert!(tab.message_to_emit_when_valid(true).is_none());
    let _ = tab.update(NewTabMessage::NameChanged("photo".to_string()));
    assert!(tab.message_to_emit_when_valid(true).is_none());
    let _ = tab.update(NewTabMessage::KindSelected(NewDocumentKind::Image));
    assert!(matches!(
        tab.message_to_emit_when_valid(true),
        Some(NewTabMessage::CreateDocument)
    ));
    assert!(tab.message_to_emit_when_valid(false).is_none());
    let _ = tab.update(NewTabMessage::NameChanged(String::new()));
    assert!(tab.message_to_emit_when_valid(true).is_none());
}
