use tabbed_document_ui::image_document::{
    Coordinate, ImageDocument, ImageDocumentAction, ImageDocumentMessage,
    SIDEBAR_ITEM_LAST_CLICKED_COORDINATE, SIDEBAR_ITEM_PATH, SIDEBAR_ITEM_SIZE,
};
use tabbed_document_ui::sidebar::SidebarItem;

fn opened(path: &str, dimensions: Option<(u32, u32)>) -> ImageDocument<u8> {
    ImageDocument::new(path.to_string(), 7, dimensions)
}

fn panel(state: &ImageDocument<u8>) -> Vec<(String, String, String)> {
    state
        .sidebar()
        .items()
        .iter()
        .map(|(key, item)| match item {
            SidebarItem::Text(title, value) => (key.to_string(), title.clone(), value.clone()),
        })
        .collect()
}

fn line(key: &str, title: &str, value: &str) -> (String, String, String) {
    (key.to_string(), title.to_string(), value.to_string())
}

#[test]
fn the_panel_keys() {
    assert_eq!(SIDEBAR_ITEM_PATH, "PATH");
    assert_eq!(SIDEBAR_ITEM_SIZE, "SIZE");
    assert_eq!(SIDEBAR_ITEM_LAST_CLICKED_COORDINATE, "LAST_CLICKED_COORDINATE");
}

#[test]
fn a_new_image_document_shows_path_and_size() {
    let state = opened("/tmp/image_file_1.bmp", Some((640, 480)));
    assert_eq!(
        panel(&state),
        vec![
            line("PATH", "Path", "/tmp/image_file_1.bmp"),
            line("SIZE", "Size (X/Y)", "x: 640, y: 480"),
            line("LAST_CLICKED_COORDINATE", "Last clicked coordinate", "None"),
        ]
    );
    assert!(state.last_clicked().is_none());
    assert_eq!(state.path(), "/tmp/image_file_1.bmp");
    assert_eq!(*state.handle(), 7);
}

#[test]
fn an_unreadable_size_is_shown_as_an_error() {
    let state = opened("broken.png", None);
    assert_eq!(
        panel(&state),
        vec![
            line("PATH", "Path", "broken.png"),
            line("SIZE", "Size (X/Y)", "Error"),
            line("LAST_CLICKED_COORDINATE", "Last clicked coordinate", "None"),
        ]
    );
}

#[test]
fn a_size_of_zero_is_written_out() {
    let state = opened("empty.png", Some((0, 0)));
    assert_eq!(panel(&state)[1], line("SIZE", "Size (X/Y)", "x: 0, y: 0"));
}

#[test]
fn a_click_is_kept_and_shown() {
    let mut state = opened("a.png", Some((3, 4)));
    let action = state.update(ImageDocumentMessage::ImageClicked(Coordinate { x: 10, y: 10 }));
    assert!(matches!(action, ImageDocumentAction::Nothing));
    let clicked = state.last_clicked().clone().expect("the click is kept");
    assert_eq!((clicked.x, clicked.y), (10, 10));
    assert_eq!(
        panel(&state),
        vec![
            line("PATH", "Path", "a.png"),
            line("SIZE", "Size (X/Y)", "x: 3, y: 4"),
            line(
                "LAST_CLICKED_COORDINATE",
                "Last clicked coordinate",
                "Some(Coordinate { x: 10, y: 10 })"
            ),
        ]
    );
}

#[test]
fn the_shown_click_is_the_debug_form_of_the_kept_click() {
    let mut state = opened("a.png", None);
    for (x, y) in [(0, 0), (7, 1234), (u32::MAX, 99)] {
        let _ = state.update(ImageDocumentMessage::ImageClicked(Coordinate { x, y }));
        let expected = format!("{:?}", state.last_clicked());
        assert_eq!(panel(&state)[2].2, expected);
    }
}

#[test]
fn a_later_click_replaces_the_earlier_one() {
    let mut state = opened("a.png", None);
    let _ = state.update(ImageDocumentMessage::ImageClicked(Coordinate { x: 1, y: 2 }));
    let _ = state.update(ImageDocumentMessage::ImageClicked(Coordinate { x: 3, y: 4 }));
    assert_eq!(panel(&state)[2].2, "Some(Coordinate { x: 3, y: 4 })");
    assert_eq!(panel(&state).len(), 3);
    assert_eq!(state.path(), "a.png");
    assert_eq!(*state.handle(), 7);
}

#[test]
fn an_empty_message_leaves_the_image_document_alone() {
    let mut state = opened("a.png", Some((1, 1)));
    let before = panel(&state);
    let action = state.update(ImageDocumentMessage::Nothing);
    assert!(matches!(action, ImageDocumentAction::Nothing));
    assert_eq!(panel(&state), before);
    assert!(state.last_clicked().is_none());
}

#[test]
fn the_default_coordinate_is_the_origin() {
    let origin = Coordinate::default();
    assert_eq!((origin.x, origin.y), (0, 0));
}
