use tabbed_document_ui::document::{
    kind_of_extension, DocumentKey, OpenDocumentError, SUPPORTED_IMAGE_EXTENSIONS,
    SUPPORTED_TEXT_EXTENSIONS,
};
use tabbed_document_ui::new_tab::NewDocumentKind;

#[test]
fn text_extensions_give_text_documents() {
    for extension in SUPPORTED_TEXT_EXTENSIONS {
        assert!(matches!(kind_of_extension(extension), Ok(NewDocumentKind::Text)));
    }
    assert!(matches!(kind_of_extension("txt"), Ok(NewDocumentKind::Text)));
}

#[test]
fn image_extensions_give_image_documents() {
    for extension in SUPPORTED_IMAGE_EXTENSIONS {
        assert!(matches!(kind_of_extension(extension), Ok(NewDocumentKind::Image)));
    }
    for extension in ["bmp", "png", "jpg", "jpeg", "svg"] {
        assert!(matches!(kind_of_extension(extension), Ok(NewDocumentKind::Image)));
    }
}

#[test]
fn other_extensions_are_not_supported() {
    match kind_of_extension("exe") {
        Err(OpenDocumentError::UnsupportedFileExtension { extension }) => {
            assert_eq!(extension, "exe")
        }
        _ => panic!("an unknown extension is refused"),
    }
    assert!(kind_of_extension("").is_err());
    assert!(kind_of_extension("TXT").is_err());
    assert!(kind_of_extension("jpe").is_err());
    assert!(kind_of_extension("txt ").is_err());
}

#[test]
fn document_keys_keep_their_number() {
    let key = DocumentKey::from_ffi(0x0000_0001_0000_0002);
    assert_eq!(key.as_ffi(), 0x0000_0001_0000_0002);
    assert_eq!(key, DocumentKey::from_ffi(key.as_ffi()));
    assert_ne!(key, DocumentKey::from_ffi(3));
}
