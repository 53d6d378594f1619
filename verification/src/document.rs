//! Documents: the key under which the application keeps a document, what a
//! document can be, and the kinds of file that can be opened.

use vstd::prelude::*;
use crate::image_document::ImageDocument;
use crate::new_tab::NewDocumentKind;
use crate::text::same_text;
use crate::text_document::TextDocument;

verus! {

/// Names one open document. The application keeps its documents in a slot
/// map; a key of that map travels here as its 64-bit form.
#[derive(Debug, Clone, Copy, Hash, PartialEq, Eq, Structural)]
pub struct DocumentKey(u64);

impl View for DocumentKey {
    type V = u64;

    closed spec fn view(&self) -> u64 {
        self.0
    }
}

impl DocumentKey {
    /// The key whose 64-bit form is `value`.
    pub closed spec fn spec_from_ffi(value: u64) -> DocumentKey {
        DocumentKey(value)
    }

    /// The key whose 64-bit form is `value`.
    pub fn from_ffi(value: u64) -> (key: Self)
        ensures
            key == Self::spec_from_ffi(value),
            key@ == value,
    {
        DocumentKey(value)
    }

    /// The 64-bit form of the key.
    pub fn as_ffi(&self) -> (value: u64)
        ensures
            value == self@,
            *self == Self::spec_from_ffi(value),
    {
        self.0
    }
}

/// An open document. `C` is the editor's content of a text document, `H` the
/// handle by which an image is shown.
pub enum DocumentKind<C, H> {
    TextDocument(TextDocument<C>),
    ImageDocument(ImageDocument<H>),
}

pub const SUPPORTED_IMAGE_EXTENSIONS: [&'static str; 5] = ["bmp", "png", "jpg", "jpeg", "svg"];

pub const SUPPORTED_TEXT_EXTENSIONS: [&'static str; 1] = ["txt"];

/// Why a document could not be opened.
#[derive(Debug)]
pub enum OpenDocumentError {
    UnsupportedFileExtension { extension: String },
    IoError { cause: std::io::Error },
}

/// `extension` is the extension of a text file.
pub open spec fn is_text_extension(extension: Seq<char>) -> bool {
    extension == "txt"@
}

/// `extension` is the extension of an image file.
pub open spec fn is_image_extension(extension: Seq<char>) -> bool {
    ||| extension == "bmp"@
    ||| extension == "png"@
    ||| extension == "jpg"@
    ||| extension == "jpeg"@
    ||| extension == "svg"@
}

fn contains_text(extensions: &[&'static str], extension: &str) -> (found: bool)
    ensures
        found == exists|i: int| 0 <= i < extensions@.len() && (#[trigger] extensions@[i])@ == extension@,
{
    let mut i: usize = 0;
    while i < extensions.len()
        invariant
            i <= extensions@.len(),
            forall|j: int| 0 <= j < i ==> (#[trigger] extensions@[j])@ != extension@,
        decreases extensions@.len() - i,
    {
        if same_text(extensions[i], extension) {
            return true;
        }
        i += 1;
    }
    false
}

/// The kind of document that a file with this extension holds. A file whose
/// extension is neither a text nor an image extension is not supported.
pub fn kind_of_extension(extension: &str) -> (kind: Result<NewDocumentKind, OpenDocumentError>)
    ensures
        is_text_extension(extension@) ==> kind == Ok::<NewDocumentKind, OpenDocumentError>(
            NewDocumentKind::Text,
        ),
        !is_text_extension(extension@) && is_image_extension(extension@) ==> kind == Ok::<
            NewDocumentKind,
            OpenDocumentError,
        >(NewDocumentKind::Image),
        !is_text_extension(extension@) && !is_image_extension(extension@) ==> (kind matches Err(
            OpenDocumentError::UnsupportedFileExtension { extension: unsupported },
        ) && unsupported@ == extension@),
{
    if contains_text(&SUPPORTED_TEXT_EXTENSIONS, extension) {
        Ok(NewDocumentKind::Text)
    } else if contains_text(&SUPPORTED_IMAGE_EXTENSIONS, extension) {
        Ok(NewDocumentKind::Image)
    } else {
        Err(OpenDocumentError::UnsupportedFileExtension { extension: extension.to_owned() })
    }
}

} // verus!
