//! An image document: where its file is, the handle by which the image is
//! shown, the place last clicked, and the lines of its information panel.
//!
//! The handle is the toolkit's own value of type `H` and passes through unread.

use vstd::prelude::*;
use vstd::string::StringExecFns;
use crate::sidebar::{first_under, line_of, Sidebar, SidebarItem, SidebarLine};
use crate::text::{decimal, push_decimal};

verus! {

/// A place in the image, in pixels.
#[derive(Debug, Clone, Default)]
pub struct Coordinate {
    pub x: u32,
    pub y: u32,
}

#[derive(Debug, Clone)]
pub enum ImageDocumentMessage {
    Nothing,
    ImageClicked(Coordinate),
}

pub enum ImageDocumentAction {
    Nothing,
}

pub const SIDEBAR_ITEM_PATH: &'static str = "PATH";

pub const SIDEBAR_ITEM_SIZE: &'static str = "SIZE";

pub const SIDEBAR_ITEM_LAST_CLICKED_COORDINATE: &'static str = "LAST_CLICKED_COORDINATE";

/// The panel's text for the size of the image: both numbers where the size
/// is known, `Error` where it could not be read.
pub open spec fn dimensions_text(dimensions: Option<(u32, u32)>) -> Seq<char> {
    match dimensions {
        Some((x, y)) => "x: "@ + decimal(x as nat) + ", y: "@ + decimal(y as nat),
        None => "Error"@,
    }
}

/// The panel's text for the place last clicked, in the form in which `Debug`
/// writes it.
pub open spec fn last_clicked_text(last_clicked: Option<Coordinate>) -> Seq<char> {
    match last_clicked {
        Some(coordinate) => "Some(Coordinate { x: "@ + decimal(coordinate.x as nat) + ", y: "@
            + decimal(coordinate.y as nat) + " })"@,
        None => "None"@,
    }
}

/// The three lines of the panel: the path, the size, the place last clicked.
pub open spec fn panel_lines(
    path: Seq<char>,
    dimensions: Seq<char>,
    last_clicked: Seq<char>,
) -> Seq<SidebarLine> {
    seq![
        SidebarLine { key: SIDEBAR_ITEM_PATH@, title: "Path"@, value: path },
        SidebarLine { key: SIDEBAR_ITEM_SIZE@, title: "Size (X/Y)"@, value: dimensions },
        SidebarLine {
            key: SIDEBAR_ITEM_LAST_CLICKED_COORDINATE@,
            title: "Last clicked coordinate"@,
            value: last_clicked,
        },
    ]
}

fn format_dimensions(dimensions: Option<(u32, u32)>) -> (text: String)
    ensures
        text@ == dimensions_text(dimensions),
{
    match dimensions {
        Some((x, y)) => {
            let mut text = "x: ".to_owned();
            push_decimal(&mut text, x);
            text.append(", y: ");
            push_decimal(&mut text, y);
            text
        },
        None => "Error".to_owned(),
    }
}

fn format_last_clicked(last_clicked: &Option<Coordinate>) -> (text: String)
    ensures
        text@ == last_clicked_text(*last_clicked),
{
    match last_clicked {
        Some(coordinate) => {
            let mut text = "Some(Coordinate { x: ".to_owned();
            push_decimal(&mut text, coordinate.x);
            text.append(", y: ");
            push_decimal(&mut text, coordinate.y);
            text.append(" })");
            text
        },
        None => "None".to_owned(),
    }
}

pub struct ImageDocument<H> {
    path: String,
    handle: H,
    state: ImageDocumentState,
}

pub struct ImageDocumentState {
    last_clicked: Option<Coordinate>,
    sidebar: Sidebar,
}

impl<H> ImageDocument<H> {
    /// The place last clicked, if the image was clicked.
    pub closed spec fn clicked(&self) -> Option<Coordinate> {
        self.state.last_clicked
    }

    /// The lines of the information panel.
    pub closed spec fn lines(&self) -> Seq<SidebarLine> {
        self.state.sidebar.lines()
    }

    /// The path of the image's file.
    pub closed spec fn location(&self) -> Seq<char> {
        self.path@
    }

    /// The handle by which the image is shown.
    pub closed spec fn shown_by(&self) -> H {
        self.handle
    }

    /// The panel holds its three lines, and the third tells the place last
    /// clicked.
    pub open spec fn wf(&self) -> bool {
        self.lines() == panel_lines(
            self.lines()[0].value,
            self.lines()[1].value,
            last_clicked_text(self.clicked()),
        )
    }

    /// `message` turns the document `self` into `after`.
    ///
    /// A click is kept, and the panel's third line tells it. Path, handle
    /// and the other lines stay.
    pub open spec fn updated(self, message: ImageDocumentMessage, after: Self) -> bool {
        &&& after.wf()
        &&& after.location() == self.location()
        &&& after.shown_by() == self.shown_by()
        &&& match message {
            ImageDocumentMessage::Nothing => {
                &&& after.clicked() == self.clicked()
                &&& after.lines() == self.lines()
            },
            ImageDocumentMessage::ImageClicked(coordinate) => {
                &&& after.clicked() == Some(coordinate)
                &&& after.lines() == self.lines().update(
                    2,
                    SidebarLine { value: last_clicked_text(Some(coordinate)), ..self.lines()[2] },
                )
            },
        }
    }

    /// The document for the image at `path`, which is shown by `handle` and
    /// has the size `dimensions` where that could be read.
    pub fn new(path: String, handle: H, dimensions: Option<(u32, u32)>) -> (document: Self)
        ensures
            document.wf(),
            document.location() == path@,
            document.shown_by() == handle,
            document.clicked() is None,
            document.lines() == panel_lines(path@, dimensions_text(dimensions), "None"@),
    {
        let mut sidebar = Sidebar::default();

        sidebar.add_item(SIDEBAR_ITEM_PATH, SidebarItem::Text("Path".to_owned(), path.clone()));

        let dimensions_message = format_dimensions(dimensions);

        sidebar.add_item(
            SIDEBAR_ITEM_SIZE,
            SidebarItem::Text("Size (X/Y)".to_owned(), dimensions_message),
        );

        sidebar.add_item(
            SIDEBAR_ITEM_LAST_CLICKED_COORDINATE,
            SidebarItem::Text("Last clicked coordinate".to_owned(), "None".to_owned()),
        );

        let document = Self { path, handle, state: ImageDocumentState { last_clicked: None, sidebar } };
        assert(document.lines() =~= panel_lines(path@, dimensions_text(dimensions), "None"@));
        document
    }

    /// The path of the image's file.
    pub fn path(&self) -> (path: &String)
        ensures
            path@ == self.location(),
    {
        &self.path
    }

    /// The handle by which the image is shown.
    pub fn handle(&self) -> (handle: &H)
        ensures
            *handle == self.shown_by(),
    {
        &self.handle
    }

    /// The place last clicked, if the image was clicked.
    pub fn last_clicked(&self) -> (last_clicked: &Option<Coordinate>)
        ensures
            *last_clicked == self.clicked(),
    {
        &self.state.last_clicked
    }

    /// The information panel.
    pub fn sidebar(&self) -> (sidebar: &Sidebar)
        ensures
            sidebar.lines() == self.lines(),
    {
        &self.state.sidebar
    }

    /// Carries out one message of the document.
    pub fn update(&mut self, message: ImageDocumentMessage) -> (action: ImageDocumentAction)
        requires
            old(self).wf(),
        ensures
            old(self).updated(message, *final(self)),
            action is Nothing,
    {
        match message {
            ImageDocumentMessage::Nothing => (),
            ImageDocumentMessage::ImageClicked(coordinate) => {
                self.state.last_clicked = Some(coordinate);
                let text = format_last_clicked(&self.state.last_clicked);
                let ghost before = self.state.sidebar.entries();
                proof {
                    reveal_strlit("PATH");
                    reveal_strlit("SIZE");
                    reveal_strlit("LAST_CLICKED_COORDINATE");
                    assert(old(self).lines().len() == 3);
                    assert(old(self).lines()[0].key == SIDEBAR_ITEM_PATH@);
                    assert(old(self).lines()[1].key == SIDEBAR_ITEM_SIZE@);
                    assert(old(self).lines()[2].key == SIDEBAR_ITEM_LAST_CLICKED_COORDINATE@);
                    assert(first_under(before, SIDEBAR_ITEM_LAST_CLICKED_COORDINATE@, 2));
                }
                let set_value = |item: &mut SidebarItem|
                    ensures
                        line_of(SIDEBAR_ITEM_LAST_CLICKED_COORDINATE, *final(item)) == (SidebarLine {
                            value: text@,
                            ..line_of(SIDEBAR_ITEM_LAST_CLICKED_COORDINATE, *old(item))
                        }),
                    {
                        match item {
                            SidebarItem::Text(_label, value) => {
                                *value = text.clone();
                            },
                        }
                    };
                self.state.sidebar.update_item(SIDEBAR_ITEM_LAST_CLICKED_COORDINATE, set_value);
                proof {
                    assert(self.lines() =~= old(self).lines().update(
                        2,
                        SidebarLine { value: text@, ..old(self).lines()[2] },
                    ));
                    assert(self.lines() =~= panel_lines(
                        old(self).lines()[0].value,
                        old(self).lines()[1].value,
                        text@,
                    ));
                }
            },
        }
        ImageDocumentAction::Nothing
    }
}

} // verus!
