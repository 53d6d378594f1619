//! The tabs of the application: the home tab, document tabs and the form for
//! a new document, and what showing, opening and closing does to the tab bar.

use vstd::prelude::*;
use vstd::pervasive::unreached;
use crate::document::DocumentKey;
use crate::document_tab::{DocumentTab, DocumentTabAction, DocumentTabMessage};
use crate::home_tab::{HomeTab, HomeTabAction, HomeTabMessage};
use crate::new_tab::{NewTab, NewTabAction, NewTabMessage};
use crate::tabs::{TabKey, Tabs};

verus! {

pub enum TabKind {
    Home(HomeTab),
    Document(DocumentTab),
    New(NewTab),
}

#[derive(Debug, Clone)]
pub enum TabKindMessage<E> {
    HomeTabMessage(HomeTabMessage),
    DocumentTabMessage(DocumentTabMessage<E>),
    NewTabMessage(NewTabMessage),
}

pub enum TabKindAction {
    HomeTabAction(TabKey, HomeTabAction),
    DocumentTabAction(TabKey, DocumentTabAction),
    NewTabAction(TabKey, NewTabAction),
}

/// `message` is for a tab like `tab`: each kind of tab takes the messages of
/// its kind, and the form for a new document takes those that it accepts.
pub open spec fn message_fits<E>(tab: TabKind, message: TabKindMessage<E>) -> bool {
    match message {
        TabKindMessage::HomeTabMessage(_) => tab is Home,
        TabKindMessage::DocumentTabMessage(_) => tab is Document,
        TabKindMessage::NewTabMessage(new_message) => {
            &&& tab matches TabKind::New(new_tab)
            &&& new_tab@.accepts(new_message)
        },
    }
}

/// `position` is the place of the first home tab among `entries`.
pub open spec fn first_home(entries: Seq<(TabKey, TabKind)>, position: int) -> bool {
    &&& 0 <= position < entries.len()
    &&& entries[position].1 is Home
    &&& forall|earlier: int| 0 <= earlier < position ==> !((#[trigger] entries[earlier]).1 is Home)
}

/// No home tab is among `entries`.
pub open spec fn no_home(entries: Seq<(TabKey, TabKind)>) -> bool {
    forall|position: int| 0 <= position < entries.len() ==> !((#[trigger] entries[position]).1 is Home)
}

/// The number of home tabs among `entries`.
pub open spec fn home_count(entries: Seq<(TabKey, TabKind)>) -> nat
    decreases entries.len(),
{
    if entries.len() == 0 {
        0
    } else if entries.last().1 is Home {
        home_count(entries.drop_last()) + 1
    } else {
        home_count(entries.drop_last())
    }
}

/// No home tab is among `entries` exactly where their number is zero.
pub proof fn lemma_no_home_counts_zero(entries: Seq<(TabKey, TabKind)>)
    ensures
        no_home(entries) <==> home_count(entries) == 0,
    decreases entries.len(),
{
    if entries.len() > 0 {
        let front = entries.drop_last();
        lemma_no_home_counts_zero(front);
        if no_home(entries) {
            assert(!(entries[entries.len() - 1].1 is Home));
            assert forall|position: int| 0 <= position < front.len() implies !((
            #[trigger] front[position]).1 is Home) by {
                assert(!(entries[position].1 is Home));
            }
        }
        if home_count(entries) == 0 {
            assert forall|position: int| 0 <= position < entries.len() implies !((
            #[trigger] entries[position]).1 is Home) by {
                if position < front.len() {
                    assert(!(front[position].1 is Home));
                }
            }
        }
    }
}

/// The key of the first home tab of `tabs`, if a home tab is open.
pub fn find_home<TKM, TKA>(tabs: &Tabs<TabKind, TKM, TKA>) -> (home: Option<TabKey>)
    requires
        tabs.wf(),
    ensures
        match home {
            Some(key) => exists|position: int| #[trigger]
                first_home(tabs@.entries, position) && tabs@.entries[position].0 == key,
            None => no_home(tabs@.entries),
        },
{
    let open = tabs.iter();
    let mut position: usize = 0;
    while position < open.len()
        invariant
            position <= open@.len(),
            open@.len() == tabs@.entries.len(),
            forall|i: int|
                0 <= i < open@.len() ==> (#[trigger] open@[i]).0 == tabs@.entries[i].0
                    && *open@[i].1 == tabs@.entries[i].1,
            forall|earlier: int|
                0 <= earlier < position ==> !((#[trigger] tabs@.entries[earlier]).1 is Home),
        decreases open@.len() - position,
    {
        let is_home = match open[position].1 {
            TabKind::Home(_) => true,
            _ => false,
        };
        if is_home {
            assert(first_home(tabs@.entries, position as int));
            return Some(open[position].0);
        }
        position += 1;
    }
    None
}

/// Brings the home tab to the front: the first home tab becomes active.
/// Where no home tab is open, one is pushed with the setting
/// `show_on_startup`; it is not made active. Either way a home tab is open
/// afterwards, and no second one was opened.
pub fn show_home<TKM, TKA>(tabs: &mut Tabs<TabKind, TKM, TKA>, show_on_startup: bool)
    requires
        old(tabs).wf(),
        no_home(old(tabs)@.entries) ==> old(tabs)@.next < u64::MAX,
    ensures
        final(tabs).wf(),
        forall|position: int| #[trigger]
            first_home(old(tabs)@.entries, position) ==> final(tabs)@ == old(tabs)@.activated(
                old(tabs)@.entries[position].0,
            ),
        no_home(old(tabs)@.entries) ==> final(tabs)@ == old(tabs)@.pushed(
            TabKind::Home(HomeTab::with_setting(show_on_startup)),
        ),
        !no_home(final(tabs)@.entries),
        home_count(final(tabs)@.entries) == if no_home(old(tabs)@.entries) {
            1
        } else {
            home_count(old(tabs)@.entries)
        },
{
    let home_tab = find_home(tabs);

    if let Some(key) = home_tab {
        proof {
            let entries = tabs@.entries;
            let found = choose|position: int| #[trigger]
                first_home(entries, position) && entries[position].0 == key;
            assert forall|position: int| #[trigger] first_home(entries, position) implies position
                == found by {
                if position < found {
                    assert(!(entries[position].1 is Home));
                } else if found < position {
                    assert(!(entries[found].1 is Home));
                }
            }
            assert(!no_home(entries)) by {
                assert(entries[found].1 is Home);
            }
        }
        tabs.activate(key);
        proof {
            let entries = tabs@.entries;
            let found = choose|position: int| #[trigger]
                first_home(entries, position) && entries[position].0 == key;
            assert(entries[found].1 is Home);
        }
    } else {
        proof {
            let entries = tabs@.entries;
            assert forall|position: int| !#[trigger] first_home(entries, position) by {
                if 0 <= position < entries.len() {
                    assert(!(entries[position].1 is Home));
                }
            }
        }
        let home_tab = HomeTab::new(show_on_startup);
        let _key = tabs.push(TabKind::Home(home_tab));
        proof {
            assert(tabs@.entries[tabs@.entries.len() - 1].1 is Home);
            assert(tabs@.entries.drop_last() =~= old(tabs)@.entries);
            lemma_no_home_counts_zero(old(tabs)@.entries);
        }
    }
}

/// Opens a tab for the document under `document` as the last tab, makes it
/// the active tab, and returns its key.
pub fn show_document<TKM, TKA>(tabs: &mut Tabs<TabKind, TKM, TKA>, document: DocumentKey) -> (key:
    TabKey)
    requires
        old(tabs).wf(),
        old(tabs)@.next < u64::MAX,
    ensures
        final(tabs).wf(),
        key == TabKey::numbered(old(tabs)@.next),
        final(tabs)@ == old(tabs)@.pushed(
            TabKind::Document(DocumentTab::showing(document)),
        ).activated(key),
{
    let document_tab = DocumentTab::new(document);
    let key = tabs.push(TabKind::Document(document_tab));
    tabs.activate(key);

    key
}

/// The documents that go with `entries`: the document of each document tab,
/// in the order of the tabs.
pub open spec fn documents_of(entries: Seq<(TabKey, TabKind)>) -> Seq<DocumentKey>
    decreases entries.len(),
{
    if entries.len() == 0 {
        Seq::empty()
    } else {
        match entries.last().1 {
            TabKind::Document(document_tab) => documents_of(entries.drop_last()).push(
                document_tab@,
            ),
            _ => documents_of(entries.drop_last()),
        }
    }
}

/// Closes every tab and returns the documents that went with the closed
/// tabs, in the order of the tabs.
pub fn close_all<TKM, TKA>(tabs: &mut Tabs<TabKind, TKM, TKA>) -> (documents: Vec<DocumentKey>)
    requires
        old(tabs).wf(),
    ensures
        final(tabs).wf(),
        final(tabs)@ == old(tabs)@.emptied(),
        documents@ == documents_of(old(tabs)@.entries),
{
    let closed_tabs = tabs.close_all();
    let mut documents: Vec<DocumentKey> = Vec::new();
    let mut position: usize = 0;
    while position < closed_tabs.len()
        invariant
            position <= closed_tabs@.len(),
            documents@ == documents_of(closed_tabs@.take(position as int)),
        decreases closed_tabs@.len() - position,
    {
        proof {
            assert(closed_tabs@.take(position + 1).drop_last() =~= closed_tabs@.take(
                position as int,
            ));
        }
        if let Some(document) = closed_document(&closed_tabs[position].1) {
            documents.push(document);
        }
        position += 1;
    }
    proof {
        assert(closed_tabs@.take(position as int) =~= closed_tabs@);
    }
    documents
}

/// The document that goes with a closed tab: the one that a document tab
/// showed. No document goes with any other tab.
pub fn closed_document(tab_kind: &TabKind) -> (document: Option<DocumentKey>)
    ensures
        match *tab_kind {
            TabKind::Document(document_tab) => document == Some(document_tab@),
            _ => document is None,
        },
{
    match tab_kind {
        TabKind::Document(document_tab) => Some(document_tab.key()),
        _ => None,
    }
}

/// Whether `message` is for a tab like `tab`.
pub fn fits<E>(tab: &TabKind, message: &TabKindMessage<E>) -> (fitting: bool)
    ensures
        fitting == message_fits(*tab, *message),
{
    match message {
        TabKindMessage::HomeTabMessage(_) => match tab {
            TabKind::Home(_) => true,
            _ => false,
        },
        TabKindMessage::DocumentTabMessage(_) => match tab {
            TabKind::Document(_) => true,
            _ => false,
        },
        TabKindMessage::NewTabMessage(new_message) => match tab {
            TabKind::New(new_tab) => match new_message {
                NewTabMessage::CreateDocument => new_tab.kind().is_some(),
                _ => true,
            },
            _ => false,
        },
    }
}

/// Hands `message` to the tab under `key` and says, with the key, what the
/// tab asks for.
///
/// A message for a document tab goes to `update_document` together with the
/// tab; the home tab and the form for a new document take their messages
/// themselves.
pub fn update_tab_kind<E, F>(
    key: TabKey,
    tab: &mut TabKind,
    message: TabKindMessage<E>,
    update_document: F,
) -> (action: TabKindAction) where F: FnOnce(&mut DocumentTab, DocumentTabMessage<E>) -> DocumentTabAction
    requires
        message_fits(*old(tab), message),
        message matches TabKindMessage::DocumentTabMessage(document_message) ==> forall|
            document_tab: &mut DocumentTab,
        |
            TabKind::Document(*document_tab) == *old(tab) ==> #[trigger] update_document.requires(
                (document_tab, document_message),
            ),
    ensures
        message matches TabKindMessage::HomeTabMessage(HomeTabMessage::ShowOnStartupChanged(value))
            ==> {
            &&& *final(tab) == TabKind::Home(HomeTab::with_setting(value))
            &&& action matches TabKindAction::HomeTabAction(
                home_key,
                HomeTabAction::ShowOnStartupChanged,
            )
            &&& home_key == key
        },
        message matches TabKindMessage::DocumentTabMessage(document_message) ==> exists|
            document_tab: &mut DocumentTab,
            document_action: DocumentTabAction,
        |
            {
                &&& #[trigger] update_document.ensures(
                    (document_tab, document_message),
                    document_action,
                )
                &&& TabKind::Document(*document_tab) == *old(tab)
                &&& *final(tab) == TabKind::Document(*final(document_tab))
                &&& action == TabKindAction::DocumentTabAction(key, document_action)
            },
        message matches TabKindMessage::NewTabMessage(new_message) ==> {
            &&& *old(tab) matches TabKind::New(before)
            &&& *final(tab) matches TabKind::New(after)
            &&& action matches TabKindAction::NewTabAction(new_key, new_action)
            &&& new_key == key
            &&& before@.updated(new_message, after@, new_action)
        },
{
    match tab {
        TabKind::Home(tab) => match message {
            TabKindMessage::HomeTabMessage(message) => {
                TabKindAction::HomeTabAction(key, tab.update(message))
            },
            _ => unreached(),
        },
        TabKind::Document(tab) => match message {
            TabKindMessage::DocumentTabMessage(message) => {
                TabKindAction::DocumentTabAction(key, update_document(tab, message))
            },
            _ => unreached(),
        },
        TabKind::New(tab) => match message {
            TabKindMessage::NewTabMessage(message) => {
                TabKindAction::NewTabAction(key, tab.update(message))
            },
            _ => unreached(),
        },
    }
}

} // verus!
