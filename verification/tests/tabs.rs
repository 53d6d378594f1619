use tabbed_document_ui::tabs::{TabAction, TabKey, TabMessage, Tabs};

fn keys_of(tabs: &Tabs<u8, u8, u8>) -> Vec<TabKey> {
    tabs.iter().into_iter().map(|(key, _)| key).collect()
}

fn kinds_of(tabs: &Tabs<u8, u8, u8>) -> Vec<u8> {
    tabs.iter().into_iter().map(|(_, kind)| *kind).collect()
}

fn untouched(_key: TabKey, _tab: &mut u8, _message: u8) -> u8 {
    0
}

#[test]
fn a_new_container_is_empty() {
    let tabs: Tabs<u8, u8, u8> = Tabs::default();
    assert!(tabs.iter().is_empty());
    assert!(tabs.active().is_none());
    assert_eq!(tabs.active_key(), None);
    assert!(tabs.has_key_left());
}

#[test]
fn push_hands_out_distinct_keys() {
    let mut tabs: Tabs<&'static str, (), ()> = Tabs::default();
    let first = tabs.push("first");
    let second = tabs.push("second");
    assert_ne!(first, second);
    assert_eq!(tabs.get(first), Some(&"first"));
    assert_eq!(tabs.get(second), Some(&"second"));
}

#[test]
fn push_keeps_the_order_of_arrival() {
    let mut tabs: Tabs<u8, u8, u8> = Tabs::default();
    let a = tabs.push(10);
    let b = tabs.push(20);
    let c = tabs.push(30);
    assert_eq!(keys_of(&tabs), vec![a, b, c]);
    assert_eq!(kinds_of(&tabs), vec![10, 20, 30]);
}

#[test]
fn push_does_not_activate() {
    let mut tabs: Tabs<u8, u8, u8> = Tabs::default();
    let a = tabs.push(10);
    assert!(!tabs.is_active(a));
    assert!(tabs.active().is_none());
}

#[test]
fn a_key_is_not_handed_out_again_after_its_tab_was_closed() {
    let mut tabs: Tabs<u8, u8, u8> = Tabs::default();
    let a = tabs.push(10);
    let _ = tabs.update(TabMessage::CloseTab(a), untouched);
    let b = tabs.push(20);
    assert_ne!(a, b);
    let closed = tabs.close_all();
    assert_eq!(closed.len(), 1);
    let c = tabs.push(30);
    assert_ne!(a, c);
    assert_ne!(b, c);
}

#[test]
fn get_finds_each_tab_and_no_other() {
    let mut tabs: Tabs<u8, u8, u8> = Tabs::default();
    let mut other: Tabs<u8, u8, u8> = Tabs::default();
    let a = tabs.push(10);
    let b = tabs.push(20);
    let c = tabs.push(30);
    let _ = other.push(1);
    let _ = other.push(2);
    let _ = other.push(3);
    let foreign = other.push(4);
    assert_eq!(tabs.get(a), Some(&10));
    assert_eq!(tabs.get(b), Some(&20));
    assert_eq!(tabs.get(c), Some(&30));
    assert_eq!(tabs.get(foreign), None);
}

#[test]
fn replace_keeps_key_and_position() {
    let mut tabs: Tabs<u8, u8, u8> = Tabs::default();
    let a = tabs.push(10);
    let b = tabs.push(20);
    let c = tabs.push(30);
    tabs.replace(b, 21);
    assert_eq!(keys_of(&tabs), vec![a, b, c]);
    assert_eq!(kinds_of(&tabs), vec![10, 21, 30]);
}

#[test]
fn replace_under_an_unknown_key_does_nothing() {
    let mut tabs: Tabs<u8, u8, u8> = Tabs::default();
    let a = tabs.push(10);
    let _ = tabs.update(TabMessage::CloseTab(a), untouched);
    let b = tabs.push(20);
    tabs.replace(a, 99);
    assert_eq!(keys_of(&tabs), vec![b]);
    assert_eq!(kinds_of(&tabs), vec![20]);
}

#[test]
fn activate_makes_the_tab_active() {
    let mut tabs: Tabs<u8, u8, u8> = Tabs::default();
    let a = tabs.push(10);
    let b = tabs.push(20);
    tabs.activate(b);
    assert!(tabs.is_active(b));
    assert!(!tabs.is_active(a));
    assert_eq!(tabs.active(), Some((b, &20)));
    assert_eq!(tabs.active_key(), Some(b));
}

#[test]
fn closing_the_active_tab_activates_the_previous_one() {
    let mut tabs: Tabs<u8, u8, u8> = Tabs::default();
    let first = tabs.push(1);
    let second = tabs.push(2);
    tabs.activate(first);
    tabs.activate(second);
    let action = tabs.update(TabMessage::CloseTab(second), untouched);
    assert!(matches!(action, TabAction::TabClosed(key, 2) if key == second));
    assert!(tabs.is_active(first));
    assert_eq!(tabs.get(second), None);
}

#[test]
fn closing_walks_back_through_the_history() {
    let mut tabs: Tabs<u8, u8, u8> = Tabs::default();
    let a = tabs.push(10);
    let b = tabs.push(20);
    let c = tabs.push(30);
    tabs.activate(a);
    tabs.activate(b);
    tabs.activate(a);
    // history: a b c a b a
    let _ = tabs.update(TabMessage::CloseTab(a), untouched);
    // history: b c b
    assert_eq!(tabs.active_key(), Some(b));
    let _ = tabs.update(TabMessage::CloseTab(b), untouched);
    // history: c
    assert_eq!(tabs.active_key(), Some(c));
    let _ = tabs.update(TabMessage::CloseTab(c), untouched);
    assert_eq!(tabs.active_key(), None);
    assert!(tabs.iter().is_empty());
}

#[test]
fn closing_a_tab_makes_the_latest_of_the_history_active() {
    let mut tabs: Tabs<u8, u8, u8> = Tabs::default();
    let a = tabs.push(10);
    let b = tabs.push(20);
    let c = tabs.push(30);
    tabs.activate(a);
    // history: a b c a; the pushed but never activated c is closed
    let _ = tabs.update(TabMessage::CloseTab(c), untouched);
    assert_eq!(tabs.active_key(), Some(a));
    // a tab that was only pushed counts too: history a b a, b closed leaves a
    let d = tabs.push(40);
    // history: a b a d; closing a leaves b d, so d becomes active
    let _ = tabs.update(TabMessage::CloseTab(a), untouched);
    assert_eq!(tabs.active_key(), Some(d));
    assert_eq!(keys_of(&tabs), vec![b, d]);
}

#[test]
fn activating_twice_is_kept_once_in_the_history() {
    let mut tabs: Tabs<u8, u8, u8> = Tabs::default();
    let a = tabs.push(10);
    let b = tabs.push(20);
    tabs.activate(b);
    tabs.activate(a);
    tabs.activate(a);
    // history: a b a
    let _ = tabs.update(TabMessage::CloseTab(a), untouched);
    assert_eq!(tabs.active_key(), Some(b));
    let _ = tabs.update(TabMessage::CloseTab(b), untouched);
    assert_eq!(tabs.active_key(), None);
}

#[test]
fn closing_keeps_the_order_of_the_other_tabs() {
    let mut tabs: Tabs<u8, u8, u8> = Tabs::default();
    let a = tabs.push(10);
    let b = tabs.push(20);
    let c = tabs.push(30);
    let d = tabs.push(40);
    let action = tabs.update(TabMessage::CloseTab(b), untouched);
    assert!(matches!(action, TabAction::TabClosed(key, 20) if key == b));
    assert_eq!(keys_of(&tabs), vec![a, c, d]);
    assert_eq!(kinds_of(&tabs), vec![10, 30, 40]);
    assert_eq!(tabs.get(c), Some(&30));
    assert_eq!(tabs.get(d), Some(&40));
    assert_eq!(tabs.get(b), None);
}

#[test]
fn close_all_returns_the_tabs_in_order() {
    let mut tabs: Tabs<u8, u8, u8> = Tabs::default();
    let a = tabs.push(10);
    let b = tabs.push(20);
    let c = tabs.push(30);
    tabs.activate(b);
    let closed = tabs.close_all();
    assert_eq!(closed, vec![(a, 10), (b, 20), (c, 30)]);
    assert!(tabs.iter().is_empty());
    assert_eq!(tabs.active_key(), None);
    assert_eq!(tabs.get(a), None);
    assert_eq!(tabs.get(b), None);
}

#[test]
fn close_all_clears_the_history() {
    let mut tabs: Tabs<u8, u8, u8> = Tabs::default();
    let a = tabs.push(10);
    tabs.activate(a);
    let _ = tabs.close_all();
    let b = tabs.push(20);
    let c = tabs.push(30);
    // history: b c
    let _ = tabs.update(TabMessage::CloseTab(c), untouched);
    assert_eq!(tabs.active_key(), Some(b));
    let _ = tabs.update(TabMessage::CloseTab(b), untouched);
    assert_eq!(tabs.active_key(), None);
}

#[test]
fn close_all_on_an_empty_container() {
    let mut tabs: Tabs<u8, u8, u8> = Tabs::default();
    assert!(tabs.close_all().is_empty());
}

#[test]
fn selecting_by_message_leaves_the_history_alone() {
    let mut tabs: Tabs<u8, u8, u8> = Tabs::default();
    let a = tabs.push(10);
    let b = tabs.push(20);
    let c = tabs.push(30);
    let action = tabs.update(TabMessage::ActivateTab(a), untouched);
    assert!(matches!(action, TabAction::TabSelected(key) if key == a));
    assert!(tabs.is_active(a));
    // history is still a b c: closing c makes b active, not a
    let _ = tabs.update(TabMessage::CloseTab(c), untouched);
    assert_eq!(tabs.active_key(), Some(b));
}

#[test]
fn a_message_for_a_tab_reaches_the_tab() {
    let mut tabs: Tabs<u8, u8, String> = Tabs::default();
    let a = tabs.push(10);
    let b = tabs.push(20);
    let action = tabs.update(TabMessage::TabKindMessage(b, 5), |key, tab, message| {
        *tab += message;
        format!("{:?} got {}", key == b, message)
    });
    match action {
        TabAction::TabAction(text) => assert_eq!(text, "true got 5"),
        _ => panic!("the action of the tab is passed on"),
    }
    assert_eq!(tabs.get(a), Some(&10));
    assert_eq!(tabs.get(b), Some(&25));
}

#[test]
fn is_active_tells_the_active_tab_only() {
    let mut tabs: Tabs<u8, u8, u8> = Tabs::default();
    let a = tabs.push(10);
    let b = tabs.push(20);
    assert!(!tabs.is_active(a));
    tabs.activate(a);
    assert!(tabs.is_active(a));
    assert!(!tabs.is_active(b));
}

#[test]
fn tab_keys_compare_and_copy() {
    let mut tabs: Tabs<u8, u8, u8> = Tabs::default();
    let a = tabs.push(10);
    let copy = a;
    assert_eq!(a, copy);
    assert_eq!(format!("{:?}", a), "TabKey(0)");
    let b = tabs.push(20);
    assert_eq!(format!("{:?}", b), "TabKey(1)");
}
