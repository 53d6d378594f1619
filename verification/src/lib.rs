//! Verified state management for a tabbed, multi-document interface.
//!
//! The library holds what such an interface decides, apart from how it is
//! drawn:
//!
//! - [`tabs`] is the tab bar's container: the open tabs in their order, the
//!   active tab, and the history by which closing a tab finds the tab to go
//!   back to. [`tabs_state`] is the state that its contracts speak of,
//!   [`tab_laws`] what holds of that state after each step, [`history`] the
//!   two operations on the history, and [`key_set`] the ordered set of keys,
//!   which is `indexmap`'s.
//! - [`app_tabs`], [`home_tab`], [`document_tab`] and [`new_tab`] are the tabs
//!   of the application, and [`app_toolbar`] is its toolbar.
//! - [`document`], [`text_document`], [`image_document`] and [`sidebar`] are
//!   what the documents keep beside the widgets that show them.
//! - [`executor`] is the trait of what runs the application's futures.
//! - [`text`] compares strings and writes numbers.
//!
//! Every function states what it returns and changes, and Verus proves it.
//! What is taken on trust, the behaviour of `indexmap`'s set, is stated in
//! [`key_set`].

pub mod app_tabs;
pub mod app_toolbar;
pub mod document;
pub mod document_tab;
pub mod executor;
pub mod history;
pub mod home_tab;
pub mod image_document;
pub mod key_set;
pub mod new_tab;
pub mod sidebar;
pub mod tab_laws;
pub mod tabs;
pub mod tabs_state;
pub mod text;
pub mod text_document;
