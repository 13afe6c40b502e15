//! The document-management core of a tabbed text editor.
//!
//! A [`tabs::Tab`] is one open document; a [`documents::DocumentSet`] keeps
//! the open documents in tab order and knows which one is active; an
//! [`editor::Editor`] holds the set together with the current error and the
//! user's settings, and [`editor::update`] takes it from one message to the
//! next. The editor never touches a file or a dialog: it answers a message
//! with the [`editor::Request`] that is to be carried out, and takes the
//! outcome in as a message again.
//!
//! Contracts speak of the views of these types; [`laws`] states what follows
//! for every editor.

pub mod buffer;
pub mod documents;
pub mod editor;
pub mod error;
pub mod laws;
pub mod path;
pub mod tabgroups;
pub mod tabs;
pub mod theme;
