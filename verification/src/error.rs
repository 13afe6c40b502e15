//! What can go wrong while documents are opened, saved and selected.

use vstd::prelude::*;

use std::io::ErrorKind;

verus! {

#[verifier::external_type_specification]
#[verifier::external_body]
pub struct ExErrorKind(ErrorKind);

/// Why an open or a save did not end well.
#[derive(Debug)]
pub enum EditorError {
    /// The file dialog was dismissed without a choice. Not a fault.
    DialogClosed,
    /// Reading or writing the file failed, with the kind of failure.
    IO(ErrorKind),
    /// No path to save to could be settled on.
    FailedToSave,
    /// A save came back for a document that is no longer tracked.
    Reconciliation,
}

/// A tab index that points past the last tab.
#[derive(Clone, Copy, Debug, PartialEq, Eq, Structural)]
pub struct IndexError {
    /// The index that was asked for.
    pub index: usize,
    /// How many tabs there were.
    pub len: usize,
}

} // verus!
