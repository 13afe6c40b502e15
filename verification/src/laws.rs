//! What holds of the editor whatever its documents are.

use vstd::prelude::*;

use std::path::PathBuf;

use crate::documents::DocumentSetView;
use crate::editor::{EditorView, Messages};
use crate::error::{EditorError, IndexError};
use crate::path::{display_name_for, path_key};
use crate::tabs::{first_at_path, is_first_at, lemma_first_at_path, TabView};

verus! {

/// However a document is made or changed, it is well formed afterwards: one
/// that counts as new is stored nowhere.
pub proof fn law_documents_stay_well_formed(
    tab: TabView,
    path: PathBuf,
    text: Seq<char>,
    name: Seq<char>,
)
    ensures
        TabView::fresh().wf(),
        TabView::loaded(path, text, name).wf(),
        tab.saved(path).wf(),
        tab.wf() ==> tab.edited(text).wf(),
{
}

/// A save turns any document, a never-saved one too, into one that is
/// clean, no longer new, stored at the path it was written to and labelled
/// by the final component of that path; its text stays.
pub proof fn law_save_settles_a_document(tab: TabView, path: PathBuf)
    ensures
        !tab.saved(path).is_new,
        !tab.saved(path).is_dirty,
        tab.saved(path).source_path == Some(path),
        tab.saved(path).display_name == display_name_for(path),
        tab.saved(path).text == tab.text,
        tab.saved(path).is_path(path),
{
}

/// Two paths that compare equal find the same tab.
pub proof fn law_equal_paths_find_the_same_tab(tabs: Seq<TabView>, path: PathBuf, other: PathBuf)
    requires
        path_key(path) == path_key(other),
    ensures
        first_at_path(tabs, path) == first_at_path(tabs, other),
{
    lemma_first_at_path(tabs, path);
    lemma_first_at_path(tabs, other);
    match first_at_path(tabs, path) {
        Some(i) => {
            assert(is_first_at(tabs, other, i)) by {
                assert forall|j: int| 0 <= j < i implies !(#[trigger] tabs[j]).is_path(other) by {
                    assert(!tabs[j].is_path(path));
                }
            }
        },
        None => {
            if first_at_path(tabs, other) is Some {
                let i = first_at_path(tabs, other)->0;
                assert(tabs[i].is_path(path));
            }
        },
    }
}

/// Once a file has been opened, a document stored at its path is open, and
/// the first such document is the active one.
pub proof fn law_opened_path_is_open(
    editor: EditorView,
    path: PathBuf,
    text: Seq<char>,
    name: Seq<char>,
)
    requires
        editor.wf(),
    ensures
        ({
            let once = editor.opened(path, text, name);
            &&& once.documents.find_by_path(path) is Some
            &&& once.documents.active == once.documents.find_by_path(path)
            &&& once.wf()
        }),
{
    let tabs = editor.documents.tabs;
    let after = editor.opened(path, text, name).documents;
    lemma_first_at_path(tabs, path);
    lemma_first_at_path(after.tabs, path);
    if first_at_path(tabs, path) is None {
        let last = tabs.len() as int;
        assert(after.tabs[last] == TabView::loaded(path, text, name));
        assert(is_first_at(after.tabs, path, last)) by {
            assert forall|j: int| 0 <= j < last implies !(#[trigger] after.tabs[j]).is_path(
                path,
            ) by {
                assert(after.tabs[j] == tabs[j]);
            }
        }
    }
}

/// Opening a path that is open already activates its tab and adds none: of
/// two files opened one after the other under paths that compare equal, the
/// second leaves the documents as the first left them, and its text is
/// dropped.
pub proof fn law_reopening_adds_no_tab(
    editor: EditorView,
    path: PathBuf,
    text: Seq<char>,
    name: Seq<char>,
    again: PathBuf,
    again_text: Seq<char>,
    again_name: Seq<char>,
)
    requires
        editor.wf(),
        path_key(again) == path_key(path),
    ensures
        ({
            let once = editor.opened(path, text, name);
            let twice = once.opened(again, again_text, again_name);
            &&& twice.documents.tabs == once.documents.tabs
            &&& twice.documents.tabs.len() == once.documents.tabs.len()
            &&& twice.documents.active == once.documents.find_by_path(path)
        }),
{
    let once = editor.opened(path, text, name);
    law_opened_path_is_open(editor, path, text, name);
    law_equal_paths_find_the_same_tab(once.documents.tabs, path, again);
}

/// A save that comes back with `path` for an active document that was never
/// stored, while no open document is stored at `path`, settles that
/// document; the other documents and the active index stay as they were,
/// and no error stands.
pub proof fn law_first_save_settles_the_active_document(editor: EditorView, path: PathBuf)
    requires
        editor.wf(),
        editor.documents.active_tab() is Some,
        editor.documents.active_tab()->0.source_path is None,
        editor.documents.find_by_path(path) is None,
    ensures
        ({
            let a = editor.documents.active->0;
            let before = editor.documents.tabs[a];
            let after = editor.saved(path);
            &&& after.documents.tabs == editor.documents.tabs.update(a, before.saved(path))
            &&& !after.documents.tabs[a].is_new
            &&& !after.documents.tabs[a].is_dirty
            &&& after.documents.tabs[a].source_path == Some(path)
            &&& after.documents.tabs[a].display_name == display_name_for(path)
            &&& after.documents.active == editor.documents.active
            &&& after.current_error is None
            &&& after.wf()
        }),
{
}

/// A save that comes back always leaves the set of documents well formed,
/// with as many documents and the same active index, also where it belongs
/// to none of them. It belongs to none exactly if it ends in the
/// reconciliation error, and then no document changes.
pub proof fn law_save_keeps_documents_sound(editor: EditorView, path: PathBuf)
    requires
        editor.wf(),
    ensures
        editor.saved(path).wf(),
        editor.saved(path).documents.tabs.len() == editor.documents.tabs.len(),
        editor.saved(path).documents.active == editor.documents.active,
        editor.save_target(path) is None <==> editor.saved(path).current_error == Some(
            EditorError::Reconciliation,
        ),
        editor.save_target(path) is None ==> editor.saved(path).documents == editor.documents,
{
    lemma_first_at_path(editor.documents.tabs, path);
}

/// An edit of the active document leaves it with unsaved changes, whatever
/// it was before, and clears the current error. Where the document is
/// stored, whether it is new, its label and all other documents stay as
/// they were.
pub proof fn law_edit_marks_dirty_and_clears_error(editor: EditorView, text: Seq<char>)
    requires
        editor.wf(),
        editor.documents.active is Some,
    ensures
        ({
            let a = editor.documents.active->0;
            let before = editor.documents.tabs[a];
            let after = editor.edited(text);
            &&& after.documents.tabs[a].is_dirty
            &&& after.documents.tabs[a].text == text
            &&& after.documents.tabs[a].source_path == before.source_path
            &&& after.documents.tabs[a].is_new == before.is_new
            &&& after.documents.tabs[a].display_name == before.display_name
            &&& after.documents.tabs == editor.documents.tabs.update(a, before.edited(text))
            &&& after.documents.active == editor.documents.active
            &&& after.current_error is None
            &&& after.wf()
        }),
{
}

/// A file operation that fails, a dismissed dialog among them, leaves the
/// documents and the active index as they were, and is recorded.
pub proof fn law_failure_leaves_documents(editor: EditorView, error: EditorError)
    ensures
        editor.failed(error).documents == editor.documents,
        editor.failed(error).current_error == Some(error),
        editor.wf() ==> editor.failed(error).wf(),
{
}

/// Choosing a tab makes exactly that tab active where the index points at a
/// document. Where it points past the last one, the documents and the
/// active index stay as they were and the refusal is reported, with the
/// index and the number of tabs. No document changes either way.
pub proof fn law_choosing_a_tab(editor: EditorView, index: usize)
    requires
        editor.wf(),
    ensures
        ({
            let after = editor.tab_chosen(index);
            let len = editor.documents.tabs.len();
            &&& after.documents.tabs == editor.documents.tabs
            &&& index < len ==> after.documents.active == Some(index as int)
            &&& index < len ==> after.refused_index is None
            &&& index >= len ==> after.documents == editor.documents
            &&& index >= len ==> after.refused_index == Some(
                IndexError { index, len: len as usize },
            )
            &&& after.current_error == editor.current_error
            &&& after.wf()
        }),
{
}

/// Closing a document leaves the set well formed. The document that was
/// active stays active where it is not the one that goes; where it is, a
/// neighbour takes over, and the index is unset only where nothing is left.
pub proof fn law_removal_repairs_the_active_index(documents: DocumentSetView, index: int)
    requires
        documents.wf(),
        0 <= index < documents.tabs.len(),
    ensures
        ({
            let after = documents.removed(index);
            let a = documents.active->0;
            &&& after.wf()
            &&& after.tabs.len() == documents.tabs.len() - 1
            &&& after.active is None <==> after.tabs.len() == 0
            &&& index != a ==> after.active_tab() == Some(documents.tabs[a])
        }),
{
}

/// Whatever the message, and whatever an edit leaves in the buffer, the
/// active index points at a document afterwards if there is one, and every
/// document is well formed.
pub proof fn law_every_message_keeps_documents_sound(
    editor: EditorView,
    message: Messages,
    text: Seq<char>,
)
    requires
        editor.wf(),
    ensures
        editor.after(message, text).wf(),
{
    match message {
        Messages::FileOpened(Ok((path, loaded, name))) => {
            law_opened_path_is_open(editor, path, loaded@, name@);
        },
        Messages::FileSaved(Ok(path)) => {
            law_save_keeps_documents_sound(editor, path);
        },
        _ => {},
    }
}

} // verus!
