//! One open document: its text, where it is stored, and whether it has
//! unsaved changes.

use vstd::prelude::*;

use iced::widget::text_editor::Action;
use std::path::PathBuf;

use crate::buffer::{buffer_text, text_after, text_as_loaded, TextBuffer};
use crate::path::{display_name_for, display_name_of, path_key, same_path};

verus! {

/// What a tab is, to a specification.
pub struct TabView {
    /// The label in the tab strip.
    pub display_name: Seq<char>,
    /// Where the document was last loaded from or saved to.
    pub source_path: Option<PathBuf>,
    /// The full text of the buffer.
    pub text: Seq<char>,
    /// Whether the text has changed since the last load or save.
    pub is_dirty: bool,
    /// Whether the document was made from nothing and never saved.
    pub is_new: bool,
}

impl TabView {
    /// The label of a document that has never been saved.
    pub open spec fn unsaved_name() -> Seq<char> {
        "Untitlted"@
    }

    /// A document made from nothing.
    pub open spec fn fresh() -> TabView {
        TabView {
            display_name: Self::unsaved_name(),
            source_path: None,
            text: text_as_loaded(Seq::empty()),
            is_dirty: false,
            is_new: true,
        }
    }

    /// A document as read from `path`.
    pub open spec fn loaded(path: PathBuf, text: Seq<char>, display_name: Seq<char>) -> TabView {
        TabView {
            display_name,
            source_path: Some(path),
            text: text_as_loaded(text),
            is_dirty: false,
            is_new: false,
        }
    }

    /// This document once it has been written to `path`.
    pub open spec fn saved(self, path: PathBuf) -> TabView {
        TabView {
            display_name: display_name_for(path),
            source_path: Some(path),
            text: self.text,
            is_dirty: false,
            is_new: false,
        }
    }

    /// This document after an edit that left `text` in the buffer.
    pub open spec fn edited(self, text: Seq<char>) -> TabView {
        TabView { text, is_dirty: true, ..self }
    }

    /// Whether the document is stored at `path`.
    pub open spec fn is_path(self, path: PathBuf) -> bool {
        match self.source_path {
            Some(own) => path_key(own) == path_key(path),
            None => false,
        }
    }

    /// A document that counts as new has not been stored anywhere.
    pub open spec fn wf(self) -> bool {
        self.is_new ==> self.source_path is None
    }
}

/// Whether `i` is the first of `tabs` that is stored at `path`.
pub open spec fn is_first_at(tabs: Seq<TabView>, path: PathBuf, i: int) -> bool {
    &&& 0 <= i < tabs.len()
    &&& tabs[i].is_path(path)
    &&& forall|j: int| 0 <= j < i ==> !(#[trigger] tabs[j]).is_path(path)
}

/// The index of the first of `tabs` that is stored at `path`, if any is.
pub open spec fn first_at_path(tabs: Seq<TabView>, path: PathBuf) -> Option<int> {
    if exists|i: int| is_first_at(tabs, path, i) {
        Some(choose|i: int| is_first_at(tabs, path, i))
    } else {
        None
    }
}

/// Where a tab is stored at `path`, a first such tab exists.
proof fn lemma_first_exists(tabs: Seq<TabView>, path: PathBuf, k: int)
    requires
        0 <= k < tabs.len(),
        tabs[k].is_path(path),
    ensures
        exists|i: int| is_first_at(tabs, path, i),
    decreases k,
{
    if exists|j: int| 0 <= j < k && (#[trigger] tabs[j]).is_path(path) {
        let j = choose|j: int| 0 <= j < k && (#[trigger] tabs[j]).is_path(path);
        lemma_first_exists(tabs, path, j);
    } else {
        assert(is_first_at(tabs, path, k));
    }
}

/// `first_at_path` is the one index that `is_first_at` accepts, and `None`
/// exactly if no tab is stored at `path`.
pub proof fn lemma_first_at_path(tabs: Seq<TabView>, path: PathBuf)
    ensures
        match first_at_path(tabs, path) {
            Some(i) => is_first_at(tabs, path, i),
            None => forall|j: int| 0 <= j < tabs.len() ==> !(#[trigger] tabs[j]).is_path(path),
        },
        forall|i: int| is_first_at(tabs, path, i) ==> first_at_path(tabs, path) == Some(i),
{
    if first_at_path(tabs, path) is None {
        assert forall|j: int| 0 <= j < tabs.len() implies !(#[trigger] tabs[j]).is_path(path) by {
            if tabs[j].is_path(path) {
                lemma_first_exists(tabs, path, j);
            }
        }
    }
    assert forall|i: int| is_first_at(tabs, path, i) implies first_at_path(tabs, path)
        == Some(i) by {
        let c = choose|c: int| is_first_at(tabs, path, c);
        if c < i {
            assert(!tabs[c].is_path(path));
        } else if i < c {
            assert(!tabs[i].is_path(path));
        }
    }
}

/// The views of `tabs`, in order.
pub open spec fn views_of(tabs: Seq<Tab>) -> Seq<TabView> {
    tabs.map_values(|tab: Tab| tab@)
}

/// Whether `found` is the answer to the search for `path` among `tabs`: the
/// index of the first tab stored there, or `None` where no tab is.
pub open spec fn is_position_of(found: Option<usize>, tabs: Seq<TabView>, path: PathBuf) -> bool {
    match found {
        Some(i) => {
            &&& is_first_at(tabs, path, i as int)
            &&& first_at_path(tabs, path) == Some(i as int)
        },
        None => {
            &&& forall|j: int| 0 <= j < tabs.len() ==> !(#[trigger] tabs[j]).is_path(path)
            &&& first_at_path(tabs, path) is None
        },
    }
}

/// The index of the first of `tabs` that is stored at `path`.
pub fn position_of_path(tabs: &Vec<Tab>, path: &PathBuf) -> (found: Option<usize>)
    ensures
        is_position_of(found, views_of(tabs@), *path),
{
    let ghost views = views_of(tabs@);
    let mut index: usize = 0;
    while index < tabs.len()
        invariant
            index <= tabs.len(),
            views == views_of(tabs@),
            forall|j: int| 0 <= j < index ==> !(#[trigger] views[j]).is_path(*path),
        decreases tabs.len() - index,
    {
        if tabs[index].refers_to(path) {
            proof {
                assert(is_first_at(views, *path, index as int));
                lemma_first_at_path(views, *path);
            }
            return Some(index);
        }
        index += 1;
    }
    proof {
        lemma_first_at_path(views, *path);
        if first_at_path(views, *path) is Some {
            let i = first_at_path(views, *path)->0;
            assert(views[i].is_path(*path));
        }
    }
    None
}

/// One open document.
pub struct Tab {
    display_name: String,
    source_path: Option<PathBuf>,
    content: TextBuffer,
    is_dirty: bool,
    is_new: bool,
}

impl View for Tab {
    type V = TabView;

    closed spec fn view(&self) -> TabView {
        TabView {
            display_name: self.display_name@,
            source_path: self.source_path,
            text: buffer_text(self.content),
            is_dirty: self.is_dirty,
            is_new: self.is_new,
        }
    }
}

impl Tab {
    /// The buffer of the document. Its text is the text of the view.
    pub closed spec fn buffer(&self) -> TextBuffer {
        self.content
    }

    /// The text of the view is the text that the buffer holds.
    pub proof fn lemma_text_is_buffer_text(&self)
        ensures
            self@.text == buffer_text(self.buffer()),
    {
    }
}

impl Default for Tab {
    /// A new, empty document that has not been touched.
    fn default() -> (tab: Tab)
        ensures
            tab@ == TabView::fresh(),
            tab@.wf(),
    {
        proof {
            reveal_strlit("");
            assert(""@ =~= Seq::<char>::empty());
        }
        Tab {
            display_name: "Untitlted".to_owned(),
            source_path: None,
            content: TextBuffer::with_text(""),
            is_dirty: false,
            is_new: true,
        }
    }
}

impl Tab {
    /// The document read from `path`, holding `text`, shown as `display_name`.
    pub fn loaded(path: PathBuf, text: &str, display_name: String) -> (tab: Tab)
        ensures
            tab@ == TabView::loaded(path, text@, display_name@),
            tab@.wf(),
    {
        Tab {
            display_name,
            source_path: Some(path),
            content: TextBuffer::with_text(text),
            is_dirty: false,
            is_new: false,
        }
    }

    /// Hands `action` to the buffer and marks the document as changed. The
    /// text afterwards is what the action leaves in the buffer.
    pub fn apply_edit(&mut self, action: Action)
        ensures
            final(self)@ == old(self)@.edited(text_after(old(self).buffer(), action)),
            old(self)@.wf() ==> final(self)@.wf(),
    {
        self.content.perform(action);
        self.is_dirty = true;
    }

    /// Records that the document has been written to `new_path`.
    pub fn mark_saved(&mut self, new_path: PathBuf)
        ensures
            final(self)@ == old(self)@.saved(new_path),
            final(self)@.wf(),
    {
        self.display_name = display_name_of(&new_path);
        self.source_path = Some(new_path);
        self.is_dirty = false;
        self.is_new = false;
    }

    /// The full text of the document as it stands.
    pub fn text(&self) -> (text: String)
        ensures
            text@ == self@.text,
    {
        self.content.snapshot()
    }

    /// The path the document is looked up by.
    pub fn identity_path(&self) -> (path: Option<&PathBuf>)
        ensures
            match path {
                Some(p) => self@.source_path == Some(*p),
                None => self@.source_path is None,
            },
    {
        self.source_path.as_ref()
    }

    /// Whether the document is stored at `path_in_question`.
    pub fn is_path(&self, path_in_question: PathBuf) -> (found: bool)
        ensures
            found == self@.is_path(path_in_question),
    {
        self.refers_to(&path_in_question)
    }

    /// `is_path` for a borrowed path.
    pub fn refers_to(&self, path: &PathBuf) -> (found: bool)
        ensures
            found == self@.is_path(*path),
    {
        match &self.source_path {
            Some(own) => same_path(own, path),
            None => false,
        }
    }

    /// The label in the tab strip.
    pub fn display_name(&self) -> (name: &String)
        ensures
            name@ == self@.display_name,
    {
        &self.display_name
    }

    /// Whether the text has changed since the last load or save.
    pub fn is_dirty(&self) -> (dirty: bool)
        ensures
            dirty == self@.is_dirty,
    {
        self.is_dirty
    }

    /// Whether the document was made from nothing and never saved.
    pub fn is_new(&self) -> (new: bool)
        ensures
            new == self@.is_new,
    {
        self.is_new
    }

    /// Whether the document is well formed.
    pub fn is_well_formed(&self) -> (ok: bool)
        ensures
            ok == self@.wf(),
    {
        !self.is_new || self.source_path.is_none()
    }

    /// The buffer, to draw it.
    pub fn content(&self) -> (buffer: &TextBuffer)
        ensures
            *buffer == self.buffer(),
            buffer_text(*buffer) == self@.text,
    {
        &self.content
    }
}

} // verus!
