//! The ordered set of open documents and the one that is active.

use vstd::prelude::*;

use iced::widget::text_editor::Action;
use std::path::PathBuf;

use crate::buffer::{text_after, TextBuffer};
use crate::error::IndexError;
use crate::tabs::{first_at_path, is_position_of, position_of_path, views_of, Tab, TabView};

verus! {

/// What a document set is, to a specification.
pub struct DocumentSetView {
    /// The open documents, in tab order.
    pub tabs: Seq<TabView>,
    /// The index of the active document.
    pub active: Option<int>,
}

impl DocumentSetView {
    /// No document at all.
    pub open spec fn empty() -> DocumentSetView {
        DocumentSetView { tabs: Seq::empty(), active: None }
    }

    /// Every document is well formed, and the active index points at one of
    /// them; it is unset only where there is none to point at.
    pub open spec fn wf(self) -> bool {
        &&& forall|i: int| 0 <= i < self.tabs.len() ==> (#[trigger] self.tabs[i]).wf()
        &&& match self.active {
            Some(i) => 0 <= i < self.tabs.len(),
            None => self.tabs.len() == 0,
        }
    }

    /// The index of the first document stored at `path`.
    pub open spec fn find_by_path(self, path: PathBuf) -> Option<int> {
        first_at_path(self.tabs, path)
    }

    /// The active document.
    pub open spec fn active_tab(self) -> Option<TabView> {
        match self.active {
            Some(i) => Some(self.tabs[i]),
            None => None,
        }
    }

    /// The set with `tab` appended and made active.
    pub open spec fn inserted(self, tab: TabView) -> DocumentSetView {
        DocumentSetView { tabs: self.tabs.push(tab), active: Some(self.tabs.len() as int) }
    }

    /// The set with the document at `index` made active.
    pub open spec fn activated(self, index: int) -> DocumentSetView {
        DocumentSetView { active: Some(index), ..self }
    }

    /// The set with `tab` in place of the document at `index`.
    pub open spec fn replaced(self, index: int, tab: TabView) -> DocumentSetView {
        DocumentSetView { tabs: self.tabs.update(index, tab), ..self }
    }

    /// The active index once the document at `index` is gone. It follows the
    /// active document where that one stays. Where the active document is
    /// the one that goes, its right-hand neighbour becomes active, or its
    /// left-hand one where it was the last. Where nothing is left, the index
    /// is unset.
    pub open spec fn active_after_removal(self, index: int) -> Option<int> {
        match self.active {
            Some(a) => if self.tabs.len() <= 1 {
                None
            } else if index < a || (index == a && a == self.tabs.len() - 1) {
                Some(a - 1)
            } else {
                Some(a)
            },
            None => None,
        }
    }

    /// The set without the document at `index`.
    pub open spec fn removed(self, index: int) -> DocumentSetView {
        DocumentSetView {
            tabs: self.tabs.remove(index),
            active: self.active_after_removal(index),
        }
    }

    /// The error for an `index` that points past the last document.
    pub open spec fn past_end(self, index: usize) -> IndexError {
        IndexError { index, len: self.tabs.len() as usize }
    }
}

/// The open documents, in tab order, and the active one.
pub struct DocumentSet {
    documents: Vec<Tab>,
    active_index: Option<usize>,
}

impl View for DocumentSet {
    type V = DocumentSetView;

    closed spec fn view(&self) -> DocumentSetView {
        DocumentSetView {
            tabs: views_of(self.documents@),
            active: match self.active_index {
                Some(i) => Some(i as int),
                None => None,
            },
        }
    }
}

impl DocumentSet {
    /// The buffer of the document at `index`.
    pub closed spec fn buffer_at(&self, index: int) -> TextBuffer {
        self.documents@[index].buffer()
    }

    /// The buffer of the active document.
    pub open spec fn active_buffer(&self) -> TextBuffer {
        self.buffer_at(self@.active->0)
    }

    /// A set with no document.
    pub fn new() -> (set: DocumentSet)
        ensures
            set@ == DocumentSetView::empty(),
            set@.wf(),
    {
        let set = DocumentSet { documents: Vec::new(), active_index: None };
        assert(set@.tabs =~= Seq::empty());
        set
    }

    /// How many documents are open.
    pub fn len(&self) -> (len: usize)
        ensures
            len == self@.tabs.len(),
    {
        self.documents.len()
    }

    /// The document at `index`, if there is one.
    pub fn get(&self, index: usize) -> (tab: Option<&Tab>)
        ensures
            match tab {
                Some(tab) => {
                    &&& index < self@.tabs.len()
                    &&& tab@ == self@.tabs[index as int]
                    &&& tab.buffer() == self.buffer_at(index as int)
                },
                None => index >= self@.tabs.len(),
            },
    {
        if index < self.documents.len() {
            Some(&self.documents[index])
        } else {
            None
        }
    }

    /// The index of the active document.
    pub fn active_index(&self) -> (index: Option<usize>)
        ensures
            match index {
                Some(i) => self@.active == Some(i as int),
                None => self@.active is None,
            },
    {
        self.active_index
    }

    /// The active document, or `None` where no document is open.
    pub fn active(&self) -> (tab: Option<&Tab>)
        requires
            self@.wf(),
        ensures
            match tab {
                Some(tab) => {
                    &&& self@.active_tab() == Some(tab@)
                    &&& tab.buffer() == self.active_buffer()
                },
                None => self@.active_tab() is None,
            },
    {
        match self.active_index {
            Some(index) => Some(&self.documents[index]),
            None => None,
        }
    }

    /// The active document, to change it in place: what the caller leaves
    /// in it is the active document from then on, and the set is well
    /// formed if that document is.
    pub fn active_mut(&mut self) -> (tab: Option<&mut Tab>)
        requires
            old(self)@.wf(),
        ensures
            tab is Some && final(tab->0)@.wf() ==> final(self)@.wf(),
            match tab {
                Some(tab) => {
                    &&& old(self)@.active_tab() == Some(tab@)
                    &&& tab.buffer() == old(self).active_buffer()
                    &&& final(self)@ == old(self)@.replaced(old(self)@.active->0, final(tab)@)
                },
                None => {
                    &&& old(self)@.active_tab() is None
                    &&& *final(self) == *old(self)
                },
            },
    {
        proof {
            let before = self.documents@;
            assert forall|i: int, tab: Tab| 0 <= i < before.len() implies #[trigger] views_of(
                before.update(i, tab),
            ) == views_of(before).update(i, tab@) by {
                assert(views_of(before.update(i, tab)) =~= views_of(before).update(i, tab@));
            }
        }
        match self.active_index {
            Some(index) => Some(&mut self.documents[index]),
            None => None,
        }
    }

    /// Whether the set is well formed: a check to run where a set comes from
    /// code that proves nothing of it.
    pub fn is_well_formed(&self) -> (ok: bool)
        ensures
            ok == self@.wf(),
    {
        let len = self.documents.len();
        let pointed = match self.active_index {
            Some(index) => index < len,
            None => len == 0,
        };
        if !pointed {
            return false;
        }
        let mut index: usize = 0;
        while index < len
            invariant
                index <= len,
                len == self.documents.len(),
                forall|i: int| 0 <= i < index ==> (#[trigger] self@.tabs[i]).wf(),
            decreases len - index,
        {
            if !self.documents[index].is_well_formed() {
                assert(!self@.tabs[index as int].wf());
                return false;
            }
            index += 1;
        }
        true
    }

    /// The index of the first document stored at `path`.
    pub fn find_by_path(&self, path: &PathBuf) -> (found: Option<usize>)
        ensures
            is_position_of(found, self@.tabs, *path),
    {
        position_of_path(&self.documents, path)
    }

    /// Appends a new, empty document and makes it active.
    pub fn insert_new(&mut self) -> (index: usize)
        requires
            old(self)@.wf(),
        ensures
            final(self)@ == old(self)@.inserted(TabView::fresh()),
            final(self)@.wf(),
            index == old(self)@.tabs.len(),
    {
        self.insert(Tab::default())
    }

    /// Appends the document read from `path` and makes it active.
    ///
    /// Whether a document stored at `path` is open already is for the caller
    /// to find out first, with `find_by_path`.
    pub fn insert_loaded(
        &mut self,
        path: PathBuf,
        text: &str,
        display_name: String,
    ) -> (index: usize)
        requires
            old(self)@.wf(),
        ensures
            final(self)@ == old(self)@.inserted(TabView::loaded(path, text@, display_name@)),
            final(self)@.wf(),
            index == old(self)@.tabs.len(),
    {
        self.insert(Tab::loaded(path, text, display_name))
    }

    /// Appends `tab` and makes it active.
    fn insert(&mut self, tab: Tab) -> (index: usize)
        requires
            old(self)@.wf(),
            tab@.wf(),
        ensures
            final(self)@ == old(self)@.inserted(tab@),
            final(self)@.wf(),
            index == old(self)@.tabs.len(),
    {
        let index = self.documents.len();
        self.documents.push(tab);
        self.active_index = Some(index);
        assert(self@.tabs =~= old(self)@.tabs.push(tab@));
        index
    }

    /// Makes the document at `index` the active one. An index past the last
    /// document is refused, and nothing changes.
    pub fn set_active(&mut self, index: usize) -> (done: Result<(), IndexError>)
        requires
            old(self)@.wf(),
        ensures
            final(self)@.wf(),
            index < old(self)@.tabs.len() ==> done is Ok,
            index >= old(self)@.tabs.len() ==> done == Err::<(), IndexError>(
                old(self)@.past_end(index),
            ),
            done is Ok ==> final(self)@ == old(self)@.activated(index as int),
            done is Err ==> *final(self) == *old(self),
    {
        let len = self.documents.len();
        if index < len {
            self.active_index = Some(index);
            Ok(())
        } else {
            Err(IndexError { index, len })
        }
    }

    /// Hands `action` to the active document and marks it as changed; its
    /// text afterwards is what the action leaves in its buffer. Where no
    /// document is open, nothing changes. Says whether a document took the
    /// action.
    pub fn apply_edit(&mut self, action: Action) -> (applied: bool)
        requires
            old(self)@.wf(),
        ensures
            final(self)@.wf(),
            applied == old(self)@.active is Some,
            applied ==> final(self)@ == old(self)@.replaced(
                old(self)@.active->0,
                old(self)@.active_tab()->0.edited(text_after(old(self).active_buffer(), action)),
            ),
            !applied ==> *final(self) == *old(self),
    {
        match self.active_index {
            Some(index) => {
                self.documents[index].apply_edit(action);
                assert(self@.tabs =~= old(self)@.tabs.update(
                    index as int,
                    old(self)@.tabs[index as int].edited(
                        text_after(old(self).active_buffer(), action),
                    ),
                ));
                true
            },
            None => false,
        }
    }

    /// Records that the document at `index` has been written to `path`. An
    /// index past the last document is refused, and nothing changes.
    pub fn mark_saved(&mut self, index: usize, path: PathBuf) -> (done: Result<(), IndexError>)
        requires
            old(self)@.wf(),
        ensures
            final(self)@.wf(),
            index < old(self)@.tabs.len() ==> done is Ok,
            index >= old(self)@.tabs.len() ==> done == Err::<(), IndexError>(
                old(self)@.past_end(index),
            ),
            done is Ok ==> final(self)@ == old(self)@.replaced(
                index as int,
                old(self)@.tabs[index as int].saved(path),
            ),
            done is Err ==> *final(self) == *old(self),
    {
        let len = self.documents.len();
        if index < len {
            self.documents[index].mark_saved(path);
            assert(self@.tabs =~= old(self)@.tabs.update(
                index as int,
                old(self)@.tabs[index as int].saved(path),
            ));
            Ok(())
        } else {
            Err(IndexError { index, len })
        }
    }

    /// Closes the document at `index` and hands it back; the active index is
    /// repaired in the same step. An index past the last document is
    /// refused, and nothing changes.
    pub fn remove(&mut self, index: usize) -> (gone: Result<Tab, IndexError>)
        requires
            old(self)@.wf(),
        ensures
            final(self)@.wf(),
            index < old(self)@.tabs.len() ==> gone is Ok,
            index >= old(self)@.tabs.len() ==> gone is Err && gone->Err_0 == old(self)@.past_end(
                index,
            ),
            gone is Ok ==> gone->Ok_0@ == old(self)@.tabs[index as int] && final(self)@
                == old(self)@.removed(index as int),
            gone is Err ==> *final(self) == *old(self),
    {
        let len = self.documents.len();
        if index >= len {
            return Err(IndexError { index, len });
        }
        let tab = self.documents.remove(index);
        self.active_index = match self.active_index {
            Some(active) => if len <= 1 {
                None
            } else if index < active || (index == active && active == len - 1) {
                Some(active - 1)
            } else {
                Some(active)
            },
            None => None,
        };
        assert(self@.tabs =~= old(self)@.tabs.remove(index as int));
        Ok(tab)
    }
}

} // verus!
