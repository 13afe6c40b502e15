//! The editor's state and the one step that takes it from message to message.

use vstd::prelude::*;

use iced::widget::text_editor::Action;
use std::path::PathBuf;

use crate::documents::{DocumentSet, DocumentSetView};
use crate::buffer::{text_after, TextBuffer};
use crate::error::{EditorError, IndexError};
use crate::path::clone_path;
use crate::tabs::{Tab, TabView};

verus! {

/// The entries of the file menu.
#[derive(Clone, Copy, Debug, PartialEq, Eq, Structural)]
pub enum DropdownOptions {
    Open,
    Save,
    New,
}

/// What the user, or a finished file operation, tells the editor.
#[derive(Debug)]
pub enum Messages {
    /// The user acted on the text of the active document.
    Edit(Action),
    /// The user chose an entry of the file menu.
    MenuOption(DropdownOptions),
    /// A file was picked and read: its path, its text and its label; or not.
    FileOpened(Result<(PathBuf, String, String), EditorError>),
    /// A document was written to the path given; or not.
    FileSaved(Result<PathBuf, EditorError>),
    /// The user chose a theme for the highlighted text.
    HighlighterThemeSelected(iced::highlighter::Theme),
    /// The user chose a theme for the editor.
    EditorThemeSelected(iced::Theme),
    /// The settings panel is to be shown, or hidden.
    ShowModal(bool),
    /// The user chose the tab at this index.
    IndexUpdated(usize),
}

/// The file operation the editor asks for in answer to a message. Whoever
/// carries it out reports back with `Messages::FileOpened` or
/// `Messages::FileSaved`.
#[derive(Debug)]
pub enum Request {
    /// Nothing is to be done.
    Nothing,
    /// Let the user pick a file, and read it.
    PickFile,
    /// Write `text` to `path`; where there is no path, let the user pick one
    /// first.
    SaveFile { path: Option<PathBuf>, text: String },
}

/// What the editor is, to a specification.
pub struct EditorView {
    /// The open documents and the active one.
    pub documents: DocumentSetView,
    /// The theme of the editor.
    pub editor_theme: iced::Theme,
    /// The theme of the highlighted text.
    pub highlight_theme: iced::highlighter::Theme,
    /// The last failure that nothing has cleared yet.
    pub current_error: Option<EditorError>,
    /// Whether the settings panel is shown.
    pub show_settings: bool,
    /// The refusal that the last choice of a tab met, if it met one.
    pub refused_index: Option<IndexError>,
}

impl EditorView {
    /// The editor as it starts: nothing open, nothing wrong, settings hidden.
    pub open spec fn initial() -> EditorView {
        EditorView {
            documents: DocumentSetView::empty(),
            editor_theme: iced::Theme::CatppuccinFrappe,
            highlight_theme: iced::highlighter::Theme::SolarizedDark,
            current_error: None,
            show_settings: false,
            refused_index: None,
        }
    }

    /// The set of documents is well formed.
    pub open spec fn wf(self) -> bool {
        self.documents.wf()
    }

    /// After "new": a fresh document is appended and active.
    pub open spec fn with_new_tab(self) -> EditorView {
        EditorView { documents: self.documents.inserted(TabView::fresh()), ..self }
    }

    /// After a file was read: the document that is stored at `path` already
    /// becomes active and what was read is dropped; where there is none, the
    /// file becomes a new active document. Either way no error stands.
    pub open spec fn opened(self, path: PathBuf, text: Seq<char>, name: Seq<char>) -> EditorView {
        EditorView {
            documents: match self.documents.find_by_path(path) {
                Some(i) => self.documents.activated(i),
                None => self.documents.inserted(TabView::loaded(path, text, name)),
            },
            current_error: None,
            ..self
        }
    }

    /// The document that a save to `path` belongs to: the first that is
    /// stored there; else the active document, where it has never been
    /// stored anywhere (the path was asked for on its behalf).
    pub open spec fn save_target(self, path: PathBuf) -> Option<int> {
        match self.documents.find_by_path(path) {
            Some(i) => Some(i),
            None => match self.documents.active_tab() {
                Some(tab) => if tab.source_path is None {
                    self.documents.active
                } else {
                    None
                },
                None => None,
            },
        }
    }

    /// After a document was written to `path`: the document the save belongs
    /// to is clean and stored there, and no error stands. Where the save
    /// belongs to no document, that is the error, and no document changes.
    pub open spec fn saved(self, path: PathBuf) -> EditorView {
        match self.save_target(path) {
            Some(i) => EditorView {
                documents: self.documents.replaced(i, self.documents.tabs[i].saved(path)),
                current_error: None,
                ..self
            },
            None => EditorView { current_error: Some(EditorError::Reconciliation), ..self },
        }
    }

    /// After a file operation failed with `error`.
    pub open spec fn failed(self, error: EditorError) -> EditorView {
        EditorView { current_error: Some(error), ..self }
    }

    /// After an edit that left `text` in the active document: the document
    /// has unsaved changes and no error stands. Without an active document
    /// nothing changes.
    pub open spec fn edited(self, text: Seq<char>) -> EditorView {
        match self.documents.active {
            Some(a) => EditorView {
                documents: self.documents.replaced(a, self.documents.tabs[a].edited(text)),
                current_error: None,
                ..self
            },
            None => self,
        }
    }

    /// After the tab at `index` was chosen: it is the active one. An index
    /// past the last tab is refused: no document and no active index
    /// changes, and the refusal is kept for the caller to read until the
    /// next choice of a tab.
    pub open spec fn tab_chosen(self, index: usize) -> EditorView {
        if index < self.documents.tabs.len() {
            EditorView {
                documents: self.documents.activated(index as int),
                refused_index: None,
                ..self
            }
        } else {
            EditorView { refused_index: Some(self.documents.past_end(index)), ..self }
        }
    }

    /// After an entry of the file menu was chosen: "new" appends a fresh
    /// document; "open" and "save" change nothing by themselves.
    pub open spec fn menu_chosen(self, option: DropdownOptions) -> EditorView {
        match option {
            DropdownOptions::New => self.with_new_tab(),
            _ => self,
        }
    }

    /// Whether `request` is what an entry of the file menu asks for.
    pub open spec fn menu_asks(self, option: DropdownOptions, request: Request) -> bool {
        match option {
            DropdownOptions::Open => request is PickFile,
            DropdownOptions::Save => self.asks_to_save(request),
            DropdownOptions::New => request is Nothing,
        }
    }

    /// The editor after `message`. What an edit does to the text is the
    /// buffer's business: `text` is what it leaves in the active document.
    pub open spec fn after(self, message: Messages, text: Seq<char>) -> EditorView {
        match message {
            Messages::Edit(_) => self.edited(text),
            Messages::MenuOption(option) => self.menu_chosen(option),
            Messages::FileOpened(Ok((path, loaded, name))) => self.opened(path, loaded@, name@),
            Messages::FileOpened(Err(error)) => self.failed(error),
            Messages::FileSaved(Ok(path)) => self.saved(path),
            Messages::FileSaved(Err(error)) => self.failed(error),
            Messages::HighlighterThemeSelected(theme) => EditorView {
                highlight_theme: theme,
                ..self
            },
            Messages::EditorThemeSelected(theme) => EditorView { editor_theme: theme, ..self },
            Messages::ShowModal(shown) => EditorView { show_settings: shown, ..self },
            Messages::IndexUpdated(index) => self.tab_chosen(index),
        }
    }

    /// Whether `request` is the file operation that `message` calls for:
    /// only the file menu calls for any.
    pub open spec fn asks(self, message: Messages, request: Request) -> bool {
        match message {
            Messages::MenuOption(option) => self.menu_asks(option, request),
            _ => request is Nothing,
        }
    }

    /// Whether `request` is what "save" asks for: with an active document,
    /// to write its text to where it is stored; without one, nothing.
    pub open spec fn asks_to_save(self, request: Request) -> bool {
        match self.documents.active_tab() {
            Some(tab) => match request {
                Request::SaveFile { path, text } => path == tab.source_path && text@ == tab.text,
                _ => false,
            },
            None => request is Nothing,
        }
    }
}

/// The state of the editor.
pub struct Editor {
    documents: DocumentSet,
    editor_theme: iced::Theme,
    highlight_theme: iced::highlighter::Theme,
    current_error: Option<EditorError>,
    show_settings: bool,
    refused_index: Option<IndexError>,
}

impl View for Editor {
    type V = EditorView;

    closed spec fn view(&self) -> EditorView {
        EditorView {
            documents: self.documents@,
            editor_theme: self.editor_theme,
            highlight_theme: self.highlight_theme,
            current_error: self.current_error,
            show_settings: self.show_settings,
            refused_index: self.refused_index,
        }
    }
}

impl Default for Editor {
    /// The editor as it starts.
    fn default() -> (editor: Editor)
        ensures
            editor@ == EditorView::initial(),
            editor@.wf(),
    {
        Editor {
            documents: DocumentSet::new(),
            editor_theme: iced::Theme::CatppuccinFrappe,
            highlight_theme: iced::highlighter::Theme::SolarizedDark,
            current_error: None,
            show_settings: false,
            refused_index: None,
        }
    }
}

impl Editor {
    /// The buffer of the active document.
    pub closed spec fn active_buffer(&self) -> TextBuffer {
        self.documents.active_buffer()
    }

    /// The text that `message` leaves in the active document, where it is
    /// an edit: what the action leaves in the buffer.
    pub open spec fn text_left_by(&self, message: Messages) -> Seq<char> {
        match message {
            Messages::Edit(action) => text_after(self.active_buffer(), action),
            _ => Seq::empty(),
        }
    }

    /// The theme of the editor.
    pub fn theme(&self) -> (theme: &iced::Theme)
        ensures
            *theme == self@.editor_theme,
    {
        &self.editor_theme
    }

    /// The theme of the highlighted text.
    pub fn highlight_theme(&self) -> (theme: iced::highlighter::Theme)
        ensures
            theme == self@.highlight_theme,
    {
        self.highlight_theme
    }

    /// The open documents.
    pub fn documents(&self) -> (documents: &DocumentSet)
        ensures
            documents@ == self@.documents,
            documents.active_buffer() == self.active_buffer(),
    {
        &self.documents
    }

    /// The last failure that nothing has cleared yet.
    pub fn current_error(&self) -> (error: Option<&EditorError>)
        ensures
            match error {
                Some(e) => self@.current_error == Some(*e),
                None => self@.current_error is None,
            },
    {
        self.current_error.as_ref()
    }

    /// Whether the settings panel is shown.
    pub fn show_settings(&self) -> (shown: bool)
        ensures
            shown == self@.show_settings,
    {
        self.show_settings
    }

    /// The refusal that the last choice of a tab met, if it met one: the
    /// index that pointed past the last tab, and how many tabs there were.
    pub fn refused_index(&self) -> (refused: Option<IndexError>)
        ensures
            refused == self@.refused_index,
    {
        self.refused_index
    }

    /// Whether the editor is well formed: a check to run where an editor
    /// comes from code that proves nothing of it.
    pub fn is_well_formed(&self) -> (ok: bool)
        ensures
            ok == self@.wf(),
    {
        self.documents.is_well_formed()
    }

    /// Whether a document stored at `file_path` is open.
    pub fn file_already_open(&self, file_path: PathBuf) -> (open: bool)
        ensures
            open == self@.documents.find_by_path(file_path) is Some,
    {
        self.documents.find_by_path(&file_path).is_some()
    }

    /// The active document, or `None` where no document is open.
    pub fn get_current_tab(&self) -> (tab: Option<&Tab>)
        requires
            self@.wf(),
        ensures
            match tab {
                Some(tab) => {
                    &&& self@.documents.active_tab() == Some(tab@)
                    &&& tab.buffer() == self.active_buffer()
                },
                None => self@.documents.active_tab() is None,
            },
    {
        self.documents.active()
    }

    /// The active document, to change it in place: what the caller leaves
    /// in it is the active document from then on, and the editor is well
    /// formed if that document is.
    pub fn get_current_tab_mutable(&mut self) -> (tab: Option<&mut Tab>)
        requires
            old(self)@.wf(),
        ensures
            tab is Some && final(tab->0)@.wf() ==> final(self)@.wf(),
            match tab {
                Some(tab) => {
                    &&& old(self)@.documents.active_tab() == Some(tab@)
                    &&& tab.buffer() == old(self).active_buffer()
                    &&& final(self)@ == (EditorView {
                        documents: old(self)@.documents.replaced(
                            old(self)@.documents.active->0,
                            final(tab)@,
                        ),
                        ..old(self)@
                    })
                },
                None => {
                    &&& old(self)@.documents.active_tab() is None
                    &&& *final(self) == *old(self)
                },
            },
    {
        self.documents.active_mut()
    }

    /// Appends a new, empty document and makes it active.
    pub fn new_tab(&mut self)
        requires
            old(self)@.wf(),
        ensures
            final(self)@ == old(self)@.with_new_tab(),
            final(self)@.wf(),
    {
        self.documents.insert_new();
    }

    /// Takes in a file that was read from `file_path`.
    pub fn open_tab(&mut self, file_path: PathBuf, new_content: &str, new_file_name: String)
        requires
            old(self)@.wf(),
        ensures
            final(self)@ == old(self)@.opened(file_path, new_content@, new_file_name@),
            final(self)@.wf(),
    {
        match self.documents.find_by_path(&file_path) {
            Some(index) => {
                let _ = self.documents.set_active(index);
            },
            None => {
                self.documents.insert_loaded(file_path, new_content, new_file_name);
            },
        }
        self.current_error = None;
    }

    /// The index of the document that a save to `path` belongs to.
    pub fn save_target(&self, path: &PathBuf) -> (target: Option<usize>)
        requires
            self@.wf(),
        ensures
            match target {
                Some(i) => self@.save_target(*path) == Some(i as int),
                None => self@.save_target(*path) is None,
            },
    {
        match self.documents.find_by_path(path) {
            Some(index) => Some(index),
            None => match self.documents.active() {
                Some(tab) => if tab.identity_path().is_none() {
                    self.documents.active_index()
                } else {
                    None
                },
                None => None,
            },
        }
    }

    /// Takes in that a document was written to `file_path`. Says whether the
    /// save belonged to a document; where it did not, that is recorded as
    /// the current error.
    pub fn file_saved(&mut self, file_path: PathBuf) -> (saved: bool)
        requires
            old(self)@.wf(),
        ensures
            final(self)@ == old(self)@.saved(file_path),
            final(self)@.wf(),
            saved == old(self)@.save_target(file_path) is Some,
    {
        match self.save_target(&file_path) {
            Some(index) => {
                let _ = self.documents.mark_saved(index, file_path);
                self.current_error = None;
                true
            },
            None => {
                self.current_error = Some(EditorError::Reconciliation);
                false
            },
        }
    }
}

/// Answers an entry of the file menu.
pub fn handle_file_option(editor: &mut Editor, file_option: DropdownOptions) -> (request: Request)
    requires
        old(editor)@.wf(),
    ensures
        final(editor)@ == old(editor)@.menu_chosen(file_option),
        old(editor)@.menu_asks(file_option, request),
        final(editor)@.wf(),
{
    match file_option {
        DropdownOptions::Open => Request::PickFile,
        DropdownOptions::Save => match editor.get_current_tab() {
            Some(tab) => {
                let path = match tab.identity_path() {
                    Some(path) => Some(clone_path(path)),
                    None => None,
                };
                Request::SaveFile { path, text: tab.text() }
            },
            None => Request::Nothing,
        },
        DropdownOptions::New => {
            editor.new_tab();
            Request::Nothing
        },
    }
}

/// Takes the editor from one message to the next, and says which file
/// operation is to be carried out in answer.
pub fn update(editor: &mut Editor, message: Messages) -> (request: Request)
    requires
        old(editor)@.wf(),
    ensures
        final(editor)@.wf(),
        final(editor)@ == old(editor)@.after(message, old(editor).text_left_by(message)),
        old(editor)@.asks(message, request),
{
    match message {
        Messages::Edit(edit_action) => {
            let edited = match editor.get_current_tab_mutable() {
                Some(tab) => {
                    tab.apply_edit(edit_action);
                    true
                },
                None => false,
            };
            if edited {
                editor.current_error = None;
            }
            Request::Nothing
        },
        Messages::EditorThemeSelected(new_editor_theme) => {
            editor.editor_theme = new_editor_theme;
            Request::Nothing
        },
        Messages::ShowModal(should_show) => {
            editor.show_settings = should_show;
            Request::Nothing
        },
        Messages::MenuOption(dropdown_option) => handle_file_option(editor, dropdown_option),
        Messages::FileOpened(opening_result) => match opening_result {
            Ok((path_buf, new_content, new_file_name)) => {
                editor.open_tab(path_buf, new_content.as_str(), new_file_name);
                Request::Nothing
            },
            Err(editor_error) => {
                editor.current_error = Some(editor_error);
                Request::Nothing
            },
        },
        Messages::FileSaved(result) => match result {
            Ok(file_path) => {
                editor.file_saved(file_path);
                Request::Nothing
            },
            Err(editor_error) => {
                editor.current_error = Some(editor_error);
                Request::Nothing
            },
        },
        Messages::HighlighterThemeSelected(file_theme) => {
            editor.highlight_theme = file_theme;
            Request::Nothing
        },
        Messages::IndexUpdated(index) => {
            editor.refused_index = match editor.documents.set_active(index) {
                Ok(_) => None,
                Err(refusal) => Some(refusal),
            };
            Request::Nothing
        },
    }
}

} // verus!
