//! The editable text buffer that a tab owns.

use vstd::prelude::*;

use iced::widget::text_editor::{Action, Content};

verus! {

#[verifier::external_type_specification]
#[verifier::external_body]
pub struct ExAction(Action);

/// An editable text buffer with its cursor and its selection: the text
/// editor widget's `Content`.
///
/// All that a contract can say of a buffer is which text it holds,
/// `buffer_text`, and which text an action leaves in it, `text_after`. The
/// widget draws from `content`; only a `Tab` changes it.
#[verifier::external_body]
pub struct TextBuffer {
    pub content: Content,
}

/// The text that a buffer holds, as `Content::text` gives it.
pub uninterp spec fn buffer_text(buffer: TextBuffer) -> Seq<char>;

/// The text that a buffer holds when it has just been made from `text`. The
/// buffer keeps lines, so this need not be `text` itself.
pub uninterp spec fn text_as_loaded(text: Seq<char>) -> Seq<char>;

/// The text that `buffer` holds once `action` has been performed on it. An
/// action works from the lines, the cursor and the selection of the buffer;
/// fonts and layout decide where a click lands, never what the text is.
pub uninterp spec fn text_after(buffer: TextBuffer, action: Action) -> Seq<char>;

impl TextBuffer {
    /// `Content::with_text`.
    ///
    /// Trusted: which text the new buffer holds rests on `text` alone.
    #[verifier::external_body]
    pub(crate) fn with_text(text: &str) -> (buffer: TextBuffer)
        ensures
            buffer_text(buffer) == text_as_loaded(text@),
    {
        TextBuffer { content: Content::with_text(text) }
    }

    /// `Content::text`.
    ///
    /// Trusted: the result is the text that the buffer holds.
    #[verifier::external_body]
    pub(crate) fn snapshot(&self) -> (text: String)
        ensures
            text@ == buffer_text(*self),
    {
        self.content.text()
    }

    /// `Content::perform`.
    ///
    /// Trusted: which text the buffer holds afterwards rests on the buffer
    /// and the action alone. Nothing is claimed of the cursor, the selection
    /// or the layout afterwards. The call relies on the buffer having one
    /// owner while it runs, which holds between two draws of the widget.
    #[verifier::external_body]
    pub(crate) fn perform(&mut self, action: Action)
        ensures
            buffer_text(*final(self)) == text_after(*old(self), action),
    {
        self.content.perform(action)
    }
}

} // verus!
