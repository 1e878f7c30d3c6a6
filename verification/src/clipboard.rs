//! The bridge between the text field and the host's text clipboard.
//!
//! [`Clipboard`] holds what the host's clipboard holds as plain text, or
//! nothing when it is empty or out of reach. The host loads it before an
//! action and stores it afterwards; the field never keeps it.

use vstd::prelude::*;
use crate::model::InputState;
use crate::text_input::{text_view, TextInput};

verus! {

/// The plain text on the host's clipboard, if there is any.
pub struct Clipboard {
    text: Option<Vec<char>>,
}

impl View for Clipboard {
    type V = Option<Seq<char>>;

    closed spec fn view(&self) -> Option<Seq<char>> {
        text_view(self.text)
    }
}

/// The clipboard after a copy from the state `s`: the selected text, or
/// what it held before when there is only a caret.
pub open spec fn clipboard_after_copy(s: InputState, before: Option<Seq<char>>) -> Option<
    Seq<char>,
> {
    match s.copy() {
        Some(text) => Some(text),
        None => before,
    }
}

/// The clipboard after a cut from the state `s`: the selected text, or
/// what it held before when nothing was cut.
pub open spec fn clipboard_after_cut(s: InputState, before: Option<Seq<char>>) -> Option<
    Seq<char>,
> {
    match s.cut_text() {
        Some(text) => Some(text),
        None => before,
    }
}

impl Clipboard {
    /// A clipboard that holds nothing.
    pub fn new() -> (clipboard: Clipboard)
        ensures
            clipboard@ == None::<Seq<char>>,
    {
        Clipboard { text: None }
    }

    /// A clipboard that holds `text`.
    pub fn with_text(text: Vec<char>) -> (clipboard: Clipboard)
        ensures
            clipboard@ == Some(text@),
    {
        Clipboard { text: Some(text) }
    }

    /// What the clipboard holds.
    pub fn text(&self) -> (text: &Option<Vec<char>>)
        ensures
            text_view(*text) == self@,
    {
        &self.text
    }

    /// Puts `text` on the clipboard in place of what it held.
    pub fn write_text(&mut self, text: Vec<char>)
        ensures
            final(self)@ == Some(text@),
    {
        self.text = Some(text);
    }
}

/// Copies the selection to the clipboard. With only a caret nothing is
/// written and the clipboard keeps what it held. The field is not touched.
pub fn copy(input: &TextInput, clipboard: &mut Clipboard)
    ensures
        final(clipboard)@ == clipboard_after_copy(input@, old(clipboard)@),
{
    match input.copy() {
        Some(text) => {
            clipboard.write_text(text);
        },
        None => {},
    }
}

/// Cuts the selection to the clipboard: copies it, then removes it from
/// the content, the caret landing where it stood. With only a caret, and
/// on a disabled field, neither the field nor the clipboard changes.
pub fn cut(input: &mut TextInput, clipboard: &mut Clipboard)
    ensures
        final(input)@ == old(input)@.cut(),
        final(input)@.wf(),
        final(clipboard)@ == clipboard_after_cut(old(input)@, old(clipboard)@),
{
    match input.cut() {
        Some(text) => {
            clipboard.write_text(text);
        },
        None => {},
    }
}

/// Pastes the clipboard's text: a text that is there and not empty is typed
/// into the field, replacing the selection; otherwise nothing changes. The
/// clipboard is not touched.
pub fn paste(input: &mut TextInput, clipboard: &Clipboard)
    ensures
        final(input)@ == old(input)@.paste(clipboard@),
        final(input)@.wf(),
{
    input.paste(clipboard.text());
}

} // verus!
