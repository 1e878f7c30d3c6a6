//! The named input actions and the table that maps each to an operation of
//! the text field.

use vstd::prelude::*;
use crate::clipboard::{clipboard_after_copy, clipboard_after_cut, Clipboard};
use crate::model::{Direction, InputState};
use crate::text_input::TextInput;

verus! {

/// A named input action, as the host's key bindings resolve it.
#[derive(Clone, Copy, Debug, PartialEq, Eq, Structural)]
pub enum Action {
    Backspace,
    Delete,
    Left,
    Right,
    SelectLeft,
    SelectRight,
    Home,
    End,
    SelectAll,
    Copy,
    Cut,
    Paste,
}

/// What became of a dispatched action.
#[derive(Clone, Copy, Debug, PartialEq, Eq, Structural)]
pub enum Outcome {
    /// The field does not hold the keyboard focus: the action is not its own.
    Unfocused,
    /// The field is disabled: the action is consumed and changes nothing.
    Refused,
    /// The action was handed to the field.
    Applied,
}

/// An action that reads the field and never changes it.
pub open spec fn read_only(action: Action) -> bool {
    action == Action::Copy
}

/// The table: the operation that stands behind each action, whatever the
/// content. It maps the field and the clipboard before to both after.
pub open spec fn apply(s: InputState, action: Action, clipboard: Option<Seq<char>>) -> (
    InputState,
    Option<Seq<char>>,
) {
    match action {
        Action::Backspace => (s.delete_backward(), clipboard),
        Action::Delete => (s.delete_forward(), clipboard),
        Action::Left => (s.move_caret(Direction::Left, false), clipboard),
        Action::Right => (s.move_caret(Direction::Right, false), clipboard),
        Action::SelectLeft => (s.move_caret(Direction::Left, true), clipboard),
        Action::SelectRight => (s.move_caret(Direction::Right, true), clipboard),
        Action::Home => (s.move_caret(Direction::Home, false), clipboard),
        Action::End => (s.move_caret(Direction::End, false), clipboard),
        Action::SelectAll => (s.select_all(), clipboard),
        Action::Copy => (s, clipboard_after_copy(s, clipboard)),
        Action::Cut => (s.cut(), clipboard_after_cut(s, clipboard)),
        Action::Paste => (s.paste(clipboard), clipboard),
    }
}

/// What a dispatch answers: nothing is done without the focus, and a
/// disabled field refuses every action that could change it.
pub open spec fn outcome_of(s: InputState, action: Action, focused: bool) -> Outcome {
    if !focused {
        Outcome::Unfocused
    } else if s.disabled && !read_only(action) {
        Outcome::Refused
    } else {
        Outcome::Applied
    }
}

/// The field and the clipboard after a dispatch.
pub open spec fn dispatched(
    s: InputState,
    action: Action,
    focused: bool,
    clipboard: Option<Seq<char>>,
) -> (InputState, Option<Seq<char>>) {
    if outcome_of(s, action, focused) == Outcome::Applied {
        apply(s, action, clipboard)
    } else {
        (s, clipboard)
    }
}

/// A dispatch never leads out of the valid states.
pub proof fn lemma_dispatch_keeps_valid(
    s: InputState,
    action: Action,
    focused: bool,
    clipboard: Option<Seq<char>>,
)
    requires
        s.wf(),
    ensures
        dispatched(s, action, focused, clipboard).0.wf(),
{
}

/// A disabled field comes out of every dispatch as it went in, and only a
/// copy can change the clipboard.
pub proof fn lemma_dispatch_on_disabled(
    s: InputState,
    action: Action,
    focused: bool,
    clipboard: Option<Seq<char>>,
)
    requires
        s.disabled,
    ensures
        dispatched(s, action, focused, clipboard).0 == s,
        action != Action::Copy ==> dispatched(s, action, focused, clipboard).1 == clipboard,
{
}

/// Without the focus a dispatch changes nothing.
pub proof fn lemma_dispatch_without_focus(
    s: InputState,
    action: Action,
    clipboard: Option<Seq<char>>,
)
    ensures
        dispatched(s, action, false, clipboard) == (s, clipboard),
{
}

impl Action {
    /// Whether the action only reads the field.
    pub fn is_read_only(&self) -> (r: bool)
        ensures
            r == read_only(*self),
    {
        match self {
            Action::Copy => true,
            _ => false,
        }
    }

    /// Whether the host has to load its clipboard before the action.
    pub fn reads_clipboard(&self) -> (r: bool)
        ensures
            r == (*self == Action::Paste),
    {
        match self {
            Action::Paste => true,
            _ => false,
        }
    }

    /// Whether the host has to store the clipboard after the action.
    pub fn writes_clipboard(&self) -> (r: bool)
        ensures
            r == (*self == Action::Copy || *self == Action::Cut),
    {
        match self {
            Action::Copy => true,
            Action::Cut => true,
            _ => false,
        }
    }
}

/// Hands a named action to the field. Without the focus nothing happens; a
/// disabled field consumes the action and refuses it unless it is
/// read-only; otherwise the operation that the table names is carried out.
pub fn dispatch(input: &mut TextInput, action: Action, focused: bool, clipboard: &mut Clipboard) -> (outcome: Outcome)
    ensures
        outcome == outcome_of(old(input)@, action, focused),
        (final(input)@, final(clipboard)@) == dispatched(
            old(input)@,
            action,
            focused,
            old(clipboard)@,
        ),
        final(input)@.wf(),
{
    let disabled: bool = input.is_disabled();
    if !focused {
        return Outcome::Unfocused;
    }
    if disabled && !action.is_read_only() {
        return Outcome::Refused;
    }
    match action {
        Action::Backspace => input.delete_backward(),
        Action::Delete => input.delete_forward(),
        Action::Left => input.move_caret(Direction::Left, false),
        Action::Right => input.move_caret(Direction::Right, false),
        Action::SelectLeft => input.move_caret(Direction::Left, true),
        Action::SelectRight => input.move_caret(Direction::Right, true),
        Action::Home => input.move_caret(Direction::Home, false),
        Action::End => input.move_caret(Direction::End, false),
        Action::SelectAll => input.select_all(),
        Action::Copy => crate::clipboard::copy(input, clipboard),
        Action::Cut => crate::clipboard::cut(input, clipboard),
        Action::Paste => crate::clipboard::paste(input, clipboard),
    }
    Outcome::Applied
}

} // verus!
