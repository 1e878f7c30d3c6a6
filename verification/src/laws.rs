//! What holds of the text field whatever is done to it.
//!
//! The laws are stated over [`InputState`], whose operations the executable
//! field refines one for one.

use vstd::prelude::*;
use crate::model::{Direction, InputState, LayoutView};

verus! {

/// One thing that can happen to a text field.
pub enum Event {
    Insert(Seq<char>),
    DeleteBackward,
    DeleteForward,
    Move(Direction, bool),
    SelectAll,
    SetMarked(Option<(int, int)>, Seq<char>),
    ClearMarkedCommit,
    PointerDown(int),
    PointerMove(int),
    PointerUp,
    Cut,
    Paste(Option<Seq<char>>),
    SetContent(Seq<char>),
    SetPlaceholder(Seq<char>),
    SetDisabled(bool),
    SetLayout(LayoutView),
}

/// The events by which the host configures the field; all others come from
/// the user.
pub open spec fn from_host(event: Event) -> bool {
    event is SetContent || event is SetPlaceholder || event is SetDisabled || event is SetLayout
}

/// The state after one event.
pub open spec fn react(s: InputState, event: Event) -> InputState {
    match event {
        Event::Insert(text) => s.insert(text),
        Event::DeleteBackward => s.delete_backward(),
        Event::DeleteForward => s.delete_forward(),
        Event::Move(direction, extend) => s.move_caret(direction, extend),
        Event::SelectAll => s.select_all(),
        Event::SetMarked(range, text) => s.set_marked(range, text),
        Event::ClearMarkedCommit => s.clear_marked_commit(),
        Event::PointerDown(offset) => s.pointer_down(offset),
        Event::PointerMove(offset) => s.pointer_move(offset),
        Event::PointerUp => s.pointer_up(),
        Event::Cut => s.cut(),
        Event::Paste(clipboard) => s.paste(clipboard),
        Event::SetContent(text) => s.set_content(text),
        Event::SetPlaceholder(text) => InputState { placeholder: text, ..s },
        Event::SetDisabled(disabled) => InputState { disabled: disabled, ..s },
        Event::SetLayout(layout) => InputState { layout: Some(layout), layout_fresh: true, ..s },
    }
}

/// The state after a sequence of events, the first one first.
pub open spec fn run(s: InputState, events: Seq<Event>) -> InputState
    decreases events.len(),
{
    if events.len() == 0 {
        s
    } else {
        react(run(s, events.drop_last()), events.last())
    }
}

/// A new field is valid.
pub proof fn lemma_initial_valid()
    ensures
        InputState::initial().wf(),
{
}

/// No single event leads out of the valid states: afterwards the selection
/// and the marked range, if there is one, still lie inside the content.
pub proof fn lemma_react_keeps_valid(s: InputState, event: Event)
    requires
        s.wf(),
    ensures
        react(s, event).wf(),
        0 <= react(s, event).start <= react(s, event).end <= react(s, event).len(),
        match react(s, event).marked {
            Some((a, b)) => 0 <= a <= b <= react(s, event).len(),
            None => true,
        },
{
}

/// Every state that a new field can reach is valid.
pub proof fn lemma_reachable_valid(events: Seq<Event>)
    ensures
        run(InputState::initial(), events).wf(),
    decreases events.len(),
{
    if events.len() > 0 {
        lemma_reachable_valid(events.drop_last());
        lemma_react_keeps_valid(run(InputState::initial(), events.drop_last()), events.last());
    }
}

/// Moving left or right without extending, on a selection that is not a
/// plain caret, puts the caret on the left or the right boundary of that
/// selection and nowhere else.
pub proof fn lemma_move_collapses_to_boundary(s: InputState, direction: Direction)
    requires
        s.wf(),
        !s.disabled,
        !s.collapsed(),
        direction == Direction::Left || direction == Direction::Right,
    ensures
        s.move_caret(direction, false).collapsed(),
        direction == Direction::Left ==> s.move_caret(direction, false).start == s.start,
        direction == Direction::Right ==> s.move_caret(direction, false).start == s.end,
        s.move_caret(direction, false).content == s.content,
{
}

/// After typing into an enabled field the selection is a plain caret, right
/// behind the typed text.
pub proof fn lemma_insert_leaves_caret(s: InputState, text: Seq<char>)
    requires
        s.wf(),
        !s.disabled,
    ensures
        s.insert(text).collapsed(),
        s.insert(text).start == s.start + text.len(),
        s.insert(text).marked is None,
{
}

/// On a disabled field no event of the user changes the content, the
/// selection or the marked range.
pub proof fn lemma_disabled_refuses(s: InputState, event: Event)
    requires
        s.disabled,
        !from_host(event),
    ensures
        react(s, event).content == s.content,
        react(s, event).start == s.start,
        react(s, event).end == s.end,
        react(s, event).reversed == s.reversed,
        react(s, event).marked == s.marked,
        react(s, event).disabled,
{
}

/// On a disabled field no sequence of events of the user changes the
/// content, the selection or the marked range.
pub proof fn lemma_disabled_refuses_all(s: InputState, events: Seq<Event>)
    requires
        s.disabled,
        forall|i: int| 0 <= i < events.len() ==> !from_host(#[trigger] events[i]),
    ensures
        run(s, events).content == s.content,
        run(s, events).start == s.start,
        run(s, events).end == s.end,
        run(s, events).reversed == s.reversed,
        run(s, events).marked == s.marked,
        run(s, events).disabled,
    decreases events.len(),
{
    if events.len() > 0 {
        let before = events.drop_last();
        assert forall|i: int| 0 <= i < before.len() implies !from_host(#[trigger] before[i]) by {
            assert(before[i] == events[i]);
        }
        lemma_disabled_refuses_all(s, before);
        lemma_disabled_refuses(run(s, before), events.last());
    }
}

/// A disabled field can still be read and copied from: neither depends on
/// whether the field is disabled.
pub proof fn lemma_disabled_still_copies(s: InputState)
    requires
        s.wf(),
        !s.collapsed(),
    ensures
        s.copy() == Some(s.selected_text()),
        (InputState { disabled: true, ..s }).copy() == s.copy(),
{
}

/// Selecting everything twice selects what selecting everything once does.
pub proof fn lemma_select_all_idempotent(s: InputState)
    ensures
        s.select_all().select_all() == s.select_all(),
{
}

/// Copying a selection and pasting it back gives the content that was
/// there: both when the paste goes over the selection as it stands, and
/// when the selection was first removed, which leaves a plain caret where
/// it began.
pub proof fn lemma_copy_paste_round_trip(s: InputState)
    requires
        s.wf(),
        !s.disabled,
        !s.collapsed(),
    ensures
        s.paste(s.copy()).content == s.content,
        s.cut().collapsed() && s.cut().start == s.start,
        s.cut().paste(s.copy()).content == s.content,
        s.delete_backward().paste(s.copy()).content == s.content,
        s.cut().paste(s.copy()).start == s.end,
{
    assert(s.paste(s.copy()).content =~= s.content);
    assert(s.cut().paste(s.copy()).content =~= s.content);
}

/// Backspace with a plain caret at offset 0 changes nothing.
pub proof fn lemma_delete_backward_at_start(s: InputState)
    requires
        s.wf(),
        s.collapsed(),
        s.start == 0,
    ensures
        s.delete_backward() == s,
{
}

/// Delete with a plain caret at the end of the content changes nothing.
pub proof fn lemma_delete_forward_at_end(s: InputState)
    requires
        s.wf(),
        s.collapsed(),
        s.end == s.len(),
    ensures
        s.delete_forward() == s,
{
}

/// Moving left with a plain caret at offset 0 leaves the caret at offset 0.
pub proof fn lemma_move_left_at_start(s: InputState)
    requires
        s.wf(),
        s.collapsed(),
        s.start == 0,
    ensures
        s.move_caret(Direction::Left, false) == s,
{
}

} // verus!
