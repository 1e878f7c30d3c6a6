//! The editable text field: content, selection, composition range and
//! pointer selection, each operation refining its counterpart on
//! [`InputState`].

use vstd::prelude::*;
use crate::layout::LayoutSnapshot;
use crate::model::{Direction, Geometry, InputState};
use crate::text::push_range;

verus! {

/// What [`TextInput::read`] hands out: the content, the selection and the
/// marked range, copied at one moment.
pub struct Reading {
    pub content: Vec<char>,
    pub start: usize,
    pub end: usize,
    pub reversed: bool,
    pub marked: Option<(usize, usize)>,
}

/// A composition range as mathematical integers.
pub open spec fn range_view(range: Option<(usize, usize)>) -> Option<(int, int)> {
    match range {
        Some((a, b)) => Some((a as int, b as int)),
        None => None,
    }
}

/// A clipboard text as a mathematical sequence.
pub open spec fn text_view(text: Option<Vec<char>>) -> Option<Seq<char>> {
    match text {
        Some(t) => Some(t@),
        None => None,
    }
}

/// Where the caret, the selection highlight and the composition underline
/// are to be drawn, as horizontal positions counted from the left edge of
/// the widget.
pub struct PaintGeometry {
    pub caret: Option<i64>,
    pub selection: Option<(i64, i64)>,
    pub underline: Option<(i64, i64)>,
}

/// The two ends of a drawn range as mathematical integers.
pub open spec fn span_view(span: Option<(i64, i64)>) -> Option<(int, int)> {
    match span {
        Some((a, b)) => Some((a as int, b as int)),
        None => None,
    }
}

impl View for PaintGeometry {
    type V = Geometry;

    open spec fn view(&self) -> Geometry {
        Geometry {
            caret: match self.caret {
                Some(x) => Some(x as int),
                None => None,
            },
            selection: span_view(self.selection),
            underline: span_view(self.underline),
        }
    }
}

/// A single-line text field.
pub struct TextInput {
    content: Vec<char>,
    placeholder: Vec<char>,
    start: usize,
    end: usize,
    reversed: bool,
    marked: Option<(usize, usize)>,
    disabled: bool,
    selecting: bool,
    anchor: usize,
    layout: Option<LayoutSnapshot>,
    layout_fresh: bool,
}

impl View for TextInput {
    type V = InputState;

    closed spec fn view(&self) -> InputState {
        InputState {
            content: self.content@,
            placeholder: self.placeholder@,
            start: self.start as int,
            end: self.end as int,
            reversed: self.reversed,
            marked: range_view(self.marked),
            disabled: self.disabled,
            selecting: self.selecting,
            anchor: self.anchor as int,
            layout: match self.layout {
                Some(l) => Some(l@),
                None => None,
            },
            layout_fresh: self.layout_fresh,
        }
    }
}

impl TextInput {
    #[verifier::type_invariant]
    spec fn inv(self) -> bool {
        self@.wf()
    }

    /// An empty field with a caret at offset 0.
    pub fn new() -> (input: TextInput)
        ensures
            input@ == InputState::initial(),
            input@.wf(),
    {
        TextInput {
            content: Vec::new(),
            placeholder: Vec::new(),
            start: 0,
            end: 0,
            reversed: false,
            marked: None,
            disabled: false,
            selecting: false,
            anchor: 0,
            layout: None,
            layout_fresh: false,
        }
    }

    /// Replaces the codepoints `a..b` of the content by `text`.
    fn replace_range(&mut self, a: usize, b: usize, text: &[char])
        requires
            a <= b <= old(self)@.len(),
        ensures
            final(self)@ == old(self)@.splice(a as int, b as int, text@),
    {
        proof {
            use_type_invariant(&*self);
        }
        let mut out: Vec<char> = Vec::new();
        push_range(&mut out, self.content.as_slice(), 0, a);
        push_range(&mut out, text, 0, text.len());
        let n: usize = self.content.len();
        push_range(&mut out, self.content.as_slice(), b, n);
        let total: usize = out.len();
        assert(total == a + text@.len() + (n - b));
        assert(out@ =~= self.content@.subrange(0, a as int) + text@ + self.content@.subrange(
            b as int,
            n as int,
        ));
        let caret: usize = a + text.len();
        self.marked = None;
        self.reversed = false;
        self.start = 0;
        self.end = 0;
        self.content = out;
        self.end = caret;
        self.start = caret;
        self.layout_fresh = false;
    }

    /// Types `text`: it replaces the selection, the caret lands right after
    /// it, and nothing stays marked. A disabled field stays as it is.
    pub fn insert(&mut self, text: &[char])
        ensures
            final(self)@ == old(self)@.insert(text@),
            final(self)@.wf(),
    {
        proof {
            use_type_invariant(&*self);
        }
        if !self.disabled {
            let a: usize = self.start;
            let b: usize = self.end;
            self.replace_range(a, b, text);
        }
        proof {
            use_type_invariant(&*self);
        }
    }

    /// Backspace: removes the selection, or else the codepoint before the
    /// caret. At offset 0 with nothing selected, and on a disabled field,
    /// nothing changes.
    pub fn delete_backward(&mut self)
        ensures
            final(self)@ == old(self)@.delete_backward(),
            final(self)@.wf(),
    {
        proof {
            use_type_invariant(&*self);
        }
        if self.disabled {
            return ;
        }
        let a: usize = self.start;
        let b: usize = self.end;
        let nothing: Vec<char> = Vec::new();
        if a < b {
            self.replace_range(a, b, nothing.as_slice());
        } else if a > 0 {
            self.replace_range(a - 1, a, nothing.as_slice());
        }
        proof {
            use_type_invariant(&*self);
        }
    }

    /// Delete: removes the selection, or else the codepoint at the caret.
    /// At the end with nothing selected, and on a disabled field, nothing
    /// changes.
    pub fn delete_forward(&mut self)
        ensures
            final(self)@ == old(self)@.delete_forward(),
            final(self)@.wf(),
    {
        proof {
            use_type_invariant(&*self);
        }
        if self.disabled {
            return ;
        }
        let a: usize = self.start;
        let b: usize = self.end;
        let nothing: Vec<char> = Vec::new();
        if a < b {
            self.replace_range(a, b, nothing.as_slice());
        } else if b < self.content.len() {
            self.replace_range(b, b + 1, nothing.as_slice());
        }
        proof {
            use_type_invariant(&*self);
        }
    }

    /// Puts a plain caret at `offset`.
    fn set_caret(&mut self, offset: usize)
        requires
            offset <= old(self)@.len(),
        ensures
            final(self)@ == old(self)@.with_caret(offset as int),
    {
        proof {
            use_type_invariant(&*self);
        }
        self.reversed = false;
        self.start = 0;
        self.end = offset;
        self.start = offset;
    }

    /// Spans the selection between a fixed end and a moving end.
    fn select_between(&mut self, tail: usize, head: usize)
        requires
            tail <= old(self)@.len(),
            head <= old(self)@.len(),
        ensures
            final(self)@ == old(self)@.with_selection(tail as int, head as int),
    {
        proof {
            use_type_invariant(&*self);
        }
        let backwards: bool = head < tail;
        let low: usize = if backwards { head } else { tail };
        let high: usize = if backwards { tail } else { head };
        self.reversed = false;
        self.start = 0;
        self.end = high;
        self.start = low;
        self.reversed = backwards;
    }

    /// Where one movement takes a caret that stands at `from`.
    fn step(&self, direction: Direction, from: usize) -> (to: usize)
        requires
            from <= self@.len(),
        ensures
            to == self@.step(direction, from as int),
            to <= self@.len(),
    {
        let n: usize = self.content.len();
        match direction {
            Direction::Left => if from > 0 { from - 1 } else { 0 },
            Direction::Right => if from < n { from + 1 } else { n },
            Direction::Home => 0,
            Direction::End => n,
        }
    }

    /// Moves the caret. Without `extend`, a selection collapses onto its own
    /// left or right boundary (or the caret goes to either end of the
    /// content), and a plain caret steps by one codepoint, stopping at the
    /// ends. With `extend`, the fixed end of the selection stays and only
    /// the moving end steps. A disabled field stays as it is.
    pub fn move_caret(&mut self, direction: Direction, extend: bool)
        ensures
            final(self)@ == old(self)@.move_caret(direction, extend),
            final(self)@.wf(),
    {
        proof {
            use_type_invariant(&*self);
        }
        if self.disabled {
            return ;
        }
        let n: usize = self.content.len();
        if extend {
            let head: usize = if self.reversed { self.start } else { self.end };
            let tail: usize = if self.reversed { self.end } else { self.start };
            let to: usize = self.step(direction, head);
            self.select_between(tail, to);
        } else if self.start == self.end {
            let to: usize = self.step(direction, self.start);
            self.set_caret(to);
        } else {
            let to: usize = match direction {
                Direction::Left => self.start,
                Direction::Right => self.end,
                Direction::Home => 0,
                Direction::End => n,
            };
            self.set_caret(to);
        }
        proof {
            use_type_invariant(&*self);
        }
    }

    /// Selects the whole content. A disabled field stays as it is.
    pub fn select_all(&mut self)
        ensures
            final(self)@ == old(self)@.select_all(),
            final(self)@.wf(),
    {
        proof {
            use_type_invariant(&*self);
        }
        if !self.disabled {
            let n: usize = self.content.len();
            self.select_between(0, n);
        }
        proof {
            use_type_invariant(&*self);
        }
    }

    /// A composition update. `text` replaces the range asked for (forced
    /// into the content), or else the marked range, or else it is inserted
    /// at the caret; it becomes the marked range, with the caret right after
    /// it. A disabled field stays as it is.
    pub fn set_marked(&mut self, range: Option<(usize, usize)>, text: &[char])
        ensures
            final(self)@ == old(self)@.set_marked(range_view(range), text@),
            final(self)@.wf(),
    {
        proof {
            use_type_invariant(&*self);
        }
        if self.disabled {
            return ;
        }
        let n: usize = self.content.len();
        let head: usize = if self.reversed { self.start } else { self.end };
        let (a, b): (usize, usize) = match range {
            Some((a, b)) => {
                let low: usize = if a > n { n } else { a };
                let high: usize = if b < low { low } else if b > n { n } else { b };
                (low, high)
            },
            None => match self.marked {
                Some(m) => m,
                None => (head, head),
            },
        };
        self.replace_range(a, b, text);
        proof {
            use_type_invariant(&*self);
        }
        let caret: usize = self.start;
        self.marked = Some((a, caret));
    }

    /// Ends a composition: the marked text stays as ordinary content and
    /// nothing is marked any more. A disabled field stays as it is.
    pub fn clear_marked_commit(&mut self)
        ensures
            final(self)@ == old(self)@.clear_marked_commit(),
            final(self)@.wf(),
    {
        proof {
            use_type_invariant(&*self);
        }
        if !self.disabled {
            self.marked = None;
        }
    }

    /// The content, the selection and the marked range, copied; the field
    /// itself is not touched.
    pub fn read(&self) -> (reading: Reading)
        ensures
            reading.content@ == self@.content,
            reading.start == self@.start,
            reading.end == self@.end,
            reading.reversed == self@.reversed,
            range_view(reading.marked) == self@.marked,
            reading.start <= reading.end <= reading.content@.len(),
    {
        proof {
            use_type_invariant(self);
        }
        let mut content: Vec<char> = Vec::new();
        push_range(&mut content, self.content.as_slice(), 0, self.content.len());
        assert(content@ =~= self.content@);
        Reading {
            content,
            start: self.start,
            end: self.end,
            reversed: self.reversed,
            marked: self.marked,
        }
    }

    /// Replaces the content wholesale. The selection is forced into the new
    /// content, nothing stays marked, and the layout is out of date. This is
    /// the host's setter: it works on a disabled field too.
    pub fn set_content(&mut self, text: Vec<char>)
        ensures
            final(self)@ == old(self)@.set_content(text@),
            final(self)@.wf(),
    {
        proof {
            use_type_invariant(&*self);
        }
        let n: usize = text.len();
        let start: usize = if self.start < n { self.start } else { n };
        let end: usize = if self.end < n { self.end } else { n };
        let backwards: bool = self.reversed && start < end;
        self.marked = None;
        self.reversed = false;
        self.start = 0;
        self.end = 0;
        self.content = text;
        self.end = end;
        self.start = start;
        self.reversed = backwards;
        self.layout_fresh = false;
    }

    /// Sets the text that stands in for an empty content.
    pub fn set_placeholder(&mut self, text: Vec<char>)
        ensures
            final(self)@ == (InputState { placeholder: text@, ..old(self)@ }),
            final(self)@.wf(),
    {
        proof {
            use_type_invariant(&*self);
        }
        self.placeholder = text;
    }

    /// The same field with `text` standing in for an empty content.
    pub fn placeholder(self, text: Vec<char>) -> (input: TextInput)
        ensures
            input@ == (InputState { placeholder: text@, ..self@ }),
            input@.wf(),
    {
        let mut input = self;
        input.set_placeholder(text);
        input
    }

    /// Disables or enables the whole field: while disabled, no edit and no
    /// selection change is taken.
    pub fn disabled(&mut self, disabled: bool)
        ensures
            final(self)@ == (InputState { disabled: disabled, ..old(self)@ }),
            final(self)@.wf(),
    {
        proof {
            use_type_invariant(&*self);
        }
        self.disabled = disabled;
    }

    /// Hands the field a fresh layout of its current content.
    pub fn set_layout(&mut self, layout: LayoutSnapshot)
        ensures
            final(self)@ == (InputState {
                layout: Some(layout@),
                layout_fresh: true,
                ..old(self)@
            }),
            final(self)@.wf(),
    {
        proof {
            use_type_invariant(&*self);
        }
        self.layout = Some(layout);
        self.layout_fresh = true;
    }

    /// The content.
    pub fn content(&self) -> (text: &Vec<char>)
        ensures
            text@ == self@.content,
    {
        &self.content
    }

    /// The number of codepoints of the content.
    pub fn len(&self) -> (n: usize)
        ensures
            n == self@.len(),
    {
        self.content.len()
    }

    /// The text to show: the content, or the placeholder while the content
    /// is empty.
    pub fn display_text(&self) -> (text: &Vec<char>)
        ensures
            text@ == (if self@.len() == 0 {
                self@.placeholder
            } else {
                self@.content
            }),
    {
        if self.content.len() == 0 {
            &self.placeholder
        } else {
            &self.content
        }
    }

    /// The selection, as `(start, end)`.
    pub fn selected_range(&self) -> (range: (usize, usize))
        ensures
            range.0 == self@.start,
            range.1 == self@.end,
            range.0 <= range.1 <= self@.len(),
    {
        proof {
            use_type_invariant(self);
        }
        (self.start, self.end)
    }

    /// Whether the moving end of the selection is its start.
    pub fn selection_reversed(&self) -> (reversed: bool)
        ensures
            reversed == self@.reversed,
    {
        self.reversed
    }

    /// The moving end of the selection: the caret.
    pub fn cursor_offset(&self) -> (offset: usize)
        ensures
            offset == self@.head(),
            offset <= self@.len(),
    {
        proof {
            use_type_invariant(self);
        }
        if self.reversed {
            self.start
        } else {
            self.end
        }
    }

    /// The range under composition, if any.
    pub fn marked_range(&self) -> (range: Option<(usize, usize)>)
        ensures
            range_view(range) == self@.marked,
    {
        self.marked
    }

    /// Whether the field refuses edits and selection changes.
    pub fn is_disabled(&self) -> (disabled: bool)
        ensures
            disabled == self@.disabled,
            self@.wf(),
    {
        proof {
            use_type_invariant(self);
        }
        self.disabled
    }

    /// Whether a pointer drag is under way.
    pub fn is_selecting(&self) -> (selecting: bool)
        ensures
            selecting == self@.selecting,
    {
        self.selecting
    }

    /// Whether the layout was measured for the current content.
    pub fn layout_is_fresh(&self) -> (fresh: bool)
        ensures
            fresh == self@.layout_fresh,
    {
        self.layout_fresh
    }

    /// The offset that a pointer at `(x, y)` stands for. Without a layout,
    /// or with nothing to point at, it is 0; above the widget it is 0 and
    /// below it the end of the content; otherwise the measured offset
    /// nearest to `x`, forced into the content.
    pub fn index_for_pointer(&self, x: i64, y: i64) -> (offset: usize)
        ensures
            offset == self@.hit_offset(x as int, y as int),
            offset <= self@.len(),
    {
        let n: usize = self.content.len();
        match &self.layout {
            None => 0,
            Some(l) => {
                if n == 0 || l.len() == 0 {
                    0
                } else if y < l.top() {
                    0
                } else if y > l.bottom() {
                    n
                } else {
                    let i: usize = l.closest_index_for_x(x);
                    if i > n {
                        n
                    } else {
                        i
                    }
                }
            },
        }
    }

    /// What is to be drawn over the text, from the selection, the marked
    /// range and the cached layout: a caret for a plain caret, a highlight
    /// for a selection, an underline for the marked range. Without a
    /// measured layout there is nothing to draw.
    pub fn paint(&self) -> (geometry: PaintGeometry)
        ensures
            geometry@ == self@.geometry(),
    {
        proof {
            use_type_invariant(self);
        }
        match &self.layout {
            None => PaintGeometry { caret: None, selection: None, underline: None },
            Some(l) => {
                let collapsed: bool = self.start == self.end;
                let caret: Option<i64> = if collapsed {
                    l.x_for_index(self.start)
                } else {
                    None
                };
                let selection: Option<(i64, i64)> = if collapsed {
                    None
                } else {
                    l.span(self.start, self.end)
                };
                let underline: Option<(i64, i64)> = match self.marked {
                    Some((a, b)) => l.span(a, b),
                    None => None,
                };
                PaintGeometry { caret, selection, underline }
            },
        }
    }

    /// A pointer press that lands on `offset` (forced into the content):
    /// a plain caret there, and a drag begins from it. A disabled field
    /// stays as it is.
    pub fn pointer_down_at(&mut self, offset: usize)
        ensures
            final(self)@ == old(self)@.pointer_down(offset as int),
            final(self)@.wf(),
    {
        proof {
            use_type_invariant(&*self);
        }
        if self.disabled {
            return ;
        }
        let n: usize = self.content.len();
        let at: usize = if offset > n { n } else { offset };
        self.set_caret(at);
        proof {
            use_type_invariant(&*self);
        }
        self.selecting = true;
        self.anchor = at;
    }

    /// A pointer drag that reaches `offset` (forced into the content): the
    /// selection spans from where the drag began to there, reversed when
    /// the pointer is left of the beginning. Outside a drag, and on a
    /// disabled field, nothing changes.
    pub fn pointer_move_to(&mut self, offset: usize)
        ensures
            final(self)@ == old(self)@.pointer_move(offset as int),
            final(self)@.wf(),
    {
        proof {
            use_type_invariant(&*self);
        }
        if self.disabled || !self.selecting {
            return ;
        }
        let n: usize = self.content.len();
        let tail: usize = if self.anchor > n { n } else { self.anchor };
        let head: usize = if offset > n { n } else { offset };
        self.select_between(tail, head);
        proof {
            use_type_invariant(&*self);
        }
    }

    /// A pointer press at `(x, y)`; returns the offset it landed on.
    pub fn on_pointer_down(&mut self, x: i64, y: i64) -> (offset: usize)
        ensures
            offset == old(self)@.hit_offset(x as int, y as int),
            final(self)@ == old(self)@.pointer_down(offset as int),
            final(self)@.wf(),
    {
        let offset: usize = self.index_for_pointer(x, y);
        self.pointer_down_at(offset);
        offset
    }

    /// A pointer move to `(x, y)`; returns the offset it reached.
    pub fn on_pointer_move(&mut self, x: i64, y: i64) -> (offset: usize)
        ensures
            offset == old(self)@.hit_offset(x as int, y as int),
            final(self)@ == old(self)@.pointer_move(offset as int),
            final(self)@.wf(),
    {
        let offset: usize = self.index_for_pointer(x, y);
        self.pointer_move_to(offset);
        offset
    }

    /// The pointer is released: the drag ends, the selection stays.
    pub fn on_pointer_up(&mut self)
        ensures
            final(self)@ == old(self)@.pointer_up(),
            final(self)@.wf(),
    {
        proof {
            use_type_invariant(&*self);
        }
        self.selecting = false;
    }

    /// The text to put on the clipboard: the selected codepoints, or
    /// nothing when there is only a caret. The field is not touched, and a
    /// disabled field answers as well.
    pub fn copy(&self) -> (text: Option<Vec<char>>)
        ensures
            text_view(text) == self@.copy(),
    {
        proof {
            use_type_invariant(self);
        }
        if self.start == self.end {
            None
        } else {
            let mut out: Vec<char> = Vec::new();
            push_range(&mut out, self.content.as_slice(), self.start, self.end);
            assert(out@ =~= self@.selected_text());
            Some(out)
        }
    }

    /// Cuts the selection: returns the text to put on the clipboard and
    /// removes it from the content, the caret landing where it stood. With
    /// only a caret, and on a disabled field, nothing changes and nothing is
    /// returned.
    pub fn cut(&mut self) -> (text: Option<Vec<char>>)
        ensures
            text_view(text) == old(self)@.cut_text(),
            final(self)@ == old(self)@.cut(),
            final(self)@.wf(),
    {
        proof {
            use_type_invariant(&*self);
        }
        if self.disabled {
            return None;
        }
        let text: Option<Vec<char>> = self.copy();
        if text.is_some() {
            let a: usize = self.start;
            let b: usize = self.end;
            let nothing: Vec<char> = Vec::new();
            self.replace_range(a, b, nothing.as_slice());
            proof {
                use_type_invariant(&*self);
                assert(nothing@ =~= Seq::<char>::empty());
            }
        }
        text
    }

    /// Pastes what the clipboard holds: a text that is there and not empty
    /// is typed; otherwise nothing changes.
    pub fn paste(&mut self, clipboard: &Option<Vec<char>>)
        ensures
            final(self)@ == old(self)@.paste(text_view(*clipboard)),
            final(self)@.wf(),
    {
        proof {
            use_type_invariant(&*self);
        }
        match clipboard {
            Some(text) => {
                if text.len() > 0 {
                    self.insert(text.as_slice());
                }
            },
            None => {},
        }
    }
}

} // verus!
