//! The mathematical model of a single-line text field.
//!
//! Every operation of the widget is a total function on [`InputState`]; the
//! executable widget refines these functions one for one.

use vstd::prelude::*;

verus! {

/// The four caret movements.
#[derive(Clone, Copy, Debug, PartialEq, Eq, Structural)]
pub enum Direction {
    Left,
    Right,
    Home,
    End,
}

/// What a cached text layout holds: the horizontal position of every caret
/// offset, and the screen bounds of the widget it was measured for.
pub struct LayoutView {
    pub xs: Seq<int>,
    pub left: int,
    pub top: int,
    pub bottom: int,
}

/// Where the caret, the selection highlight and the composition underline
/// are to be drawn, as horizontal positions counted from the left edge of
/// the widget.
pub struct Geometry {
    pub caret: Option<int>,
    pub selection: Option<(int, int)>,
    pub underline: Option<(int, int)>,
}

impl LayoutView {
    /// The position of caret offset `i`; the last measured position when
    /// the layout is too short for it, and none on an empty layout.
    pub open spec fn x_at(self, i: int) -> Option<int> {
        if self.xs.len() == 0 {
            None
        } else if i < self.xs.len() {
            Some(self.xs[i])
        } else {
            Some(self.xs.last())
        }
    }

    /// The positions of both ends of the range `a..b`.
    pub open spec fn span(self, a: int, b: int) -> Option<(int, int)> {
        match (self.x_at(a), self.x_at(b)) {
            (Some(from), Some(to)) => Some((from, to)),
            _ => None,
        }
    }
}

/// The whole state of a text field, as plain mathematical values.
///
/// Offsets count codepoints. `start..end` is the selection; when `reversed`
/// holds the moving end of the selection is `start`, otherwise it is `end`.
pub struct InputState {
    pub content: Seq<char>,
    pub placeholder: Seq<char>,
    pub start: int,
    pub end: int,
    pub reversed: bool,
    pub marked: Option<(int, int)>,
    pub disabled: bool,
    pub selecting: bool,
    pub anchor: int,
    pub layout: Option<LayoutView>,
    pub layout_fresh: bool,
}

/// The distance between two positions on a line.
pub open spec fn distance(a: int, b: int) -> int {
    if a >= b {
        a - b
    } else {
        b - a
    }
}

/// The index among the first `n` positions of `xs` that lies nearest to `x`;
/// of several equally near ones, the leftmost. Zero when `n` is zero.
pub open spec fn nearest_among(xs: Seq<int>, x: int, n: nat) -> int
    decreases n,
{
    if n <= 1 {
        0
    } else {
        let best = nearest_among(xs, x, (n - 1) as nat);
        if distance(xs[n - 1], x) < distance(xs[best], x) {
            n - 1
        } else {
            best
        }
    }
}

/// The index of `xs` nearest to `x`, the leftmost of several.
pub open spec fn nearest(xs: Seq<int>, x: int) -> int {
    nearest_among(xs, x, xs.len())
}

/// `lo` when `i` lies below it, `hi` when above, else `i`.
pub open spec fn clamp_between(i: int, lo: int, hi: int) -> int {
    if i < lo {
        lo
    } else if i > hi {
        hi
    } else {
        i
    }
}

impl InputState {
    /// A new field: no content, a caret at offset 0, nothing marked.
    pub open spec fn initial() -> InputState {
        InputState {
            content: Seq::empty(),
            placeholder: Seq::empty(),
            start: 0,
            end: 0,
            reversed: false,
            marked: None,
            disabled: false,
            selecting: false,
            anchor: 0,
            layout: None,
            layout_fresh: false,
        }
    }

    /// The number of codepoints of the content.
    pub open spec fn len(self) -> int {
        self.content.len() as int
    }

    /// The selection and the marked range lie inside the content, and a plain
    /// caret is never called reversed.
    pub open spec fn wf(self) -> bool {
        &&& 0 <= self.start <= self.end <= self.len()
        &&& (self.start == self.end ==> !self.reversed)
        &&& match self.marked {
            Some((a, b)) => 0 <= a <= b <= self.len(),
            None => true,
        }
        &&& 0 <= self.anchor
    }

    /// The selection is a plain caret.
    pub open spec fn collapsed(self) -> bool {
        self.start == self.end
    }

    /// The moving end of the selection.
    pub open spec fn head(self) -> int {
        if self.reversed {
            self.start
        } else {
            self.end
        }
    }

    /// The fixed end of the selection.
    pub open spec fn tail(self) -> int {
        if self.reversed {
            self.end
        } else {
            self.start
        }
    }

    /// An offset forced into `0..=len`.
    pub open spec fn clamp(self, offset: int) -> int {
        clamp_between(offset, 0, self.len())
    }

    /// The selected codepoints.
    pub open spec fn selected_text(self) -> Seq<char> {
        self.content.subrange(self.start, self.end)
    }

    /// The same state with a plain caret at `offset`.
    pub open spec fn with_caret(self, offset: int) -> InputState {
        InputState { start: offset, end: offset, reversed: false, ..self }
    }

    /// The same state with the selection spanned between a fixed end and a
    /// moving end, in either order.
    pub open spec fn with_selection(self, tail: int, head: int) -> InputState {
        InputState {
            start: if head < tail { head } else { tail },
            end: if head < tail { tail } else { head },
            reversed: head < tail,
            ..self
        }
    }

    /// Replaces the codepoints `a..b` by `text`: the caret lands right after
    /// the new text, nothing stays marked, and the layout is out of date.
    pub open spec fn splice(self, a: int, b: int, text: Seq<char>) -> InputState {
        InputState {
            content: self.content.subrange(0, a) + text + self.content.subrange(b, self.len()),
            start: a + text.len(),
            end: a + text.len(),
            reversed: false,
            marked: None,
            layout_fresh: false,
            ..self
        }
    }

    /// Typing `text`: it replaces the selection.
    pub open spec fn insert(self, text: Seq<char>) -> InputState {
        if self.disabled {
            self
        } else {
            self.splice(self.start, self.end, text)
        }
    }

    /// Backspace: removes the selection, or else the codepoint before the
    /// caret, or else nothing.
    pub open spec fn delete_backward(self) -> InputState {
        if self.disabled {
            self
        } else if !self.collapsed() {
            self.splice(self.start, self.end, Seq::empty())
        } else if self.start > 0 {
            self.splice(self.start - 1, self.start, Seq::empty())
        } else {
            self
        }
    }

    /// Delete: removes the selection, or else the codepoint at the caret, or
    /// else nothing.
    pub open spec fn delete_forward(self) -> InputState {
        if self.disabled {
            self
        } else if !self.collapsed() {
            self.splice(self.start, self.end, Seq::empty())
        } else if self.end < self.len() {
            self.splice(self.end, self.end + 1, Seq::empty())
        } else {
            self
        }
    }

    /// Where one movement takes a caret that stands at `from`.
    pub open spec fn step(self, direction: Direction, from: int) -> int {
        match direction {
            Direction::Left => if from > 0 { from - 1 } else { 0 },
            Direction::Right => if from < self.len() { from + 1 } else { self.len() },
            Direction::Home => 0,
            Direction::End => self.len(),
        }
    }

    /// Moving the caret. Without `extend` a selection first collapses onto its
    /// own boundary; with `extend` the fixed end stays and the moving end steps.
    pub open spec fn move_caret(self, direction: Direction, extend: bool) -> InputState {
        if self.disabled {
            self
        } else if extend {
            self.with_selection(self.tail(), self.step(direction, self.head()))
        } else if self.collapsed() {
            self.with_caret(self.step(direction, self.start))
        } else {
            match direction {
                Direction::Left => self.with_caret(self.start),
                Direction::Right => self.with_caret(self.end),
                Direction::Home => self.with_caret(0),
                Direction::End => self.with_caret(self.len()),
            }
        }
    }

    /// Selecting the whole content.
    pub open spec fn select_all(self) -> InputState {
        if self.disabled {
            self
        } else {
            InputState { start: 0, end: self.len(), reversed: false, ..self }
        }
    }

    /// The range that a composition update replaces: the one asked for,
    /// forced into the content; else the marked range; else the caret.
    pub open spec fn marked_target(self, range: Option<(int, int)>) -> (int, int) {
        match range {
            Some((a, b)) => (self.clamp(a), clamp_between(b, self.clamp(a), self.len())),
            None => match self.marked {
                Some(m) => m,
                None => (self.head(), self.head()),
            },
        }
    }

    /// A composition update: `text` replaces the target range and becomes
    /// the marked range.
    pub open spec fn set_marked(self, range: Option<(int, int)>, text: Seq<char>) -> InputState {
        if self.disabled {
            self
        } else {
            let (a, b) = self.marked_target(range);
            InputState { marked: Some((a, a + text.len())), ..self.splice(a, b, text) }
        }
    }

    /// The end of a composition: the marked text stays as ordinary content.
    pub open spec fn clear_marked_commit(self) -> InputState {
        if self.disabled {
            self
        } else {
            InputState { marked: None, ..self }
        }
    }

    /// Replacing the content wholesale: the selection is forced into the new
    /// content and nothing stays marked.
    pub open spec fn set_content(self, text: Seq<char>) -> InputState {
        let n = text.len() as int;
        let start = if self.start < n { self.start } else { n };
        let end = if self.end < n { self.end } else { n };
        InputState {
            content: text,
            start: start,
            end: end,
            reversed: self.reversed && start < end,
            marked: None,
            layout_fresh: false,
            ..self
        }
    }

    /// The offset that a pointer at `(x, y)` stands for. Without a layout,
    /// or with nothing to point at, it is 0; above the widget it is 0 and
    /// below it the end; otherwise the offset whose position is nearest.
    pub open spec fn hit_offset(self, x: int, y: int) -> int {
        match self.layout {
            None => 0,
            Some(l) => if self.len() == 0 || l.xs.len() == 0 {
                0
            } else if y < l.top {
                0
            } else if y > l.bottom {
                self.len()
            } else {
                self.clamp(nearest(l.xs, x - l.left))
            },
        }
    }

    /// What is to be drawn over the text: a caret for a plain caret, a
    /// highlight for a selection, an underline for the marked range; nothing
    /// at all without a measured layout.
    pub open spec fn geometry(self) -> Geometry {
        match self.layout {
            None => Geometry { caret: None, selection: None, underline: None },
            Some(l) => Geometry {
                caret: if self.collapsed() {
                    l.x_at(self.start)
                } else {
                    None
                },
                selection: if self.collapsed() {
                    None
                } else {
                    l.span(self.start, self.end)
                },
                underline: match self.marked {
                    Some((a, b)) => l.span(a, b),
                    None => None,
                },
            },
        }
    }

    /// Pressing the pointer at `offset`: a caret there, and a drag begins.
    pub open spec fn pointer_down(self, offset: int) -> InputState {
        if self.disabled {
            self
        } else {
            InputState {
                selecting: true,
                anchor: self.clamp(offset),
                ..self.with_caret(self.clamp(offset))
            }
        }
    }

    /// Dragging the pointer to `offset`: the selection spans from where the
    /// drag began to there. Nothing happens outside a drag.
    pub open spec fn pointer_move(self, offset: int) -> InputState {
        if self.disabled || !self.selecting {
            self
        } else {
            self.with_selection(self.clamp(self.anchor), self.clamp(offset))
        }
    }

    /// Releasing the pointer: the drag ends and the selection stays.
    pub open spec fn pointer_up(self) -> InputState {
        InputState { selecting: false, ..self }
    }

    /// What copying hands to the clipboard: the selected text, or nothing
    /// when there is only a caret.
    pub open spec fn copy(self) -> Option<Seq<char>> {
        if self.collapsed() {
            None
        } else {
            Some(self.selected_text())
        }
    }

    /// What cutting hands to the clipboard.
    pub open spec fn cut_text(self) -> Option<Seq<char>> {
        if self.disabled {
            None
        } else {
            self.copy()
        }
    }

    /// The state after cutting: the selection is gone from the content.
    pub open spec fn cut(self) -> InputState {
        if self.disabled || self.collapsed() {
            self
        } else {
            self.splice(self.start, self.end, Seq::empty())
        }
    }

    /// Pasting what the clipboard holds: typing it, if there is any.
    pub open spec fn paste(self, clipboard: Option<Seq<char>>) -> InputState {
        match clipboard {
            Some(text) => if text.len() > 0 {
                self.insert(text)
            } else {
                self
            },
            None => self,
        }
    }
}

} // verus!
