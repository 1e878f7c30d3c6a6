//! The popover: a trigger, and a content that floats beside it while open.

use vstd::prelude::*;

verus! {

/// The corner of the trigger that the floating content hangs on.
#[derive(Clone, Copy, Debug, PartialEq, Eq, Structural)]
pub enum Corner {
    TopLeft,
    TopRight,
    BottomLeft,
    BottomRight,
}

/// How the floating content is placed.
#[derive(Clone, Copy, Debug, PartialEq, Eq, Structural)]
pub struct Overlay {
    pub anchor: Corner,
    /// The distance kept from the window's edge, in pixels.
    pub margin: u32,
    /// The drawing priority among deferred elements.
    pub priority: usize,
}

/// The distance that floating content keeps from the window's edge.
pub const WINDOW_MARGIN: u32 = 8;

/// The drawing priority of floating content.
pub const PRIORITY: usize = 10;

/// A trigger with a content that floats beside it while the popover is
/// open. `E` is the host's element type; the popover only carries it.
pub struct Popover<E> {
    id: String,
    anchor: Corner,
    trigger: E,
    content: E,
    open: bool,
}

impl<E> Popover<E> {
    /// The identifier.
    pub closed spec fn spec_id(&self) -> Seq<char> {
        self.id@
    }

    /// The corner that the content hangs on.
    pub closed spec fn spec_anchor(&self) -> Corner {
        self.anchor
    }

    /// The element that opens the popover.
    pub closed spec fn spec_trigger(&self) -> E {
        self.trigger
    }

    /// The element that floats.
    pub closed spec fn spec_content(&self) -> E {
        self.content
    }

    /// Whether the content is shown.
    pub closed spec fn spec_open(&self) -> bool {
        self.open
    }

    /// A closed popover that hangs on the top left corner.
    pub fn new(id: String, trigger: E, content: E) -> (popover: Popover<E>)
        ensures
            popover.spec_id() == id@,
            popover.spec_trigger() == trigger,
            popover.spec_content() == content,
            popover.spec_anchor() == Corner::TopLeft,
            !popover.spec_open(),
    {
        Popover { id, trigger, content, open: false, anchor: Corner::TopLeft }
    }

    /// The same popover, open or closed.
    pub fn open(self, open: bool) -> (popover: Popover<E>)
        ensures
            popover.spec_open() == open,
            popover.spec_id() == self.spec_id(),
            popover.spec_trigger() == self.spec_trigger(),
            popover.spec_content() == self.spec_content(),
            popover.spec_anchor() == self.spec_anchor(),
    {
        let mut popover = self;
        popover.open = open;
        popover
    }

    /// The same popover, hanging on another corner.
    pub fn anchor(self, anchor: Corner) -> (popover: Popover<E>)
        ensures
            popover.spec_anchor() == anchor,
            popover.spec_id() == self.spec_id(),
            popover.spec_trigger() == self.spec_trigger(),
            popover.spec_content() == self.spec_content(),
            popover.spec_open() == self.spec_open(),
    {
        let mut popover = self;
        popover.anchor = anchor;
        popover
    }

    /// Whether the content is shown.
    pub fn is_open(&self) -> (open: bool)
        ensures
            open == self.spec_open(),
    {
        self.open
    }

    /// How the content is to float: not at all while the popover is closed.
    pub fn overlay(&self) -> (overlay: Option<Overlay>)
        ensures
            overlay == (if self.spec_open() {
                Some(Overlay { anchor: self.spec_anchor(), margin: 8, priority: 10 })
            } else {
                None
            }),
    {
        if self.open {
            Some(Overlay { anchor: self.anchor, margin: WINDOW_MARGIN, priority: PRIORITY })
        } else {
            None
        }
    }

    /// Takes the popover apart: identifier, trigger and content.
    pub fn into_parts(self) -> (parts: (String, E, E))
        ensures
            parts.0@ == self.spec_id(),
            parts.1 == self.spec_trigger(),
            parts.2 == self.spec_content(),
    {
        (self.id, self.trigger, self.content)
    }
}

} // verus!
