//! The dropdown: a trigger that opens a menu of items.

use vstd::prelude::*;
use crate::popover::{Corner, Popover};

verus! {

/// One line of a menu. A click sends the command it was given.
pub struct MenuItem {
    id: String,
    label: String,
    on_click: Option<u64>,
}

impl MenuItem {
    /// The identifier.
    pub closed spec fn spec_id(&self) -> Seq<char> {
        self.id@
    }

    /// The text of the line.
    pub closed spec fn spec_label(&self) -> Seq<char> {
        self.label@
    }

    /// The command that a click sends.
    pub closed spec fn spec_on_click(&self) -> Option<u64> {
        self.on_click
    }

    /// A menu item that sends no command.
    pub fn new(id: String, label: String) -> (item: MenuItem)
        ensures
            item.spec_id() == id@,
            item.spec_label() == label@,
            item.spec_on_click() is None,
    {
        MenuItem { id, label, on_click: None }
    }

    /// The same item, sending `command` when clicked.
    pub fn on_click(self, command: u64) -> (item: MenuItem)
        ensures
            item.spec_id() == self.spec_id(),
            item.spec_label() == self.spec_label(),
            item.spec_on_click() == Some(command),
    {
        let mut item = self;
        item.on_click = Some(command);
        item
    }

    /// The identifier.
    pub fn id(&self) -> (id: &String)
        ensures
            id@ == self.spec_id(),
    {
        &self.id
    }

    /// The text of the line.
    pub fn label(&self) -> (label: &String)
        ensures
            label@ == self.spec_label(),
    {
        &self.label
    }

    /// The command that a click sends, if any.
    pub fn command(&self) -> (command: Option<u64>)
        ensures
            command == self.spec_on_click(),
    {
        self.on_click
    }
}

/// A trigger that opens a menu. `E` is the host's element type; the
/// dropdown only carries it.
pub struct Dropdown<E> {
    id: String,
    trigger: E,
    menu: Vec<MenuItem>,
    selected: Option<usize>,
    open: bool,
}

impl<E> Dropdown<E> {
    /// The identifier.
    pub closed spec fn spec_id(&self) -> Seq<char> {
        self.id@
    }

    /// The element that opens the menu.
    pub closed spec fn spec_trigger(&self) -> E {
        self.trigger
    }

    /// The items of the menu.
    pub closed spec fn spec_menu(&self) -> Seq<MenuItem> {
        self.menu@
    }

    /// The index of the chosen item.
    pub closed spec fn spec_selected(&self) -> Option<usize> {
        self.selected
    }

    /// Whether the menu is shown.
    pub closed spec fn spec_open(&self) -> bool {
        self.open
    }

    /// A closed dropdown with nothing chosen.
    pub fn new(id: String, trigger: E, menu: Vec<MenuItem>) -> (dropdown: Dropdown<E>)
        ensures
            dropdown.spec_id() == id@,
            dropdown.spec_trigger() == trigger,
            dropdown.spec_menu() == menu@,
            dropdown.spec_selected() is None,
            !dropdown.spec_open(),
    {
        Dropdown { id, trigger, menu, selected: None, open: false }
    }

    /// The same dropdown, open or closed.
    pub fn open(self, open: bool) -> (dropdown: Dropdown<E>)
        ensures
            dropdown.spec_open() == open,
            dropdown.spec_id() == self.spec_id(),
            dropdown.spec_trigger() == self.spec_trigger(),
            dropdown.spec_menu() == self.spec_menu(),
            dropdown.spec_selected() == self.spec_selected(),
    {
        let mut dropdown = self;
        dropdown.open = open;
        dropdown
    }

    /// The index of the chosen item, if one is chosen.
    pub fn selected(self) -> (selected: Option<usize>)
        ensures
            selected == self.spec_selected(),
    {
        self.selected
    }

    /// Takes the dropdown apart, for the host to turn the items into one
    /// element: the items, and what is left to make the popover of.
    pub fn into_parts(self) -> (parts: (Vec<MenuItem>, DropdownFrame<E>))
        ensures
            parts.0@ == self.spec_menu(),
            parts.1.id@ == self.spec_id(),
            parts.1.trigger == self.spec_trigger(),
            parts.1.open == self.spec_open(),
    {
        (self.menu, DropdownFrame { id: self.id, trigger: self.trigger, open: self.open })
    }
}

/// A dropdown without its items.
pub struct DropdownFrame<E> {
    pub id: String,
    pub trigger: E,
    pub open: bool,
}

impl<E> DropdownFrame<E> {
    /// The popover that shows `menu` below the trigger while the dropdown
    /// is open.
    pub fn popover(self, menu: E) -> (popover: Popover<E>)
        ensures
            popover.spec_id() == self.id@,
            popover.spec_trigger() == self.trigger,
            popover.spec_content() == menu,
            popover.spec_anchor() == Corner::TopLeft,
            popover.spec_open() == self.open,
    {
        let open: bool = self.open;
        Popover::new(self.id, self.trigger, menu).open(open)
    }
}

} // verus!
