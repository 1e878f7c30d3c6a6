//! The push button: what it is configured with, and how it is to look.

use vstd::prelude::*;

verus! {

/// The three looks of a button.
#[derive(Clone, Copy, Debug, PartialEq, Eq, Structural)]
pub enum ButtonVariant {
    Flat,
    Outlined,
    Solid,
}

impl Default for ButtonVariant {
    fn default() -> (variant: ButtonVariant)
        ensures
            variant == ButtonVariant::Solid,
    {
        ButtonVariant::Solid
    }
}

/// A colour by the role it plays: the theme decides what it is on screen.
#[derive(Clone, Copy, Debug, PartialEq, Eq, Structural)]
pub enum Paint {
    White,
    Foreground,
    Transparent,
    Border,
    ButtonSurface,
    Primary,
    PrimaryHover,
    Highlight,
}

/// An optional text as a mathematical value.
pub open spec fn label_view(text: Option<String>) -> Option<Seq<char>> {
    match text {
        Some(t) => Some(t@),
        None => None,
    }
}

/// What a button holds.
pub struct ButtonView {
    pub id: Seq<char>,
    pub disabled: bool,
    pub variant: ButtonVariant,
    pub label: Option<Seq<char>>,
    pub icon_path: Option<Seq<char>>,
    pub on_click: Option<u64>,
    pub full_width: bool,
}

/// How a button is to be drawn and what it reacts to.
#[derive(Clone, Copy, Debug, PartialEq, Eq, Structural)]
pub struct ButtonLook {
    pub text: Paint,
    pub border: Paint,
    pub background: Paint,
    /// The background under the pointer; none while disabled.
    pub hover_background: Option<Paint>,
    /// The command that a click sends; none while disabled.
    pub click: Option<u64>,
    pub full_width: bool,
    /// Drawn faded, under a cursor that says no.
    pub dimmed: bool,
    /// An icon follows the label, pushed to the far edge.
    pub has_icon: bool,
}

impl ButtonView {
    /// The look of a button with this configuration. A disabled button is
    /// dimmed, does not light up under the pointer and sends no command.
    pub open spec fn look(self) -> ButtonLook {
        ButtonLook {
            text: if self.variant == ButtonVariant::Solid {
                Paint::White
            } else {
                Paint::Foreground
            },
            border: match self.variant {
                ButtonVariant::Flat => Paint::Transparent,
                ButtonVariant::Outlined => Paint::Border,
                ButtonVariant::Solid => Paint::PrimaryHover,
            },
            background: match self.variant {
                ButtonVariant::Flat => Paint::Transparent,
                ButtonVariant::Outlined => Paint::ButtonSurface,
                ButtonVariant::Solid => Paint::Primary,
            },
            hover_background: if self.disabled {
                None
            } else if self.variant == ButtonVariant::Solid {
                Some(Paint::PrimaryHover)
            } else {
                Some(Paint::Highlight)
            },
            click: if self.disabled {
                None
            } else {
                self.on_click
            },
            full_width: self.full_width,
            dimmed: self.disabled,
            has_icon: self.icon_path is Some,
        }
    }
}

/// A push button. A click sends the command it was given, a number that
/// the host maps to what is to happen.
pub struct Button {
    id: String,
    disabled: bool,
    variant: ButtonVariant,
    label: Option<String>,
    icon_path: Option<String>,
    on_click: Option<u64>,
    full_width: bool,
}

impl View for Button {
    type V = ButtonView;

    closed spec fn view(&self) -> ButtonView {
        ButtonView {
            id: self.id@,
            disabled: self.disabled,
            variant: self.variant,
            label: label_view(self.label),
            icon_path: label_view(self.icon_path),
            on_click: self.on_click,
            full_width: self.full_width,
        }
    }
}

impl Button {
    /// An enabled solid button without label, icon or command.
    pub fn new(id: String) -> (button: Button)
        ensures
            button@ == (ButtonView {
                id: id@,
                disabled: false,
                variant: ButtonVariant::Solid,
                label: None,
                icon_path: None,
                on_click: None,
                full_width: false,
            }),
    {
        Button {
            id,
            disabled: false,
            variant: ButtonVariant::Solid,
            label: None,
            icon_path: None,
            on_click: None,
            full_width: false,
        }
    }

    /// The same button, disabled or enabled.
    pub fn disabled(self, disabled: bool) -> (button: Button)
        ensures
            button@ == (ButtonView { disabled: disabled, ..self@ }),
    {
        let mut button = self;
        button.disabled = disabled;
        button
    }

    /// The same button, as wide as its container or as its content.
    pub fn full_width(self, full_width: bool) -> (button: Button)
        ensures
            button@ == (ButtonView { full_width: full_width, ..self@ }),
    {
        let mut button = self;
        button.full_width = full_width;
        button
    }

    /// The same button in another variant.
    pub fn variant(self, variant: ButtonVariant) -> (button: Button)
        ensures
            button@ == (ButtonView { variant: variant, ..self@ }),
    {
        let mut button = self;
        button.variant = variant;
        button
    }

    /// The same button with a label.
    pub fn with_label(self, label: String) -> (button: Button)
        ensures
            button@ == (ButtonView { label: Some(label@), ..self@ }),
    {
        let mut button = self;
        button.label = Some(label);
        button
    }

    /// The same button with the icon found at `path`.
    pub fn with_icon(self, path: String) -> (button: Button)
        ensures
            button@ == (ButtonView { icon_path: Some(path@), ..self@ }),
    {
        let mut button = self;
        button.icon_path = Some(path);
        button
    }

    /// The same button, sending `command` when clicked.
    pub fn on_click(self, command: u64) -> (button: Button)
        ensures
            button@ == (ButtonView { on_click: Some(command), ..self@ }),
    {
        let mut button = self;
        button.on_click = Some(command);
        button
    }

    /// The identifier.
    pub fn id(&self) -> (id: &String)
        ensures
            id@ == self@.id,
    {
        &self.id
    }

    /// The label, if there is one.
    pub fn label(&self) -> (label: &Option<String>)
        ensures
            label_view(*label) == self@.label,
    {
        &self.label
    }

    /// The path of the icon, if there is one.
    pub fn icon_path(&self) -> (path: &Option<String>)
        ensures
            label_view(*path) == self@.icon_path,
    {
        &self.icon_path
    }

    /// How the button is to be drawn and what it reacts to.
    pub fn look(&self) -> (look: ButtonLook)
        ensures
            look == self@.look(),
    {
        let solid: bool = match self.variant {
            ButtonVariant::Solid => true,
            _ => false,
        };
        ButtonLook {
            text: if solid { Paint::White } else { Paint::Foreground },
            border: match self.variant {
                ButtonVariant::Flat => Paint::Transparent,
                ButtonVariant::Outlined => Paint::Border,
                ButtonVariant::Solid => Paint::PrimaryHover,
            },
            background: match self.variant {
                ButtonVariant::Flat => Paint::Transparent,
                ButtonVariant::Outlined => Paint::ButtonSurface,
                ButtonVariant::Solid => Paint::Primary,
            },
            hover_background: if self.disabled {
                None
            } else if solid {
                Some(Paint::PrimaryHover)
            } else {
                Some(Paint::Highlight)
            },
            click: if self.disabled { None } else { self.on_click },
            full_width: self.full_width,
            dimmed: self.disabled,
            has_icon: self.icon_path.is_some(),
        }
    }
}

} // verus!
