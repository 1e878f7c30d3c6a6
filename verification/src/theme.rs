//! The colours of the widgets.

use vstd::prelude::*;
use crate::button::Paint;

verus! {

/// The colours that the widgets are drawn in, each as `0xRRGGBBAA`.
#[derive(Clone, Copy, Debug, PartialEq, Eq, Structural)]
pub struct Theme {
    pub border: u32,
    pub button_surface: u32,
    pub foreground: u32,
    pub ground: u32,
    pub highlight: u32,
    pub primary: u32,
    pub primary_hover: u32,
    pub surface: u32,
    pub transparent: u32,
}

/// Opaque white.
pub const WHITE: u32 = 0xFFFFFFFF;

/// The light theme.
pub open spec fn light() -> Theme {
    Theme {
        primary: 0x0078D4FF,
        primary_hover: 0x0078D4DD,
        foreground: 0x2F2F2FFF,
        border: 0xD3D3D6BB,
        ground: 0xF3F4F6FF,
        surface: 0xFFFFFFFF,
        button_surface: 0xFFFFFFFF,
        transparent: 0x00000000,
        highlight: 0xFAFAFAFF,
    }
}

impl Default for Theme {
    fn default() -> (theme: Theme)
        ensures
            theme == light(),
    {
        Theme {
            primary: 0x0078D4FF,
            primary_hover: 0x0078D4DD,
            foreground: 0x2F2F2FFF,
            border: 0xD3D3D6BB,
            ground: 0xF3F4F6FF,
            surface: 0xFFFFFFFF,
            button_surface: 0xFFFFFFFF,
            transparent: 0x00000000,
            highlight: 0xFAFAFAFF,
        }
    }
}

impl Theme {
    /// The colour that plays the given role in this theme.
    pub open spec fn spec_color(self, paint: Paint) -> u32 {
        match paint {
            Paint::White => 0xFFFFFFFF,
            Paint::Foreground => self.foreground,
            Paint::Transparent => self.transparent,
            Paint::Border => self.border,
            Paint::ButtonSurface => self.button_surface,
            Paint::Primary => self.primary,
            Paint::PrimaryHover => self.primary_hover,
            Paint::Highlight => self.highlight,
        }
    }

    /// The colour that plays the given role in this theme.
    pub fn color(&self, paint: Paint) -> (rgba: u32)
        ensures
            rgba == self.spec_color(paint),
    {
        match paint {
            Paint::White => WHITE,
            Paint::Foreground => self.foreground,
            Paint::Transparent => self.transparent,
            Paint::Border => self.border,
            Paint::ButtonSurface => self.button_surface,
            Paint::Primary => self.primary,
            Paint::PrimaryHover => self.primary_hover,
            Paint::Highlight => self.highlight,
        }
    }
}

} // verus!
