//! A small widget library with verified behaviour.
//!
//! Its centre is a single-line text field as a state machine: content,
//! selection, composition range, pointer selection against a cached layout,
//! the clipboard, and the named actions that drive them. Around it stand the
//! plain state of a button, a popover and a dropdown, the theme's colours,
//! and the date check of a booking form.

pub mod model;
pub mod text;
pub mod encoding;
pub mod layout;
pub mod text_input;
pub mod clipboard;
pub mod dispatch;
pub mod laws;
pub mod assets;
pub mod date;
pub mod button;
pub mod popover;
pub mod dropdown;
pub mod theme;
pub mod counter;
