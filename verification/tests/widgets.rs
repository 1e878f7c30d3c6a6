use std::path::PathBuf;
use ui::assets::Assets;
use ui::button::{Button, ButtonLook, ButtonVariant, Paint};
use ui::counter::Counter;
use ui::dropdown::{Dropdown, MenuItem};
use ui::layout::LayoutSnapshot;
use ui::popover::{Corner, Overlay, Popover};
use ui::text_input::TextInput;
use ui::theme::Theme;

fn chars(s: &str) -> Vec<char> {
    s.chars().collect()
}

#[test]
fn default_variant_is_solid() {
    assert_eq!(ButtonVariant::default(), ButtonVariant::Solid);
}

#[test]
fn new_button_is_plain() {
    let button = Button::new("b".to_string());
    assert_eq!(button.id(), "b");
    assert_eq!(button.label(), &None);
    assert_eq!(button.icon_path(), &None);
    assert_eq!(
        button.look(),
        ButtonLook {
            text: Paint::White,
            border: Paint::PrimaryHover,
            background: Paint::Primary,
            hover_background: Some(Paint::PrimaryHover),
            click: None,
            full_width: false,
            dimmed: false,
            has_icon: false,
        }
    );
}

#[test]
fn button_builders_set_their_field() {
    let button = Button::new("book".to_string())
        .with_label("Book".to_string())
        .with_icon("icons/caret_down.svg".to_string())
        .variant(ButtonVariant::Outlined)
        .full_width(true)
        .on_click(7);
    assert_eq!(button.label(), &Some("Book".to_string()));
    assert_eq!(button.icon_path(), &Some("icons/caret_down.svg".to_string()));
    assert_eq!(
        button.look(),
        ButtonLook {
            text: Paint::Foreground,
            border: Paint::Border,
            background: Paint::ButtonSurface,
            hover_background: Some(Paint::Highlight),
            click: Some(7),
            full_width: true,
            dimmed: false,
            has_icon: true,
        }
    );
}

#[test]
fn disabled_button_sends_no_command() {
    let look = Button::new("b".to_string()).on_click(3).disabled(true).look();
    assert_eq!(look.click, None);
    assert_eq!(look.hover_background, None);
    assert!(look.dimmed);
    let again = Button::new("b".to_string()).on_click(3).disabled(true).disabled(false).look();
    assert_eq!(again.click, Some(3));
    assert!(!again.dimmed);
}

#[test]
fn flat_button_is_transparent() {
    let look = Button::new("b".to_string()).variant(ButtonVariant::Flat).look();
    assert_eq!(look.border, Paint::Transparent);
    assert_eq!(look.background, Paint::Transparent);
    assert_eq!(look.text, Paint::Foreground);
    assert_eq!(look.hover_background, Some(Paint::Highlight));
}

#[test]
fn menu_item_builders() {
    let item = MenuItem::new("1".to_string(), "One-way flight".to_string());
    assert_eq!(item.id(), "1");
    assert_eq!(item.label(), "One-way flight");
    assert_eq!(item.command(), None);
    let item = item.on_click(11);
    assert_eq!(item.command(), Some(11));
    assert_eq!(item.label(), "One-way flight");
}

#[test]
fn dropdown_starts_closed_with_nothing_selected() {
    let menu = vec![
        MenuItem::new("1".to_string(), "a".to_string()),
        MenuItem::new("2".to_string(), "b".to_string()),
    ];
    let dropdown = Dropdown::new("d".to_string(), 5u8, menu);
    assert_eq!(dropdown.selected(), None);
}

#[test]
fn dropdown_becomes_popover() {
    let menu = vec![MenuItem::new("1".to_string(), "a".to_string()).on_click(4)];
    let (items, frame) = Dropdown::new("d".to_string(), 5u8, menu).open(true).into_parts();
    assert_eq!(items.len(), 1);
    assert_eq!(items[0].command(), Some(4));
    assert_eq!(frame.id, "d");
    assert_eq!(frame.trigger, 5);
    assert!(frame.open);
    let popover = frame.popover(9u8);
    assert!(popover.is_open());
    assert_eq!(
        popover.overlay(),
        Some(Overlay { anchor: Corner::TopLeft, margin: 8, priority: 10 })
    );
    assert_eq!(popover.into_parts(), ("d".to_string(), 5, 9));
}

#[test]
fn closed_popover_has_no_overlay() {
    let popover = Popover::new("p".to_string(), 'a', 'b');
    assert!(!popover.is_open());
    assert_eq!(popover.overlay(), None);
    let popover = popover.anchor(Corner::BottomRight).open(true);
    assert_eq!(
        popover.overlay(),
        Some(Overlay { anchor: Corner::BottomRight, margin: 8, priority: 10 })
    );
    let popover = popover.open(false);
    assert_eq!(popover.overlay(), None);
    assert_eq!(popover.into_parts(), ("p".to_string(), 'a', 'b'));
}

#[test]
fn default_theme_colours() {
    let theme = Theme::default();
    assert_eq!(theme.primary, 0x0078D4FF);
    assert_eq!(theme.primary_hover, 0x0078D4DD);
    assert_eq!(theme.foreground, 0x2F2F2FFF);
    assert_eq!(theme.border, 0xD3D3D6BB);
    assert_eq!(theme.ground, 0xF3F4F6FF);
    assert_eq!(theme.surface, 0xFFFFFFFF);
    assert_eq!(theme.button_surface, 0xFFFFFFFF);
    assert_eq!(theme.transparent, 0);
    assert_eq!(theme.highlight, 0xFAFAFAFF);
}

#[test]
fn theme_resolves_paint_roles() {
    let theme = Theme::default();
    assert_eq!(theme.color(Paint::White), 0xFFFFFFFF);
    assert_eq!(theme.color(Paint::Foreground), theme.foreground);
    assert_eq!(theme.color(Paint::Transparent), theme.transparent);
    assert_eq!(theme.color(Paint::Border), theme.border);
    assert_eq!(theme.color(Paint::ButtonSurface), theme.button_surface);
    assert_eq!(theme.color(Paint::Primary), theme.primary);
    assert_eq!(theme.color(Paint::PrimaryHover), theme.primary_hover);
    assert_eq!(theme.color(Paint::Highlight), theme.highlight);
}

#[test]
fn counter_counts_up() {
    let mut counter = Counter::new(0);
    assert_eq!(counter.count(), 0);
    counter.increment();
    counter.increment();
    assert_eq!(counter.count(), 2);
    let mut high = Counter::new(u32::MAX - 1);
    high.increment();
    assert_eq!(high.count(), u32::MAX);
}

#[test]
fn assets_keep_their_base() {
    let assets = Assets::new(PathBuf::from("assets"));
    assert_eq!(assets.base, PathBuf::from("assets"));
}

#[test]
fn paint_without_layout_draws_nothing() {
    let mut input = TextInput::new();
    input.insert(&chars("abc"));
    let geometry = input.paint();
    assert_eq!(geometry.caret, None);
    assert_eq!(geometry.selection, None);
    assert_eq!(geometry.underline, None);
}

#[test]
fn paint_caret_selection_and_underline() {
    let mut input = TextInput::new();
    input.set_content(chars("abcd"));
    input.set_layout(LayoutSnapshot::new(vec![0, 10, 20, 30, 40], 100, 0, 20));
    input.pointer_down_at(3);
    input.on_pointer_up();
    let caret = input.paint();
    assert_eq!(caret.caret, Some(30));
    assert_eq!(caret.selection, None);
    assert_eq!(caret.underline, None);

    input.pointer_down_at(3);
    input.pointer_move_to(1);
    let selection = input.paint();
    assert_eq!(selection.caret, None);
    assert_eq!(selection.selection, Some((10, 30)));

    input.set_marked(Some((1, 3)), &chars("xy"));
    input.set_layout(LayoutSnapshot::new(vec![0, 10, 20, 30, 40], 100, 0, 20));
    let marked = input.paint();
    assert_eq!(marked.underline, Some((10, 30)));
    assert_eq!(marked.caret, Some(30));
}

#[test]
fn paint_on_short_layout_uses_last_position() {
    let mut input = TextInput::new();
    input.set_layout(LayoutSnapshot::new(vec![0, 10], 0, 0, 20));
    input.insert(&chars("abcd"));
    assert_eq!(input.paint().caret, Some(10));
    input.select_all();
    assert_eq!(input.paint().selection, Some((0, 10)));
    input.set_layout(LayoutSnapshot::new(Vec::new(), 0, 0, 20));
    assert_eq!(input.paint().selection, None);
    assert_eq!(input.paint().caret, None);
}
