use ui::clipboard::Clipboard;
use ui::dispatch::{dispatch, Action, Outcome};
use ui::layout::LayoutSnapshot;
use ui::model::Direction;
use ui::text_input::TextInput;

fn chars(s: &str) -> Vec<char> {
    s.chars().collect()
}

fn text(input: &TextInput) -> String {
    input.content().iter().collect()
}

fn field(content: &str) -> TextInput {
    let mut input = TextInput::new();
    input.set_content(chars(content));
    input
}

fn field_with_selection(content: &str, tail: usize, head: usize) -> TextInput {
    let mut input = field(content);
    input.pointer_down_at(tail);
    input.pointer_move_to(head);
    input.on_pointer_up();
    input
}

#[test]
fn new_field_is_empty_with_caret_at_zero() {
    let input = TextInput::new();
    assert_eq!(input.len(), 0);
    assert_eq!(input.selected_range(), (0, 0));
    assert!(!input.selection_reversed());
    assert_eq!(input.marked_range(), None);
    assert!(!input.is_disabled());
    assert!(!input.is_selecting());
}

#[test]
fn end_moves_caret_to_length() {
    let mut input = field("Hello");
    let mut clipboard = Clipboard::new();
    assert_eq!(input.selected_range(), (0, 0));
    let outcome = dispatch(&mut input, Action::End, true, &mut clipboard);
    assert_eq!(outcome, Outcome::Applied);
    assert_eq!(input.selected_range(), (5, 5));
}

#[test]
fn select_all_then_insert_replaces_everything() {
    let mut input = field("Hello");
    let mut clipboard = Clipboard::new();
    dispatch(&mut input, Action::SelectAll, true, &mut clipboard);
    assert_eq!(input.selected_range(), (0, 5));
    assert!(!input.selection_reversed());
    input.insert(&chars("Hi"));
    assert_eq!(text(&input), "Hi");
    assert_eq!(input.selected_range(), (2, 2));
}

#[test]
fn paste_into_empty_field() {
    let mut input = TextInput::new();
    let mut clipboard = Clipboard::with_text(chars("World"));
    dispatch(&mut input, Action::Paste, true, &mut clipboard);
    assert_eq!(text(&input), "World");
    assert_eq!(input.selected_range(), (5, 5));
    assert_eq!(clipboard.text(), &Some(chars("World")));
}

#[test]
fn select_right_twice_extends_forward() {
    let mut input = field_with_selection("abcdef", 3, 3);
    let mut clipboard = Clipboard::new();
    assert_eq!(input.selected_range(), (3, 3));
    dispatch(&mut input, Action::SelectRight, true, &mut clipboard);
    dispatch(&mut input, Action::SelectRight, true, &mut clipboard);
    assert_eq!(input.selected_range(), (3, 5));
    assert!(!input.selection_reversed());
}

#[test]
fn drag_forward_then_back_past_anchor() {
    let mut input = field("abcdef");
    input.pointer_down_at(2);
    assert!(input.is_selecting());
    assert_eq!(input.selected_range(), (2, 2));
    input.pointer_move_to(5);
    assert_eq!(input.selected_range(), (2, 5));
    assert!(!input.selection_reversed());
    input.pointer_move_to(0);
    assert_eq!(input.selected_range(), (0, 2));
    assert!(input.selection_reversed());
    input.on_pointer_up();
    assert!(!input.is_selecting());
    assert_eq!(input.selected_range(), (0, 2));
    assert!(input.selection_reversed());
}

#[test]
fn cut_moves_selection_to_clipboard() {
    let mut input = field_with_selection("test", 1, 3);
    let mut clipboard = Clipboard::new();
    assert_eq!(input.selected_range(), (1, 3));
    dispatch(&mut input, Action::Cut, true, &mut clipboard);
    assert_eq!(clipboard.text(), &Some(chars("es")));
    assert_eq!(text(&input), "tt");
    assert_eq!(input.selected_range(), (1, 1));
}

#[test]
fn insert_at_caret_in_the_middle() {
    let mut input = field_with_selection("abef", 2, 2);
    input.insert(&chars("cd"));
    assert_eq!(text(&input), "abcdef");
    assert_eq!(input.selected_range(), (4, 4));
    assert_eq!(input.marked_range(), None);
    assert!(!input.layout_is_fresh());
}

#[test]
fn insert_replaces_reversed_selection() {
    let mut input = field_with_selection("abcdef", 4, 1);
    assert!(input.selection_reversed());
    input.insert(&chars("X"));
    assert_eq!(text(&input), "aXef");
    assert_eq!(input.selected_range(), (2, 2));
    assert!(!input.selection_reversed());
}

#[test]
fn insert_never_leaves_a_selection() {
    for tail in 0..=4usize {
        for head in 0..=4usize {
            let mut input = field_with_selection("abcd", tail, head);
            input.insert(&chars("é∑"));
            let reading = input.read();
            assert_eq!(reading.start, reading.end);
            assert_eq!(reading.start, tail.min(head) + 2);
            assert_eq!(reading.content.len(), 4 - (tail.max(head) - tail.min(head)) + 2);
        }
    }
}

#[test]
fn offsets_count_codepoints() {
    let mut input = field("héllo");
    assert_eq!(input.len(), 5);
    input.move_caret(Direction::Right, false);
    input.move_caret(Direction::Right, false);
    assert_eq!(input.selected_range(), (2, 2));
    input.delete_backward();
    assert_eq!(text(&input), "hllo");
    assert_eq!(input.selected_range(), (1, 1));
}

#[test]
fn delete_backward_removes_one_codepoint() {
    let mut input = field_with_selection("abc", 2, 2);
    input.delete_backward();
    assert_eq!(text(&input), "ac");
    assert_eq!(input.selected_range(), (1, 1));
}

#[test]
fn delete_backward_removes_selection() {
    let mut input = field_with_selection("abcdef", 1, 4);
    input.delete_backward();
    assert_eq!(text(&input), "aef");
    assert_eq!(input.selected_range(), (1, 1));
}

#[test]
fn delete_backward_at_zero_is_noop() {
    let mut input = field("abc");
    input.set_marked(None, &chars(""));
    let marked = input.marked_range();
    input.delete_backward();
    assert_eq!(text(&input), "abc");
    assert_eq!(input.selected_range(), (0, 0));
    assert_eq!(input.marked_range(), marked);
}

#[test]
fn delete_forward_removes_one_codepoint() {
    let mut input = field_with_selection("abc", 1, 1);
    input.delete_forward();
    assert_eq!(text(&input), "ac");
    assert_eq!(input.selected_range(), (1, 1));
}

#[test]
fn delete_forward_removes_selection() {
    let mut input = field_with_selection("abcdef", 5, 2);
    input.delete_forward();
    assert_eq!(text(&input), "abf");
    assert_eq!(input.selected_range(), (2, 2));
}

#[test]
fn delete_forward_at_end_is_noop() {
    let mut input = field_with_selection("abc", 3, 3);
    input.delete_forward();
    assert_eq!(text(&input), "abc");
    assert_eq!(input.selected_range(), (3, 3));
}

#[test]
fn move_left_at_zero_stays() {
    let mut input = field("abc");
    input.move_caret(Direction::Left, false);
    assert_eq!(input.selected_range(), (0, 0));
}

#[test]
fn move_right_at_end_stays() {
    let mut input = field_with_selection("abc", 3, 3);
    input.move_caret(Direction::Right, false);
    assert_eq!(input.selected_range(), (3, 3));
}

#[test]
fn move_steps_by_one() {
    let mut input = field_with_selection("abc", 1, 1);
    input.move_caret(Direction::Right, false);
    assert_eq!(input.selected_range(), (2, 2));
    input.move_caret(Direction::Left, false);
    input.move_caret(Direction::Left, false);
    assert_eq!(input.selected_range(), (0, 0));
}

#[test]
fn move_collapses_selection_to_its_boundary() {
    let mut left = field_with_selection("abcdef", 2, 5);
    left.move_caret(Direction::Left, false);
    assert_eq!(left.selected_range(), (2, 2));
    let mut right = field_with_selection("abcdef", 2, 5);
    right.move_caret(Direction::Right, false);
    assert_eq!(right.selected_range(), (5, 5));
    let mut reversed = field_with_selection("abcdef", 5, 2);
    reversed.move_caret(Direction::Left, false);
    assert_eq!(reversed.selected_range(), (2, 2));
    assert!(!reversed.selection_reversed());
}

#[test]
fn home_and_end_jump() {
    let mut input = field_with_selection("abcdef", 2, 4);
    input.move_caret(Direction::Home, false);
    assert_eq!(input.selected_range(), (0, 0));
    input.move_caret(Direction::End, false);
    assert_eq!(input.selected_range(), (6, 6));
}

#[test]
fn extend_left_from_caret_reverses() {
    let mut input = field_with_selection("abcdef", 3, 3);
    input.move_caret(Direction::Left, true);
    assert_eq!(input.selected_range(), (2, 3));
    assert!(input.selection_reversed());
    assert_eq!(input.cursor_offset(), 2);
    input.move_caret(Direction::Right, true);
    assert_eq!(input.selected_range(), (3, 3));
    assert!(!input.selection_reversed());
    input.move_caret(Direction::Right, true);
    assert_eq!(input.selected_range(), (3, 4));
    assert!(!input.selection_reversed());
    assert_eq!(input.cursor_offset(), 4);
}

#[test]
fn extend_home_and_end_keep_anchor() {
    let mut input = field_with_selection("abcdef", 2, 4);
    input.move_caret(Direction::Home, true);
    assert_eq!(input.selected_range(), (0, 2));
    assert!(input.selection_reversed());
    input.move_caret(Direction::End, true);
    assert_eq!(input.selected_range(), (2, 6));
    assert!(!input.selection_reversed());
}

#[test]
fn select_all_twice_is_select_all_once() {
    let mut input = field_with_selection("abcdef", 4, 1);
    input.select_all();
    let once = (input.selected_range(), input.selection_reversed());
    input.select_all();
    assert_eq!((input.selected_range(), input.selection_reversed()), once);
    assert_eq!(once, ((0, 6), false));
}

#[test]
fn set_marked_inserts_at_caret_and_marks() {
    let mut input = field_with_selection("abef", 2, 2);
    input.set_marked(None, &chars("cd"));
    assert_eq!(text(&input), "abcdef");
    assert_eq!(input.marked_range(), Some((2, 4)));
    assert_eq!(input.selected_range(), (4, 4));
}

#[test]
fn set_marked_replaces_previous_marked_text() {
    let mut input = field_with_selection("ab", 1, 1);
    input.set_marked(None, &chars("xy"));
    assert_eq!(text(&input), "axyb");
    input.set_marked(None, &chars("Z"));
    assert_eq!(text(&input), "aZb");
    assert_eq!(input.marked_range(), Some((1, 2)));
    assert_eq!(input.selected_range(), (2, 2));
}

#[test]
fn set_marked_clamps_explicit_range() {
    let mut input = field("abc");
    input.set_marked(Some((2, 99)), &chars("Q"));
    assert_eq!(text(&input), "abQ");
    assert_eq!(input.marked_range(), Some((2, 3)));
    let mut other = field("abc");
    other.set_marked(Some((50, 1)), &chars("Q"));
    assert_eq!(text(&other), "abcQ");
    assert_eq!(other.marked_range(), Some((3, 4)));
}

#[test]
fn clear_marked_commit_keeps_text() {
    let mut input = field("ab");
    input.set_marked(None, &chars("xy"));
    input.clear_marked_commit();
    assert_eq!(text(&input), "xyab");
    assert_eq!(input.marked_range(), None);
    assert_eq!(input.selected_range(), (2, 2));
}

#[test]
fn insert_clears_marked_range() {
    let mut input = field("ab");
    input.set_marked(None, &chars("xy"));
    input.insert(&chars("!"));
    assert_eq!(text(&input), "xy!ab");
    assert_eq!(input.marked_range(), None);
}

#[test]
fn read_returns_state_without_changing_it() {
    let mut input = field_with_selection("abcdef", 4, 1);
    input.disabled(true);
    let first = input.read();
    let second = input.read();
    assert_eq!(first.content, chars("abcdef"));
    assert_eq!((first.start, first.end, first.reversed), (1, 4, true));
    assert_eq!(first.marked, None);
    assert_eq!(second.content, first.content);
    assert_eq!((second.start, second.end, second.reversed), (1, 4, true));
}

#[test]
fn set_content_clamps_selection_and_clears_marked() {
    let mut input = field("abcdef");
    input.set_marked(Some((1, 3)), &chars("zz"));
    input.pointer_down_at(2);
    input.pointer_move_to(6);
    input.set_content(chars("abc"));
    assert_eq!(text(&input), "abc");
    assert_eq!(input.selected_range(), (2, 3));
    assert_eq!(input.marked_range(), None);
    input.set_content(chars("a"));
    assert_eq!(input.selected_range(), (1, 1));
    assert!(!input.selection_reversed());
}

#[test]
fn placeholder_shows_while_empty() {
    let mut input = TextInput::new().placeholder(chars("DD.MM.YYYY"));
    assert_eq!(input.display_text(), &chars("DD.MM.YYYY"));
    input.insert(&chars("1"));
    assert_eq!(input.display_text(), &chars("1"));
    input.set_placeholder(chars("other"));
    input.delete_backward();
    assert_eq!(input.display_text(), &chars("other"));
}

#[test]
fn disabled_field_refuses_edits_and_selection() {
    let mut input = field_with_selection("abcdef", 4, 1);
    input.set_marked(Some((0, 1)), &chars("A"));
    input.pointer_down_at(4);
    input.pointer_move_to(1);
    input.on_pointer_up();
    input.disabled(true);
    let before = input.read();
    let mut clipboard = Clipboard::with_text(chars("clip"));

    input.insert(&chars("x"));
    input.delete_backward();
    input.delete_forward();
    input.move_caret(Direction::Left, true);
    input.move_caret(Direction::End, true);
    input.move_caret(Direction::Right, false);
    input.select_all();
    input.set_marked(None, &chars("m"));
    input.clear_marked_commit();
    input.pointer_down_at(0);
    input.pointer_move_to(3);
    assert_eq!(input.cut(), None);
    input.paste(&Some(chars("p")));
    ui::clipboard::cut(&mut input, &mut clipboard);
    ui::clipboard::paste(&mut input, &clipboard);

    let after = input.read();
    assert_eq!(after.content, before.content);
    assert_eq!((after.start, after.end, after.reversed), (before.start, before.end, before.reversed));
    assert_eq!(after.marked, before.marked);
    assert_eq!(clipboard.text(), &Some(chars("clip")));
    assert_eq!(input.copy(), Some(chars("bcd")));
}

#[test]
fn dispatcher_refuses_everything_but_copy_when_disabled() {
    let actions = [
        Action::Backspace,
        Action::Delete,
        Action::Left,
        Action::Right,
        Action::SelectLeft,
        Action::SelectRight,
        Action::Home,
        Action::End,
        Action::SelectAll,
        Action::Cut,
        Action::Paste,
    ];
    for action in actions {
        let mut input = field_with_selection("abcdef", 2, 4);
        input.disabled(true);
        let mut clipboard = Clipboard::with_text(chars("clip"));
        assert_eq!(dispatch(&mut input, action, true, &mut clipboard), Outcome::Refused);
        assert_eq!(text(&input), "abcdef");
        assert_eq!(input.selected_range(), (2, 4));
        assert_eq!(clipboard.text(), &Some(chars("clip")));
    }
    let mut input = field_with_selection("abcdef", 2, 4);
    input.disabled(true);
    let mut clipboard = Clipboard::new();
    assert_eq!(dispatch(&mut input, Action::Copy, true, &mut clipboard), Outcome::Applied);
    assert_eq!(clipboard.text(), &Some(chars("cd")));
}

#[test]
fn dispatcher_ignores_actions_without_focus() {
    let mut input = field_with_selection("abcdef", 2, 4);
    let mut clipboard = Clipboard::new();
    assert_eq!(dispatch(&mut input, Action::Backspace, false, &mut clipboard), Outcome::Unfocused);
    assert_eq!(dispatch(&mut input, Action::Copy, false, &mut clipboard), Outcome::Unfocused);
    assert_eq!(text(&input), "abcdef");
    assert_eq!(input.selected_range(), (2, 4));
    assert_eq!(clipboard.text(), &None);
}

#[test]
fn dispatcher_maps_each_action() {
    let mut clipboard = Clipboard::new();
    let mut input = field_with_selection("abcdef", 3, 3);
    dispatch(&mut input, Action::Backspace, true, &mut clipboard);
    assert_eq!(text(&input), "abdef");
    dispatch(&mut input, Action::Delete, true, &mut clipboard);
    assert_eq!(text(&input), "abef");
    assert_eq!(input.selected_range(), (2, 2));
    dispatch(&mut input, Action::Left, true, &mut clipboard);
    assert_eq!(input.selected_range(), (1, 1));
    dispatch(&mut input, Action::Right, true, &mut clipboard);
    assert_eq!(input.selected_range(), (2, 2));
    dispatch(&mut input, Action::SelectLeft, true, &mut clipboard);
    assert_eq!(input.selected_range(), (1, 2));
    assert!(input.selection_reversed());
    dispatch(&mut input, Action::Home, true, &mut clipboard);
    assert_eq!(input.selected_range(), (0, 0));
    dispatch(&mut input, Action::SelectRight, true, &mut clipboard);
    assert_eq!(input.selected_range(), (0, 1));
    dispatch(&mut input, Action::Copy, true, &mut clipboard);
    assert_eq!(clipboard.text(), &Some(chars("a")));
    dispatch(&mut input, Action::End, true, &mut clipboard);
    dispatch(&mut input, Action::Paste, true, &mut clipboard);
    assert_eq!(text(&input), "abefa");
    assert_eq!(input.selected_range(), (5, 5));
}

#[test]
fn action_clipboard_needs() {
    assert!(Action::Copy.is_read_only());
    assert!(!Action::Cut.is_read_only());
    assert!(Action::Paste.reads_clipboard());
    assert!(!Action::Copy.reads_clipboard());
    assert!(Action::Copy.writes_clipboard());
    assert!(Action::Cut.writes_clipboard());
    assert!(!Action::Paste.writes_clipboard());
    assert!(!Action::Left.writes_clipboard());
}

#[test]
fn copy_with_caret_leaves_clipboard_untouched() {
    let input = field("abc");
    let mut clipboard = Clipboard::with_text(chars("old"));
    ui::clipboard::copy(&input, &mut clipboard);
    assert_eq!(clipboard.text(), &Some(chars("old")));
    assert_eq!(input.copy(), None);
}

#[test]
fn cut_with_caret_is_noop() {
    let mut input = field_with_selection("abc", 1, 1);
    let mut clipboard = Clipboard::with_text(chars("old"));
    ui::clipboard::cut(&mut input, &mut clipboard);
    assert_eq!(text(&input), "abc");
    assert_eq!(input.selected_range(), (1, 1));
    assert_eq!(clipboard.text(), &Some(chars("old")));
}

#[test]
fn paste_empty_or_missing_clipboard_is_noop() {
    let mut input = field_with_selection("abc", 0, 2);
    ui::clipboard::paste(&mut input, &Clipboard::new());
    assert_eq!(text(&input), "abc");
    assert_eq!(input.selected_range(), (0, 2));
    ui::clipboard::paste(&mut input, &Clipboard::with_text(Vec::new()));
    assert_eq!(text(&input), "abc");
    assert_eq!(input.selected_range(), (0, 2));
}

#[test]
fn paste_replaces_selection() {
    let mut input = field_with_selection("abcdef", 1, 5);
    ui::clipboard::paste(&mut input, &Clipboard::with_text(chars("XY")));
    assert_eq!(text(&input), "aXYf");
    assert_eq!(input.selected_range(), (3, 3));
}

#[test]
fn copy_then_paste_round_trip() {
    let mut input = field_with_selection("hello world", 2, 7);
    let mut clipboard = Clipboard::new();
    ui::clipboard::copy(&input, &mut clipboard);
    assert_eq!(clipboard.text(), &Some(chars("llo w")));
    ui::clipboard::paste(&mut input, &clipboard);
    assert_eq!(text(&input), "hello world");
    let mut removed = field_with_selection("hello world", 2, 7);
    removed.delete_backward();
    assert_eq!(removed.selected_range(), (2, 2));
    ui::clipboard::paste(&mut removed, &clipboard);
    assert_eq!(text(&removed), "hello world");
    assert_eq!(removed.selected_range(), (7, 7));
}

#[test]
fn pointer_offsets_are_clamped() {
    let mut input = field("abc");
    input.pointer_down_at(10);
    assert_eq!(input.selected_range(), (3, 3));
    input.pointer_move_to(1);
    assert_eq!(input.selected_range(), (1, 3));
    assert!(input.selection_reversed());
    input.pointer_move_to(77);
    assert_eq!(input.selected_range(), (3, 3));
    assert!(!input.selection_reversed());
}

#[test]
fn pointer_move_outside_drag_is_ignored() {
    let mut input = field_with_selection("abcdef", 1, 2);
    input.pointer_move_to(5);
    assert_eq!(input.selected_range(), (1, 2));
}

#[test]
fn drag_survives_shrinking_content() {
    let mut input = field("abcdef");
    input.pointer_down_at(5);
    input.set_content(chars("ab"));
    input.pointer_move_to(1);
    assert_eq!(input.selected_range(), (1, 2));
    assert!(input.selection_reversed());
}

#[test]
fn hit_test_without_layout_is_zero() {
    let mut input = field("abcdef");
    assert_eq!(input.index_for_pointer(500, 5), 0);
    assert_eq!(input.on_pointer_down(500, 5), 0);
    assert_eq!(input.selected_range(), (0, 0));
    assert!(input.is_selecting());
}

#[test]
fn hit_test_picks_nearest_offset() {
    let mut input = field("abcd");
    input.set_layout(LayoutSnapshot::new(vec![0, 10, 20, 30, 40], 100, 50, 70));
    assert!(input.layout_is_fresh());
    assert_eq!(input.index_for_pointer(100, 60), 0);
    assert_eq!(input.index_for_pointer(104, 60), 0);
    assert_eq!(input.index_for_pointer(106, 60), 1);
    assert_eq!(input.index_for_pointer(126, 60), 3);
    assert_eq!(input.index_for_pointer(139, 60), 4);
}

#[test]
fn hit_test_midpoint_goes_left() {
    let mut input = field("abcd");
    input.set_layout(LayoutSnapshot::new(vec![0, 10, 20, 30, 40], 100, 50, 70));
    assert_eq!(input.index_for_pointer(105, 60), 0);
    assert_eq!(input.index_for_pointer(115, 60), 1);
    assert_eq!(input.index_for_pointer(135, 60), 3);
}

#[test]
fn hit_test_outside_bounds_maps_to_an_end() {
    let mut input = field("abcd");
    input.set_layout(LayoutSnapshot::new(vec![0, 10, 20, 30, 40], 100, 50, 70));
    assert_eq!(input.index_for_pointer(120, 49), 0);
    assert_eq!(input.index_for_pointer(120, 71), 4);
    assert_eq!(input.index_for_pointer(120, 50), 2);
    assert_eq!(input.index_for_pointer(120, 70), 2);
    assert_eq!(input.index_for_pointer(-5000, 60), 0);
    assert_eq!(input.index_for_pointer(5000, 60), 4);
    assert_eq!(input.index_for_pointer(i64::MIN, 60), 0);
    assert_eq!(input.index_for_pointer(i64::MAX, 60), 4);
}

#[test]
fn hit_test_on_stale_layout_stays_inside_content() {
    let mut input = field("abcdef");
    input.set_layout(LayoutSnapshot::new(vec![0, 10, 20, 30, 40, 50, 60], 0, 0, 20));
    input.set_content(chars("ab"));
    assert!(!input.layout_is_fresh());
    assert_eq!(input.index_for_pointer(58, 10), 2);
    assert_eq!(input.index_for_pointer(11, 10), 1);
}

#[test]
fn hit_test_on_empty_content_or_layout_is_zero() {
    let mut empty = TextInput::new();
    empty.set_layout(LayoutSnapshot::new(vec![0], 0, 0, 20));
    assert_eq!(empty.index_for_pointer(40, 100), 0);
    let mut unmeasured = field("abc");
    unmeasured.set_layout(LayoutSnapshot::new(Vec::new(), 0, 0, 20));
    assert_eq!(unmeasured.index_for_pointer(40, 10), 0);
}

#[test]
fn pointer_drag_through_layout() {
    let mut input = field("abcdef");
    input.set_layout(LayoutSnapshot::new(vec![0, 10, 20, 30, 40, 50, 60], 0, 0, 20));
    assert_eq!(input.on_pointer_down(21, 10), 2);
    assert_eq!(input.on_pointer_move(49, 10), 5);
    assert_eq!(input.selected_range(), (2, 5));
    assert!(!input.selection_reversed());
    assert_eq!(input.on_pointer_move(-3, 10), 0);
    assert_eq!(input.selected_range(), (0, 2));
    assert!(input.selection_reversed());
    input.on_pointer_up();
    assert_eq!(input.on_pointer_move(49, 10), 5);
    assert_eq!(input.selected_range(), (0, 2));
}

#[test]
fn layout_snapshot_getters() {
    let layout = LayoutSnapshot::new(vec![0, 7, 19], 3, 4, 5);
    assert_eq!(layout.len(), 3);
    assert_eq!((layout.left(), layout.top(), layout.bottom()), (3, 4, 5));
    assert_eq!(layout.x_for_index(1), Some(7));
    assert_eq!(layout.x_for_index(3), Some(19));
    assert_eq!(layout.span(0, 2), Some((0, 19)));
    assert_eq!(layout.closest_index_for_x(3 + 13), 1);
    assert_eq!(layout.closest_index_for_x(3 + 14), 2);
}

#[test]
fn closest_index_in_unsorted_layout_takes_leftmost_nearest() {
    let layout = LayoutSnapshot::new(vec![10, 0, 10, 4], 0, 0, 0);
    assert_eq!(layout.closest_index_for_x(10), 0);
    assert_eq!(layout.closest_index_for_x(2), 1);
    assert_eq!(layout.closest_index_for_x(7), 0);
}

#[test]
fn invariant_holds_along_a_long_run() {
    let mut input = TextInput::new();
    let mut clipboard = Clipboard::new();
    let actions = [
        Action::SelectAll,
        Action::Copy,
        Action::End,
        Action::Paste,
        Action::SelectLeft,
        Action::SelectLeft,
        Action::Cut,
        Action::Home,
        Action::Delete,
        Action::Right,
        Action::Backspace,
        Action::SelectRight,
        Action::Paste,
        Action::Left,
    ];
    input.insert(&chars("seed"));
    for round in 0..20usize {
        for action in actions {
            dispatch(&mut input, action, true, &mut clipboard);
            let reading = input.read();
            assert!(reading.start <= reading.end);
            assert!(reading.end <= reading.content.len());
            if let Some((a, b)) = reading.marked {
                assert!(a <= b && b <= reading.content.len());
            }
        }
        input.set_marked(Some((round, round + 2)), &chars("ime"));
        let reading = input.read();
        let (a, b) = reading.marked.unwrap();
        assert!(a <= b && b <= reading.content.len());
        assert_eq!(b - a, 3);
        if round % 3 == 0 {
            input.clear_marked_commit();
        }
    }
}
