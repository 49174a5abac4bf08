use input_history::{InputHistory, InputHistoryRef};
use std::borrow::Cow;

fn history_with(capacity: usize, lines: &[&str]) -> InputHistory {
    let mut history = InputHistory::new(capacity);
    for line in lines {
        history.make_ref(Some(line.to_string())).clear(&mut history);
    }
    history
}

fn owned(lines: &[&str]) -> Vec<String> {
    lines.iter().map(|line| line.to_string()).collect()
}

fn typed(history: &InputHistory, text: &str) -> InputHistoryRef {
    let mut cursor = history.make_ref(None);
    for c in text.chars() {
        cursor.push_char(c);
    }
    cursor
}

fn shown(line: Option<Cow<str>>) -> Option<String> {
    line.map(|text| text.into_owned())
}

#[test]
fn stepping_back_cycles_from_newest_to_oldest_and_blank() {
    for capacity in [3, 4, 10] {
        let mut history = history_with(capacity, &["a", "b", "c"]);
        let mut cursor = history.make_ref(None);
        let backwards = [Some("c"), Some("b"), Some("a"), None];
        for expected in backwards.iter().cycle().take(9).copied() {
            let line = shown(cursor.move_to_prev(&mut history));
            assert_eq!(line.as_deref(), expected);
            assert_eq!(shown(cursor.as_ref(&history)).as_deref(), expected);
        }
        assert_eq!(cursor.position(), Some(9));
        assert_eq!(history.lines(), owned(&["a", "b", "c"]));
    }
}

#[test]
fn stepping_forward_cycles_from_oldest_to_newest_and_blank() {
    let mut history = history_with(3, &["a", "b", "c"]);
    let mut cursor = history.make_ref(None);
    let forwards = [Some("a"), Some("b"), Some("c"), None];
    for expected in forwards.iter().cycle().take(9).copied() {
        let line = shown(cursor.move_to_next(&mut history));
        assert_eq!(line.as_deref(), expected);
        assert_eq!(shown(cursor.as_ref(&history)).as_deref(), expected);
    }
    assert_eq!(cursor.position(), Some(-9));
    assert_eq!(history.lines(), owned(&["a", "b", "c"]));
}

#[test]
fn stepping_back_and_forth_returns_to_the_same_line() {
    let mut history = history_with(3, &["a", "b", "c"]);
    let mut cursor = history.make_ref(None);
    assert_eq!(shown(cursor.move_to_prev(&mut history)).as_deref(), Some("c"));
    assert_eq!(shown(cursor.move_to_prev(&mut history)).as_deref(), Some("b"));
    assert_eq!(shown(cursor.move_to_next(&mut history)).as_deref(), Some("c"));
    assert_eq!(shown(cursor.move_to_next(&mut history)), None);
    assert_eq!(cursor.position(), Some(0));
    assert_eq!(shown(cursor.move_to_next(&mut history)).as_deref(), Some("a"));
}

#[test]
fn stepping_in_an_empty_history_shows_nothing() {
    let mut history = InputHistory::new(3);
    let mut cursor = history.make_ref(None);
    assert_eq!(cursor.move_to_prev(&mut history), None);
    assert_eq!(cursor.move_to_prev(&mut history), None);
    assert_eq!(cursor.move_to_next(&mut history), None);
    assert_eq!(cursor.position(), Some(1));
    cursor.clear(&mut history);
    assert_eq!(history.lines(), Vec::<String>::new());
}

#[test]
fn typing_while_navigating_starts_a_line_and_leaves_the_history() {
    let mut history = history_with(3, &["a", "b", "c"]);
    let mut cursor = history.make_ref(None);
    assert_eq!(shown(cursor.move_to_next(&mut history)).as_deref(), Some("a"));
    assert_eq!(cursor.push_char('x'), "x");
    assert_eq!(cursor.position(), None);
    assert_eq!(shown(cursor.as_ref(&history)).as_deref(), Some("x"));
    // The line that was shown has not moved to the newest place.
    assert_eq!(history.lines(), owned(&["a", "b", "c"]));
}

#[test]
fn stepping_back_from_a_typed_line_skips_the_line_just_entered() {
    let mut history = history_with(4, &["a", "b", "c"]);
    let mut cursor = typed(&history, "d");
    assert_eq!(shown(cursor.move_to_prev(&mut history)).as_deref(), Some("c"));
    assert_eq!(cursor.position(), Some(2));
    assert_eq!(history.lines(), owned(&["a", "b", "c", "d"]));
}

#[test]
fn stepping_forward_from_a_typed_line_shows_the_blank_place() {
    let mut history = history_with(4, &["a", "b", "c"]);
    let mut cursor = typed(&history, "d");
    assert_eq!(cursor.move_to_next(&mut history), None);
    assert_eq!(cursor.position(), Some(0));
    assert_eq!(history.lines(), owned(&["a", "b", "c", "d"]));
    assert_eq!(shown(cursor.move_to_next(&mut history)).as_deref(), Some("a"));
}

#[test]
fn stepping_back_from_a_typed_line_that_is_present_promotes_it() {
    let mut history = history_with(4, &["a", "b", "c"]);
    let mut cursor = typed(&history, "b");
    assert_eq!(shown(cursor.move_to_prev(&mut history)).as_deref(), Some("c"));
    assert_eq!(history.lines(), owned(&["a", "c", "b"]));
}

#[test]
fn stepping_back_from_a_typed_line_in_a_full_history_evicts_the_oldest() {
    let mut history = history_with(3, &["a", "b", "c"]);
    let mut cursor = typed(&history, "d");
    assert_eq!(shown(cursor.move_to_prev(&mut history)).as_deref(), Some("c"));
    assert_eq!(history.lines(), owned(&["b", "c", "d"]));
}

#[test]
fn stepping_back_from_the_only_line_shows_nothing() {
    let mut history = InputHistory::new(3);
    let mut cursor = typed(&history, "a");
    assert_eq!(cursor.move_to_prev(&mut history), None);
    assert_eq!(history.lines(), owned(&["a"]));
    assert_eq!(shown(cursor.move_to_prev(&mut history)).as_deref(), Some("a"));
}

#[test]
fn deleting_while_navigating_changes_nothing() {
    let mut history = history_with(3, &["a", "b", "c"]);
    let mut cursor = history.make_ref(None);
    assert_eq!(shown(cursor.move_to_prev(&mut history)).as_deref(), Some("c"));
    assert_eq!(cursor.pop_char(), None);
    assert_eq!(cursor.position(), Some(1));
    assert_eq!(shown(cursor.as_ref(&history)).as_deref(), Some("c"));
    assert_eq!(history.lines(), owned(&["a", "b", "c"]));
}

#[test]
fn deleting_in_an_empty_cursor_changes_nothing() {
    let history = InputHistory::new(3);
    let mut cursor = history.make_ref(None);
    assert_eq!(cursor.pop_char(), None);
    assert_eq!(cursor.as_ref(&history), None);
}

#[test]
fn deleting_removes_the_last_character() {
    let history = InputHistory::new(3);
    let mut cursor = history.make_ref(Some("héé".to_string()));
    assert_eq!(cursor.pop_char(), Some(&"hé".to_string()));
    assert_eq!(cursor.pop_char(), Some(&"h".to_string()));
    assert_eq!(shown(cursor.as_ref(&history)).as_deref(), Some("h"));
}

#[test]
fn deleting_down_to_the_empty_line_keeps_a_line() {
    let mut history = InputHistory::new(3);
    let mut cursor = history.make_ref(Some("a".to_string()));
    assert_eq!(cursor.pop_char(), Some(&String::new()));
    assert_eq!(cursor.pop_char(), Some(&String::new()));
    assert_eq!(shown(cursor.as_ref(&history)).as_deref(), Some(""));
    cursor.clear(&mut history);
    assert_eq!(history.lines(), owned(&[""]));
}

#[test]
fn typing_extends_the_line() {
    let history = InputHistory::new(3);
    let mut cursor = history.make_ref(None);
    assert_eq!(cursor.push_char('a'), "a");
    assert_eq!(cursor.push_char('b'), "ab");
    assert_eq!(cursor.push_char('ç'), "abç");
    assert_eq!(shown(cursor.as_ref(&history)).as_deref(), Some("abç"));
    let mut seeded = history.make_ref(Some("x".to_string()));
    assert_eq!(seeded.push_char('y'), "xy");
}

#[test]
fn set_current_discards_the_old_line() {
    let mut history = history_with(3, &["a"]);
    let mut cursor = typed(&history, "old");
    cursor.set_current(Some("new".to_string()));
    assert_eq!(shown(cursor.as_ref(&history)).as_deref(), Some("new"));
    cursor.set_current(None);
    assert_eq!(cursor.as_ref(&history), None);
    cursor.clear(&mut history);
    assert_eq!(history.lines(), owned(&["a"]));
}

#[test]
fn set_current_discards_a_position() {
    let mut history = history_with(3, &["a", "b"]);
    let mut cursor = history.make_ref(None);
    assert_eq!(shown(cursor.move_to_prev(&mut history)).as_deref(), Some("b"));
    cursor.set_current(Some("c".to_string()));
    assert_eq!(cursor.position(), None);
    assert_eq!(shown(cursor.as_ref(&history)).as_deref(), Some("c"));
    cursor.set_current(None);
    assert_eq!(cursor.as_ref(&history), None);
    assert_eq!(history.lines(), owned(&["a", "b"]));
}

#[test]
fn clearing_enters_the_line_once() {
    let mut history = history_with(3, &["a"]);
    let mut cursor = typed(&history, "x");
    cursor.clear(&mut history);
    assert_eq!(history.lines(), owned(&["a", "x"]));
    assert_eq!(cursor.as_ref(&history), None);
    cursor.clear(&mut history);
    assert_eq!(history.lines(), owned(&["a", "x"]));
}

#[test]
fn clearing_an_empty_cursor_changes_nothing() {
    let mut history = history_with(3, &["a", "b"]);
    let mut cursor = history.make_ref(None);
    cursor.clear(&mut history);
    assert_eq!(history.lines(), owned(&["a", "b"]));
}

#[test]
fn clearing_at_a_line_promotes_it() {
    let mut history = history_with(3, &["a", "b", "c"]);
    let mut cursor = history.make_ref(None);
    cursor.move_to_prev(&mut history);
    assert_eq!(shown(cursor.move_to_prev(&mut history)).as_deref(), Some("b"));
    cursor.clear(&mut history);
    assert_eq!(history.lines(), owned(&["a", "c", "b"]));
    assert_eq!(cursor.position(), None);
    assert_eq!(cursor.as_ref(&history), None);
}

#[test]
fn clearing_at_the_blank_place_changes_nothing() {
    let mut history = history_with(3, &["a", "b", "c"]);
    let mut cursor = history.make_ref(None);
    for _ in 0..4 {
        cursor.move_to_prev(&mut history);
    }
    assert_eq!(cursor.as_ref(&history), None);
    cursor.clear(&mut history);
    assert_eq!(history.lines(), owned(&["a", "b", "c"]));
}

#[test]
fn without_history_nothing_is_kept_and_only_the_typed_line_shows() {
    let mut history = InputHistory::new(0);
    let mut cursor = history.make_ref(None);
    assert_eq!(cursor.move_to_prev(&mut history), None);
    assert_eq!(cursor.move_to_next(&mut history), None);
    assert_eq!(cursor.position(), None);
    cursor.push_char('a');
    assert_eq!(shown(cursor.move_to_prev(&mut history)).as_deref(), Some("a"));
    assert_eq!(shown(cursor.move_to_next(&mut history)).as_deref(), Some("a"));
    assert_eq!(cursor.position(), None);
    assert_eq!(cursor.pop_char(), Some(&String::new()));
    cursor.set_current(Some("b".to_string()));
    assert_eq!(shown(cursor.as_ref(&history)).as_deref(), Some("b"));
    cursor.clear(&mut history);
    assert_eq!(cursor.as_ref(&history), None);
    assert_eq!(history.lines(), Vec::<String>::new());
    assert_eq!(history.max_history(), 0);
}

#[test]
fn cursors_share_the_history_one_after_the_other() {
    let mut history = InputHistory::new(2);
    let mut first = typed(&history, "one");
    let mut second = typed(&history, "two");
    first.clear(&mut history);
    assert_eq!(shown(second.move_to_prev(&mut history)).as_deref(), Some("one"));
    assert_eq!(history.lines(), owned(&["one", "two"]));
    let mut third = typed(&history, "three");
    third.clear(&mut history);
    assert_eq!(history.lines(), owned(&["two", "three"]));
    // The second cursor still stands two places back from the blank place.
    assert_eq!(shown(second.as_ref(&history)).as_deref(), Some("two"));
}
