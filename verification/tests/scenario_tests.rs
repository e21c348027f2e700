use red::commands::{Action, Mode};
use red::errors::RedError;
use red::red::Red;

/// An editor holding the given lines, entered through append mode.
fn editor_with(lines: &[&str]) -> Red {
    let mut ed = Red::new("".into(), None);
    ed.dispatch("a").unwrap();
    for line in lines {
        ed.dispatch(line).unwrap();
    }
    ed.dispatch(".").unwrap();
    ed
}

#[test]
fn append_two_lines_from_empty() {
    let mut ed = Red::new("".into(), None);
    ed.dispatch("a").unwrap();
    ed.dispatch("Line 1").unwrap();
    ed.dispatch("Line 2").unwrap();
    ed.dispatch(".").unwrap();

    assert_eq!(vec!["Line 1", "Line 2"], &ed.data[..]);
    assert_eq!(2, ed.current_line);
    assert!(ed.dirty);
    assert_eq!(Mode::Command, ed.mode);
}

#[test]
fn delete_middle_line() {
    let mut ed = editor_with(&["Line 1", "Line 2", "Line 3"]);
    assert_eq!(3, ed.current_line);

    ed.dispatch("2d").unwrap();

    assert_eq!(vec!["Line 1", "Line 3"], &ed.data[..]);
    assert_eq!(2, ed.current_line);
}

#[test]
fn substitute_first_and_global() {
    let mut ed = editor_with(&["foo bar foo"]);
    ed.dispatch("1s/foo/baz/").unwrap();
    assert_eq!(vec!["baz bar foo"], &ed.data[..]);
    assert_eq!(1, ed.current_line);

    let mut fresh = editor_with(&["foo bar foo"]);
    fresh.dispatch("1s/foo/baz/g").unwrap();
    assert_eq!(vec!["baz bar baz"], &fresh.data[..]);
    assert_eq!(1, fresh.current_line);
}

#[test]
fn move_front_pair_behind() {
    let mut ed = editor_with(&["A", "B", "C", "D"]);
    ed.dispatch("1,2m4").unwrap();

    assert_eq!(vec!["C", "D", "A", "B"], &ed.data[..]);
    assert_eq!(4, ed.current_line);
    assert!(ed.dirty);
}

#[test]
fn quit_warning_clears_dirty() {
    let mut ed = editor_with(&["something"]);
    assert!(ed.dirty);

    let err = ed.dispatch("q").unwrap_err();
    assert_eq!(RedError::BufferModified, err);
    assert_eq!("Warning: buffer modified", err.message());
    assert!(!ed.dirty);

    // The warning cleared the dirty flag, so repeating the quit succeeds
    // without any save: a preserved quirk.
    assert_eq!(Action::Quit, ed.dispatch("q").unwrap());
}

#[test]
fn forced_quit_ignores_dirty() {
    let mut ed = editor_with(&["something"]);
    assert!(ed.dirty);
    assert_eq!(Action::Quit, ed.dispatch("Q").unwrap());
    assert!(ed.dirty);
}

#[test]
fn jump_and_offsets() {
    let mut ed = editor_with(&["a", "b", "c"]);
    ed.dispatch("1").unwrap();
    assert_eq!(1, ed.current_line);
    ed.dispatch("+2").unwrap();
    assert_eq!(3, ed.current_line);
    ed.dispatch("-1").unwrap();
    assert_eq!(2, ed.current_line);
    ed.dispatch("$").unwrap();
    assert_eq!(3, ed.current_line);

    assert_eq!(RedError::InvalidAddress, ed.dispatch("9").unwrap_err());
    assert_eq!(RedError::InvalidAddress, ed.dispatch("-5").unwrap_err());
    assert_eq!(3, ed.current_line);
}

#[test]
fn blank_line_advances_and_reports_end() {
    let mut ed = editor_with(&["a", "b"]);
    ed.dispatch("1").unwrap();
    assert_eq!(Action::Continue, ed.dispatch("").unwrap());
    assert_eq!(2, ed.current_line);
    // At the last line there is nowhere to advance to.
    assert_eq!(Action::Unknown, ed.dispatch("").unwrap());
    assert_eq!(2, ed.current_line);
}

#[test]
fn move_into_own_range_fails_unchanged() {
    let mut ed = editor_with(&["A", "B", "C", "D"]);
    ed.dispatch("4").unwrap();
    let before = ed.data.clone();
    let cursor = ed.current_line;

    let err = ed.dispatch("1,3m2").unwrap_err();
    assert_eq!(RedError::InvalidDestination, err);
    assert_eq!(before, ed.data);
    assert_eq!(cursor, ed.current_line);
}

#[test]
fn move_to_front() {
    let mut ed = editor_with(&["A", "B", "C", "D"]);
    ed.dispatch("3,4m0").unwrap();
    assert_eq!(vec!["C", "D", "A", "B"], &ed.data[..]);
    assert_eq!(2, ed.current_line);
}

#[test]
fn substitute_without_match_fails_unchanged() {
    let mut ed = editor_with(&["alpha", "beta"]);
    let before = ed.data.clone();

    let err = ed.dispatch("1,2s/xyz/q/").unwrap_err();
    assert_eq!(RedError::NoMatch, err);
    assert_eq!("No match", err.message());
    assert_eq!(before, ed.data);
    assert!(ed.dirty);
}

#[test]
fn substitute_range_touches_each_matching_line() {
    let mut ed = editor_with(&["one fish", "two fish", "red fish"]);
    ed.dispatch("1,2s/fish/bird/").unwrap();
    assert_eq!(vec!["one bird", "two bird", "red fish"], &ed.data[..]);
    // The cursor lands on the last changed line.
    assert_eq!(2, ed.current_line);
}

#[test]
fn substitute_error_variants() {
    let mut ed = editor_with(&["a [ b"]);

    // No argument to repeat.
    assert_eq!(
        RedError::NoPreviousSubstitution,
        ed.dispatch("s").unwrap_err()
    );
    // No leading delimiter.
    assert_eq!(
        RedError::MissingDelimiter,
        ed.dispatch("1s|a|b|").unwrap_err()
    );
    // No closing delimiter after the pattern.
    assert_eq!(RedError::MissingDelimiter, ed.dispatch("1s/a").unwrap_err());
    // A pattern the regex engine refuses, even though the line holds a `[`.
    assert_eq!(RedError::NoMatch, ed.dispatch("1s/[/x/").unwrap_err());
    // An empty pattern never matches.
    assert_eq!(RedError::NoMatch, ed.dispatch("1s//x/").unwrap_err());
    assert_eq!(vec!["a [ b"], &ed.data[..]);
}
