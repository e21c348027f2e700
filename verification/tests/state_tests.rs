use red::commands::{Action, Mode};
use red::errors::RedError;
use red::red::Red;

/// An editor holding the given lines, entered through append mode.
fn editor_holding(lines: &[&str]) -> Red {
    let mut ed = Red::new("".into(), None);
    ed.dispatch("a").unwrap();
    for line in lines {
        ed.dispatch(line).unwrap();
    }
    ed.dispatch(".").unwrap();
    ed
}

#[test]
fn new_editor_is_empty_and_clean() {
    let ed = Red::new("*".into(), Some("notes.txt".into()));
    assert_eq!(0, ed.lines());
    assert_eq!(0, ed.current_line);
    assert_eq!(Mode::Command, ed.mode);
    assert_eq!(Some("notes.txt".to_string()), ed.path);
    assert!(!ed.dirty);
    assert!(ed.last_error.is_none());
}

#[test]
fn prompt_is_empty_while_entering_input() {
    let mut ed = Red::new("*".into(), None);
    assert_eq!("*", ed.prompt());
    ed.dispatch("a").unwrap();
    assert_eq!("", ed.prompt());
    ed.dispatch(".").unwrap();
    assert_eq!("*", ed.prompt());
}

#[test]
fn data_size_counts_newlines() {
    let ed = editor_holding(&["ab", "c"]);
    // Two characters plus a newline, then one plus a newline.
    assert_eq!(5, ed.data_size());
    let empty = Red::new("".into(), None);
    assert_eq!(0, empty.data_size());
}

#[test]
fn get_and_set_line() {
    let mut ed = editor_holding(&["a", "b"]);
    assert_eq!(Some("a"), ed.get_line(1));
    assert_eq!(Some("b"), ed.get_line(2));
    assert_eq!(None, ed.get_line(0));
    assert_eq!(None, ed.get_line(3));

    ed.set_line(1).unwrap();
    assert_eq!(1, ed.current_line);
    assert_eq!(RedError::InvalidAddress, ed.set_line(0).unwrap_err());
    assert_eq!(RedError::InvalidAddress, ed.set_line(3).unwrap_err());
    assert_eq!(1, ed.current_line);
}

#[test]
fn write_hands_out_range_and_confirmation_cleans() {
    let mut ed = editor_holding(&["a", "b", "c"]);
    assert!(ed.dirty);

    match ed.dispatch("w out.txt").unwrap() {
        Action::WriteFile { path, lines, last } => {
            assert_eq!("out.txt", path);
            assert_eq!(vec!["a", "b", "c"], &lines[..]);
            assert_eq!(3, last);
            ed.finish_write(path, last);
        }
        other => panic!("unexpected action: {:?}", other),
    }
    assert!(!ed.dirty);
    assert_eq!(Some("out.txt".to_string()), ed.path);
    assert_eq!(3, ed.current_line);

    // A single-address write hands out that line alone.
    match ed.dispatch("2w out.txt").unwrap() {
        Action::WriteFile { lines, last, .. } => {
            assert_eq!(vec!["b"], &lines[..]);
            assert_eq!(2, last);
        }
        other => panic!("unexpected action: {:?}", other),
    }
}

#[test]
fn write_without_any_path_is_unknown() {
    let mut ed = editor_holding(&["a"]);
    assert_eq!(Action::Unknown, ed.dispatch("w").unwrap());
}

#[test]
fn edit_asks_for_reload_and_load_file_installs_it() {
    let mut ed = editor_holding(&["old"]);

    assert_eq!(RedError::NoFilename, ed.dispatch("e").unwrap_err());

    match ed.dispatch("e book.txt").unwrap() {
        Action::LoadFile { path, insert_at } => {
            assert_eq!("book.txt", path);
            assert_eq!(None, insert_at);
            ed.load_file(path, vec!["fresh".into(), "pages".into()]);
        }
        other => panic!("unexpected action: {:?}", other),
    }
    assert_eq!(vec!["fresh", "pages"], &ed.data[..]);
    assert_eq!(2, ed.current_line);
    assert!(!ed.dirty);
    assert_eq!(Some("book.txt".to_string()), ed.path);
}

#[test]
fn read_asks_for_lines_and_splices_them() {
    let mut ed = editor_holding(&["a", "d"]);

    assert_eq!(RedError::NoFilename, ed.dispatch("r").unwrap_err());

    match ed.dispatch("1r extra.txt").unwrap() {
        Action::LoadFile { path, insert_at } => {
            assert_eq!("extra.txt", path);
            assert_eq!(Some(1), insert_at);
            ed.read_lines(1, vec!["b".into(), "c".into()]);
        }
        other => panic!("unexpected action: {:?}", other),
    }
    assert_eq!(vec!["a", "b", "c", "d"], &ed.data[..]);
    assert_eq!(3, ed.current_line);
    assert!(ed.dirty);
}

#[test]
fn write_then_read_reproduces_the_buffer() {
    let mut ed = editor_holding(&["keep", "these", "lines"]);
    let written = match ed.dispatch("w copy.txt").unwrap() {
        Action::WriteFile { lines, .. } => lines,
        other => panic!("unexpected action: {:?}", other),
    };

    let mut fresh = Red::new("".into(), None);
    fresh.load_file("copy.txt".into(), written);
    assert_eq!(ed.data, fresh.data);
}

#[test]
fn help_reprints_and_continues() {
    let mut ed = editor_holding(&["a"]);
    ed.last_error = Some("No match".into());
    assert_eq!(Action::Continue, ed.dispatch("h").unwrap());
    assert_eq!(Some("No match".to_string()), ed.last_error);
}

#[test]
fn print_moves_cursor_to_range_end() {
    let mut ed = editor_holding(&["a", "b", "c"]);
    ed.dispatch("1").unwrap();
    assert_eq!(Action::Continue, ed.dispatch("1,2p").unwrap());
    assert_eq!(2, ed.current_line);
    assert_eq!(Action::Continue, ed.dispatch(",n").unwrap());
    assert_eq!(3, ed.current_line);

    let empty = &mut Red::new("".into(), None);
    assert_eq!(RedError::InvalidAddress, empty.dispatch("p").unwrap_err());
}

#[test]
fn delete_whole_buffer_rests_cursor_at_zero() {
    let mut ed = editor_holding(&["a", "b"]);
    ed.dispatch(",d").unwrap();
    assert_eq!(0, ed.lines());
    assert_eq!(0, ed.current_line);
    assert_eq!(RedError::InvalidAddress, ed.dispatch("d").unwrap_err());
}

#[test]
fn read_at_zero_prepends() {
    let mut ed = editor_holding(&["b"]);
    match ed.dispatch("0r top.txt").unwrap() {
        Action::LoadFile { insert_at, .. } => {
            assert_eq!(Some(0), insert_at);
            ed.read_lines(0, vec!["a".into()]);
        }
        other => panic!("unexpected action: {:?}", other),
    }
    assert_eq!(vec!["a", "b"], &ed.data[..]);
    assert_eq!(1, ed.current_line);
}

#[test]
fn unknown_letter_acts_as_blank_line() {
    let mut ed = editor_holding(&["a", "b"]);
    ed.dispatch("1").unwrap();
    assert_eq!(Action::Continue, ed.dispatch("g").unwrap());
    assert_eq!(2, ed.current_line);
}
