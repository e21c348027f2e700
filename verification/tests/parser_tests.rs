use red::commands::{Address, Command};
use red::parser::{parse, parse_address};
use red::tokenizer::tokenize;

#[test]
fn address_variants() {
    assert_eq!(Address::CurrentLine, parse_address(".").unwrap());
    assert_eq!(Address::LastLine, parse_address("$").unwrap());
    assert_eq!(Address::Numbered(23), parse_address("23").unwrap());
    assert_eq!(Address::Offset(2), parse_address("+2").unwrap());
    assert_eq!(Address::Offset(-3), parse_address("-3").unwrap());
}

#[test]
#[should_panic]
fn wrong_address_format() {
    parse_address("d").unwrap();
}

#[test]
fn parse_empty() {
    assert_eq!(Command::Noop, parse(&tokenize("").unwrap()).unwrap());
}

#[test]
fn parse_addr_print() {
    assert_eq!(
        Command::Print {
            start: Some(Address::Numbered(1)),
            end: Some(Address::Numbered(2))
        },
        parse(&tokenize("1,2p").unwrap()).unwrap()
    );
}

#[test]
fn parse_write() {
    assert_eq!(
        Command::Write {
            start: None,
            end: None,
            file: Some("file.txt".into())
        },
        parse(&tokenize("w file.txt").unwrap()).unwrap()
    );
}

#[test]
fn parse_append() {
    assert_eq!(
        Command::Append {
            after: Some(Address::Numbered(2)),
        },
        parse(&tokenize("1,2a").unwrap()).unwrap()
    );

    assert_eq!(
        Command::Append { after: None },
        parse(&tokenize("a").unwrap()).unwrap()
    );

    assert_eq!(
        Command::Append {
            after: Some(Address::Numbered(1)),
        },
        parse(&tokenize("1a").unwrap()).unwrap()
    );
}

#[test]
fn parse_jumps() {
    assert_eq!(
        Command::Jump {
            address: Address::Numbered(2)
        },
        parse(&tokenize("2").unwrap()).unwrap()
    );

    assert_eq!(
        Command::Jump {
            address: Address::CurrentLine
        },
        parse(&tokenize(".").unwrap()).unwrap()
    );
}

#[test]
fn parse_move_with_destination() {
    assert_eq!(
        Command::Move {
            start: Some(Address::Numbered(1)),
            end: Some(Address::Numbered(2)),
            dest: Address::Numbered(4),
        },
        parse(&tokenize("1,2m4").unwrap()).unwrap()
    );
}

#[test]
fn parse_substitute_spec() {
    assert_eq!(
        Command::Substitute {
            start: Some(Address::Numbered(1)),
            end: None,
            arg: Some("/foo/baz/".into()),
        },
        parse(&tokenize("1s/foo/baz/").unwrap()).unwrap()
    );
}

#[test]
fn parse_quit_variants() {
    assert_eq!(
        Command::Quit { force: false },
        parse(&tokenize("q").unwrap()).unwrap()
    );
    assert_eq!(
        Command::Quit { force: true },
        parse(&tokenize("Q").unwrap()).unwrap()
    );
}

#[test]
fn parse_separator_means_whole_buffer() {
    assert_eq!(
        Command::Print {
            start: Some(Address::Numbered(1)),
            end: Some(Address::LastLine)
        },
        parse(&tokenize(",p").unwrap()).unwrap()
    );
}

#[test]
fn parse_insert_prefers_range_end() {
    assert_eq!(
        Command::Insert {
            before: Some(Address::Numbered(2)),
        },
        parse(&tokenize("1,2i").unwrap()).unwrap()
    );
}

#[test]
fn parse_move_without_destination_fails() {
    assert!(parse(&tokenize("1m").unwrap()).is_err());
}

#[test]
fn parse_read_takes_address_and_file() {
    assert_eq!(
        Command::Read {
            after: Some(Address::Numbered(3)),
            file: Some("file.txt".into()),
        },
        parse(&tokenize("3r file.txt").unwrap()).unwrap()
    );
}
