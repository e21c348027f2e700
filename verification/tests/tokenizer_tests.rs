use red::tokenizer::{tokenize, Token};

#[test]
fn empty() {
    let expected: Vec<Token> = vec![];
    assert_eq!(expected, tokenize("").unwrap());
}

#[test]
fn single_address() {
    let expected = vec![Token::Address("1")];

    assert_eq!(expected, tokenize("1").unwrap());
}

#[test]
fn lower_address() {
    let expected = vec![Token::Address("1"), Token::Separator(',')];

    assert_eq!(expected, tokenize("1,").unwrap());
}

#[test]
fn upper_address() {
    let expected = vec![Token::Separator(','), Token::Address("$")];

    assert_eq!(expected, tokenize(",$").unwrap());
}

#[test]
fn tokenize_with_full_address() {
    let expected = vec![
        Token::Address("1"),
        Token::Separator(','),
        Token::Address("$"),
        Token::Command('p'),
        Token::Suffix("n"),
    ];

    assert_eq!(expected, tokenize("1,$pn").unwrap());
}

#[test]
fn only_command() {
    let expected = vec![Token::Command('p')];

    assert_eq!(expected, tokenize("p").unwrap());
}

#[test]
fn command_with_suffix() {
    let expected = vec![Token::Command('p'), Token::Suffix("n")];

    assert_eq!(expected, tokenize("pn").unwrap());
}

#[test]
fn command_with_arg() {
    let expected = vec![Token::Command('p'), Token::Argument("file.txt")];

    assert_eq!(expected, tokenize("p file.txt").unwrap());
}

#[test]
fn move_cmd() {
    let expected = vec![
        Token::Address("1"),
        Token::Separator(','),
        Token::Address("2"),
        Token::Command('m'),
        Token::Suffix("3"),
    ];
    assert_eq!(expected, tokenize("1,2m3").unwrap());
}

#[test]
fn address_command_suffix_arg() {
    let expected = vec![
        Token::Address("1"),
        Token::Separator(','),
        Token::Address("2"),
        Token::Command('m'),
        Token::Suffix("3"),
        Token::Argument("param"),
    ];
    assert_eq!(expected, tokenize("1,2m3 param").unwrap());
}
