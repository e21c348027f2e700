//! The tokenizer: splits a trimmed command string into an ordered sequence of
//! lexical tokens. The first character out of the command-letter set ends the
//! address portion; a `,` or `;` inside it separates two addresses; after the
//! letter, a space introduces a trimmed free-form argument, anything else a
//! suffix running to the next space.

use vstd::prelude::*;
use vstd::string::StrSliceExecFns;

use crate::errors::RedError;

verus! {

/// A lexical token. Purely lexical: it carries no resolved semantics.
#[derive(Debug, PartialEq, Eq)]
pub enum Token<'a> {
    Address(&'a str),
    Separator(char),
    Command(char),
    Suffix(&'a str),
    Argument(&'a str),
}

/// The view of a token: the same shape over the text it carries.
pub enum SpecToken {
    Address(Seq<char>),
    Separator(char),
    Command(char),
    Suffix(Seq<char>),
    Argument(Seq<char>),
}

impl<'a> View for Token<'a> {
    type V = SpecToken;

    open spec fn view(&self) -> SpecToken {
        match self {
            Token::Address(s) => SpecToken::Address(s@),
            Token::Separator(c) => SpecToken::Separator(*c),
            Token::Command(c) => SpecToken::Command(*c),
            Token::Suffix(s) => SpecToken::Suffix(s@),
            Token::Argument(s) => SpecToken::Argument(s@),
        }
    }
}

/// The views of a token sequence.
pub open spec fn toks_view<'a>(toks: Seq<Token<'a>>) -> Seq<SpecToken> {
    toks.map_values(|t: Token<'a>| t@)
}

/// The fixed command-letter set: print, numbered print, write, delete,
/// append, insert, change, help, quit, force-quit, edit, read, move,
/// substitute, global.
pub open spec fn is_command_char(c: char) -> bool {
    ||| c == 'p'
    ||| c == 'n'
    ||| c == 'w'
    ||| c == 'd'
    ||| c == 'a'
    ||| c == 'i'
    ||| c == 'c'
    ||| c == 'h'
    ||| c == 'q'
    ||| c == 'Q'
    ||| c == 'e'
    ||| c == 'r'
    ||| c == 'm'
    ||| c == 's'
    ||| c == 'g'
}

/// A `,` or `;` joining two addresses into a range.
pub open spec fn is_separator(c: char) -> bool {
    c == ',' || c == ';'
}

/// Whitespace that trimming strips from an argument.
pub open spec fn is_blank(c: char) -> bool {
    c == ' ' || c == '\t'
}

/// The position of the first command letter at or after `from`.
pub open spec fn find_command_at(s: Seq<char>, from: int) -> Option<int>
    decreases s.len() - from when 0 <= from <= s.len()
{
    if from >= s.len() {
        None
    } else if is_command_char(s[from]) {
        Some(from)
    } else {
        find_command_at(s, from + 1)
    }
}

/// The position of the first address separator at or after `from`.
pub open spec fn find_separator_at(s: Seq<char>, from: int) -> Option<int>
    decreases s.len() - from when 0 <= from <= s.len()
{
    if from >= s.len() {
        None
    } else if is_separator(s[from]) {
        Some(from)
    } else {
        find_separator_at(s, from + 1)
    }
}

/// The position of the first space at or after `from`.
pub open spec fn find_space_at(s: Seq<char>, from: int) -> Option<int>
    decreases s.len() - from when 0 <= from <= s.len()
{
    if from >= s.len() {
        None
    } else if s[from] == ' ' {
        Some(from)
    } else {
        find_space_at(s, from + 1)
    }
}

/// The position of the first non-blank character at or after `from`, or the
/// length when all of the rest is blank.
pub open spec fn first_nonblank(s: Seq<char>, from: int) -> int
    decreases s.len() - from when 0 <= from <= s.len()
{
    if from >= s.len() {
        s.len() as int
    } else if !is_blank(s[from]) {
        from
    } else {
        first_nonblank(s, from + 1)
    }
}

/// One past the position of the last non-blank character before `upto`, or
/// zero when all of the text up to it is blank.
pub open spec fn last_nonblank(s: Seq<char>, upto: int) -> int
    decreases upto when 0 <= upto <= s.len()
{
    if upto <= 0 {
        0
    } else if !is_blank(s[upto - 1]) {
        upto
    } else {
        last_nonblank(s, upto - 1)
    }
}

/// The text with leading and trailing blanks stripped.
pub open spec fn spec_trim(s: Seq<char>) -> Seq<char> {
    let lo = first_nonblank(s, 0);
    let hi = last_nonblank(s, s.len() as int);
    if lo < hi {
        s.subrange(lo, hi)
    } else {
        Seq::empty()
    }
}

/// The token sequence of one trimmed input line: the address portion split
/// at its separator, the command letter, and the suffix or argument tail.
pub open spec fn spec_tokenize(s: Seq<char>) -> Seq<SpecToken> {
    let cmd_idx = find_command_at(s, 0);
    let ap_end = match cmd_idx {
        Some(i) => i,
        None => s.len() as int,
    };
    let addr = s.subrange(0, ap_end);
    let addr_toks = match find_separator_at(addr, 0) {
        None => if addr.len() > 0 {
            seq![SpecToken::Address(addr)]
        } else {
            Seq::<SpecToken>::empty()
        },
        Some(k) => {
            let left = if k > 0 {
                seq![SpecToken::Address(addr.subrange(0, k))]
            } else {
                Seq::<SpecToken>::empty()
            };
            let right = if k + 1 < addr.len() {
                seq![SpecToken::Address(addr.subrange(k + 1, addr.len() as int))]
            } else {
                Seq::<SpecToken>::empty()
            };
            left + seq![SpecToken::Separator(addr[k])] + right
        },
    };
    let cmd_toks = match cmd_idx {
        Some(i) => seq![SpecToken::Command(s[i])],
        None => Seq::<SpecToken>::empty(),
    };
    let tail_toks = match cmd_idx {
        None => Seq::<SpecToken>::empty(),
        Some(i) => if i + 1 < s.len() {
            if s[i + 1] == ' ' {
                let arg = spec_trim(s.subrange(i + 2, s.len() as int));
                if arg.len() > 0 {
                    seq![SpecToken::Argument(arg)]
                } else {
                    Seq::<SpecToken>::empty()
                }
            } else {
                let rest = s.subrange(i + 1, s.len() as int);
                match find_space_at(rest, 0) {
                    None => seq![SpecToken::Suffix(rest)],
                    Some(k) => if k + 1 < rest.len() {
                        seq![
                            SpecToken::Suffix(rest.subrange(0, k)),
                            SpecToken::Argument(rest.subrange(k + 1, rest.len() as int)),
                        ]
                    } else {
                        seq![SpecToken::Suffix(rest.subrange(0, k))]
                    },
                }
            }
        } else {
            Seq::<SpecToken>::empty()
        },
    };
    addr_toks + cmd_toks + tail_toks
}

/// Whether this character opens the command part of a line.
fn is_command_char_exec(c: char) -> (r: bool)
    ensures
        r == is_command_char(c),
{
    c == 'p' || c == 'n' || c == 'w' || c == 'd' || c == 'a' || c == 'i' || c == 'c' || c == 'h'
        || c == 'q' || c == 'Q' || c == 'e' || c == 'r' || c == 'm' || c == 's' || c == 'g'
}

/// The first command letter of the line, walked by characters.
fn find_command(s: &str) -> (r: Option<usize>)
    ensures
        r matches Some(i) ==> find_command_at(s@, 0) == Some(i as int) && i < s@.len(),
        r is None ==> find_command_at(s@, 0) is None,
{
    let n = s.unicode_len();
    let mut i: usize = 0;
    while i < n
        invariant
            i <= n,
            n == s@.len(),
            find_command_at(s@, 0) == find_command_at(s@, i as int),
        decreases n - i,
    {
        if is_command_char_exec(s.get_char(i)) {
            return Some(i);
        }
        i = i + 1;
    }
    None
}

/// The first address separator of the text, walked by characters.
fn find_separator(s: &str) -> (r: Option<usize>)
    ensures
        r matches Some(i) ==> find_separator_at(s@, 0) == Some(i as int) && i < s@.len(),
        r is None ==> find_separator_at(s@, 0) is None,
{
    let n = s.unicode_len();
    let mut i: usize = 0;
    while i < n
        invariant
            i <= n,
            n == s@.len(),
            find_separator_at(s@, 0) == find_separator_at(s@, i as int),
        decreases n - i,
    {
        let c = s.get_char(i);
        if c == ',' || c == ';' {
            return Some(i);
        }
        i = i + 1;
    }
    None
}

/// The first space of the text, walked by characters.
fn find_space(s: &str) -> (r: Option<usize>)
    ensures
        r matches Some(i) ==> find_space_at(s@, 0) == Some(i as int) && i < s@.len(),
        r is None ==> find_space_at(s@, 0) is None,
{
    let n = s.unicode_len();
    let mut i: usize = 0;
    while i < n
        invariant
            i <= n,
            n == s@.len(),
            find_space_at(s@, 0) == find_space_at(s@, i as int),
        decreases n - i,
    {
        if s.get_char(i) == ' ' {
            return Some(i);
        }
        i = i + 1;
    }
    None
}

/// Whether the character at `i` is trimmable whitespace.
fn blank_at(s: &str, i: usize) -> (r: bool)
    requires
        i < s@.len(),
    ensures
        r == is_blank(s@[i as int]),
{
    let c = s.get_char(i);
    c == ' ' || c == '\t'
}

/// The text with leading and trailing blanks stripped.
pub fn trim_blanks<'a>(s: &'a str) -> (r: &'a str)
    ensures
        r@ == spec_trim(s@),
{
    let n = s.unicode_len();
    let mut lo: usize = 0;
    while lo < n && blank_at(s, lo)
        invariant
            lo <= n,
            n == s@.len(),
            first_nonblank(s@, 0) == first_nonblank(s@, lo as int),
        decreases n - lo,
    {
        lo = lo + 1;
    }
    let mut hi: usize = n;
    while hi > 0 && blank_at(s, hi - 1)
        invariant
            hi <= n,
            n == s@.len(),
            last_nonblank(s@, n as int) == last_nonblank(s@, hi as int),
        decreases hi,
    {
        hi = hi - 1;
    }
    if lo < hi {
        s.substring_char(lo, hi)
    } else {
        proof {
            reveal_strlit("");
            assert(""@ =~= Seq::<char>::empty());
        }
        ""
    }
}

/// Splits one trimmed input line into tokens. An empty line yields no tokens
/// at all (which the parser reads as "advance and print").
pub fn tokenize<'a>(line: &'a str) -> (r: Result<Vec<Token<'a>>, RedError>)
    ensures
        r matches Ok(toks) && toks_view(toks@) == spec_tokenize(line@),
{
    let n = line.unicode_len();
    let mut res: Vec<Token<'a>> = Vec::new();

    let cmd_idx = find_command(line);
    let ap_end = match cmd_idx {
        Some(i) => i,
        None => n,
    };
    let addr_part = line.substring_char(0, ap_end);
    match find_separator(addr_part) {
        None => {
            if addr_part.unicode_len() > 0 {
                res.push(Token::Address(addr_part));
            }
        },
        Some(k) => {
            if k > 0 {
                res.push(Token::Address(addr_part.substring_char(0, k)));
            }
            res.push(Token::Separator(addr_part.get_char(k)));
            let ap_len = addr_part.unicode_len();
            if k + 1 < ap_len {
                res.push(Token::Address(addr_part.substring_char(k + 1, ap_len)));
            }
        },
    }
    proof {
        assert(toks_view(res@) =~= spec_tokenize(line@).subrange(
            0,
            toks_view(res@).len() as int,
        ));
    }

    match cmd_idx {
        None => {},
        Some(i) => {
            res.push(Token::Command(line.get_char(i)));
            if i + 1 < n {
                if line.get_char(i + 1) == ' ' {
                    let arg = trim_blanks(line.substring_char(i + 2, n));
                    if arg.unicode_len() > 0 {
                        res.push(Token::Argument(arg));
                    }
                } else {
                    let rest = line.substring_char(i + 1, n);
                    match find_space(rest) {
                        None => res.push(Token::Suffix(rest)),
                        Some(k) => {
                            res.push(Token::Suffix(rest.substring_char(0, k)));
                            let rest_len = rest.unicode_len();
                            if k + 1 < rest_len {
                                res.push(Token::Argument(rest.substring_char(k + 1, rest_len)));
                            }
                        },
                    }
                }
            }
        },
    }
    proof {
        assert(toks_view(res@) =~= spec_tokenize(line@));
    }
    Ok(res)
}

} // verus!
