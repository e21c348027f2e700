//! The parser: consumes a token sequence once, resolves address literals,
//! and produces a single structured command.

use vstd::prelude::*;
use vstd::string::StrSliceExecFns;

use crate::commands::{Address, Command, SpecCommand};
use crate::errors::RedError;
use crate::tokenizer::{toks_view, SpecToken, Token};

verus! {

/// A decimal digit.
pub open spec fn is_digit(c: char) -> bool {
    48 <= c as u32 <= 57
}

/// The value of one digit.
pub open spec fn digit_val(c: char) -> int {
    c as u32 - 48
}

/// Whether the text is digits throughout.
pub open spec fn all_digits(s: Seq<char>) -> bool {
    forall|i: int| 0 <= i < s.len() ==> is_digit(#[trigger] s[i])
}

/// The value of a digit text read as a decimal number.
pub open spec fn dec_value(s: Seq<char>) -> int
    decreases s.len(),
{
    if s.len() == 0 {
        0
    } else {
        dec_value(s.drop_last()) * 10 + digit_val(s.last())
    }
}

/// A digit text never reads as a negative number.
proof fn lemma_dec_nonneg(s: Seq<char>)
    requires
        all_digits(s),
    ensures
        dec_value(s) >= 0,
    decreases s.len(),
{
    if s.len() > 0 {
        assert(all_digits(s.drop_last())) by {
            assert(forall|i: int| 0 <= i < s.len() - 1 ==> s.drop_last()[i] == s[i]);
        }
        lemma_dec_nonneg(s.drop_last());
    }
}

/// A digit text reads as at least what any of its prefixes reads as.
proof fn lemma_dec_prefix(s: Seq<char>, j: int)
    requires
        all_digits(s),
        0 <= j <= s.len(),
    ensures
        dec_value(s.subrange(0, j)) <= dec_value(s),
    decreases s.len() - j,
{
    if j == s.len() {
        assert(s.subrange(0, j) =~= s);
    } else {
        lemma_dec_prefix(s, j + 1);
        let longer = s.subrange(0, j + 1);
        assert(longer.drop_last() =~= s.subrange(0, j));
        assert(all_digits(longer.drop_last())) by {
            assert(forall|i: int| 0 <= i < j ==> s.subrange(0, j)[i] == s[i]);
        }
        lemma_dec_nonneg(longer.drop_last());
    }
}

/// An address literal resolved: `.` and `$` by name, a signed digit text as
/// an offset (when it fits a machine integer), a bare digit text as a line
/// number (likewise). Anything else is a failure.
pub open spec fn spec_parse_address(a: Seq<char>) -> Option<Address> {
    if a.len() == 1 && a[0] == '.' {
        Some(Address::CurrentLine)
    } else if a.len() == 1 && a[0] == '$' {
        Some(Address::LastLine)
    } else if a.len() >= 1 && (a[0] == '+' || a[0] == '-') {
        let digits = a.subrange(1, a.len() as int);
        if digits.len() > 0 && all_digits(digits) {
            let v = dec_value(digits);
            if a[0] == '+' && v <= isize::MAX {
                Some(Address::Offset(v as isize))
            } else if a[0] == '-' && -v >= isize::MIN {
                Some(Address::Offset((-v) as isize))
            } else {
                None
            }
        } else {
            None
        }
    } else if a.len() > 0 && all_digits(a) && dec_value(a) <= usize::MAX {
        Some(Address::Numbered(dec_value(a) as usize))
    } else {
        None
    }
}

/// Reads the digits of `s` from position `from` to its end as a decimal
/// number; nothing comes back when they are not digits throughout, when
/// there are none, or when their value does not fit.
fn parse_decimal(s: &str, from: usize) -> (r: Option<usize>)
    requires
        from <= s@.len(),
    ensures
        r matches Some(v) ==> {
            let digits = s@.subrange(from as int, s@.len() as int);
            &&& digits.len() > 0
            &&& all_digits(digits)
            &&& v == dec_value(digits)
        },
        r is None ==> {
            let digits = s@.subrange(from as int, s@.len() as int);
            digits.len() == 0 || !all_digits(digits) || dec_value(digits) > usize::MAX
        },
{
    let n = s.unicode_len();
    if from >= n {
        return None;
    }
    let ghost digits = s@.subrange(from as int, n as int);
    let mut v: u128 = 0;
    let mut i = from;
    while i < n
        invariant
            from <= i <= n,
            n == s@.len(),
            digits == s@.subrange(from as int, n as int),
            all_digits(s@.subrange(from as int, i as int)),
            v == dec_value(s@.subrange(from as int, i as int)),
            v <= usize::MAX as u128,
        decreases n - i,
    {
        let ghost prefix = s@.subrange(from as int, i as int);
        let c = s.get_char(i);
        let cv = c as u32;
        if cv < 48 || cv > 57 {
            proof {
                assert(digits[i - from] == s@[i as int]);
            }
            return None;
        }
        v = v * 10 + (cv - 48) as u128;
        proof {
            let grown = s@.subrange(from as int, i + 1);
            assert(grown.drop_last() =~= prefix);
            assert(grown.last() == s@[i as int]);
        }
        if v > usize::MAX as u128 {
            proof {
                if all_digits(digits) {
                    lemma_dec_prefix(digits, i + 1 - from);
                    assert(digits.subrange(0, i + 1 - from) =~= s@.subrange(from as int, i + 1));
                }
            }
            return None;
        }
        i = i + 1;
    }
    proof {
        assert(s@.subrange(from as int, i as int) =~= digits);
    }
    Some(v as usize)
}

/// Resolves one address literal.
pub fn parse_address(addr: &str) -> (r: Result<Address, RedError>)
    ensures
        spec_parse_address(addr@) matches Some(a) ==> r == Ok::<Address, RedError>(a),
        spec_parse_address(addr@) is None ==> r == Err::<Address, RedError>(
            RedError::InvalidAddress,
        ),
{
    let n = addr.unicode_len();
    if n == 1 && addr.get_char(0) == '.' {
        return Ok(Address::CurrentLine);
    }
    if n == 1 && addr.get_char(0) == '$' {
        return Ok(Address::LastLine);
    }
    if n >= 1 && (addr.get_char(0) == '+' || addr.get_char(0) == '-') {
        let v = match parse_decimal(addr, 1) {
            Some(v) => v,
            None => return Err(RedError::InvalidAddress),
        };
        if addr.get_char(0) == '+' {
            if v <= isize::MAX as usize {
                return Ok(Address::Offset(v as isize));
            }
            return Err(RedError::InvalidAddress);
        }
        if v <= isize::MAX as usize {
            return Ok(Address::Offset(-(v as isize)));
        }
        if v == isize::MAX as usize + 1 {
            return Ok(Address::Offset(isize::MIN));
        }
        return Err(RedError::InvalidAddress);
    }
    proof {
        assert(addr@.subrange(0, addr@.len() as int) =~= addr@);
    }
    match parse_decimal(addr, 0) {
        Some(v) => Ok(Address::Numbered(v)),
        None => Err(RedError::InvalidAddress),
    }
}

/// What one pass over the tokens gathers: captured addresses, payload texts,
/// the command letter, and whether a separator or a first address was seen.
pub struct ParseAcc {
    pub start: Option<Address>,
    pub end: Option<Address>,
    pub arg: Option<Seq<char>>,
    pub suffix: Option<Seq<char>>,
    pub cmd: Option<char>,
    pub first_addr: bool,
    pub separator: bool,
}

/// Nothing gathered yet.
pub open spec fn init_acc() -> ParseAcc {
    ParseAcc {
        start: None,
        end: None,
        arg: None,
        suffix: None,
        cmd: None,
        first_addr: false,
        separator: false,
    }
}

/// One pass over the tokens from position `i`: the first address lands in
/// `start`, any later one in `end`, a separator makes the next address an
/// end, the last argument, suffix and command letter win. An address literal
/// that does not resolve fails the pass.
pub open spec fn fold_tokens(toks: Seq<SpecToken>, i: int, acc: ParseAcc) -> Option<ParseAcc>
    decreases toks.len() - i when 0 <= i <= toks.len()
{
    if i >= toks.len() {
        Some(acc)
    } else {
        match toks[i] {
            SpecToken::Address(a) => match spec_parse_address(a) {
                None => None,
                Some(ad) => if !acc.first_addr {
                    fold_tokens(
                        toks,
                        i + 1,
                        ParseAcc { start: Some(ad), first_addr: true, ..acc },
                    )
                } else {
                    fold_tokens(toks, i + 1, ParseAcc { end: Some(ad), ..acc })
                },
            },
            SpecToken::Separator(_) => fold_tokens(
                toks,
                i + 1,
                ParseAcc { separator: true, first_addr: true, ..acc },
            ),
            SpecToken::Argument(a) => fold_tokens(toks, i + 1, ParseAcc { arg: Some(a), ..acc }),
            SpecToken::Command(c) => fold_tokens(toks, i + 1, ParseAcc { cmd: Some(c), ..acc }),
            SpecToken::Suffix(sfx) => fold_tokens(
                toks,
                i + 1,
                ParseAcc { suffix: Some(sfx), ..acc },
            ),
        }
    }
}

/// The first of two optional addresses, or the second.
pub open spec fn or_addr(a: Option<Address>, b: Option<Address>) -> Option<Address> {
    match a {
        Some(_) => a,
        None => b,
    }
}

/// The first of two optional texts, or the second.
pub open spec fn or_text(a: Option<Seq<char>>, b: Option<Seq<char>>) -> Option<Seq<char>> {
    match a {
        Some(_) => a,
        None => b,
    }
}

/// The command a token sequence parses to. No tokens means a blank line;
/// a separator with no explicit addresses means the whole buffer; a lone
/// address with no letter is a jump; an unknown letter is read as a blank
/// line, as the interpreter always has. The move destination and the
/// substitution spec stand adjacent to their letter (a suffix), though one
/// given after a space is taken too. For insert and append the single
/// available address is re-used, preferring the end of a captured pair.
/// `None` is an address that did not resolve.
pub open spec fn spec_parse(toks: Seq<SpecToken>) -> Option<SpecCommand> {
    if toks.len() == 0 {
        Some(SpecCommand::Noop)
    } else {
        match fold_tokens(toks, 0, init_acc()) {
            None => None,
            Some(acc) => {
                let start = if acc.separator && acc.start is None && acc.end is None {
                    Some(Address::Numbered(1))
                } else {
                    acc.start
                };
                let end = if acc.separator && acc.start is None && acc.end is None {
                    Some(Address::LastLine)
                } else {
                    acc.end
                };
                match acc.cmd {
                    None => if start is Some && end is None {
                        Some(SpecCommand::Jump { address: start->0 })
                    } else {
                        Some(SpecCommand::Noop)
                    },
                    Some(c) => if c == 'p' {
                        Some(SpecCommand::Print { start, end })
                    } else if c == 'n' {
                        Some(SpecCommand::Numbered { start, end })
                    } else if c == 'd' {
                        Some(SpecCommand::Delete { start, end })
                    } else if c == 'w' {
                        Some(SpecCommand::Write { start, end, file: acc.arg })
                    } else if c == 'i' {
                        Some(SpecCommand::Insert { before: or_addr(end, start) })
                    } else if c == 'a' {
                        Some(SpecCommand::Append { after: or_addr(end, start) })
                    } else if c == 'h' {
                        Some(SpecCommand::Help)
                    } else if c == 'q' {
                        Some(SpecCommand::Quit { force: false })
                    } else if c == 'Q' {
                        Some(SpecCommand::Quit { force: true })
                    } else if c == 'e' {
                        Some(SpecCommand::Edit { file: acc.arg })
                    } else if c == 'c' {
                        Some(SpecCommand::Change { start, end })
                    } else if c == 'r' {
                        Some(SpecCommand::Read { after: or_addr(end, start), file: acc.arg })
                    } else if c == 'm' {
                        match or_text(acc.suffix, acc.arg) {
                            None => None,
                            Some(sfx) => match spec_parse_address(sfx) {
                                Some(d) => Some(SpecCommand::Move { start, end, dest: d }),
                                None => None,
                            },
                        }
                    } else if c == 's' {
                        Some(SpecCommand::Substitute { start, end, arg: or_text(acc.suffix, acc.arg) })
                    } else {
                        Some(SpecCommand::Noop)
                    },
                }
            },
        }
    }
}

/// Consumes the token sequence once and produces the command it means.
pub fn parse(tokens: &[Token]) -> (r: Result<Command, RedError>)
    ensures
        spec_parse(toks_view(tokens@)) matches Some(sc) ==> (r matches Ok(c) && c@ == sc),
        spec_parse(toks_view(tokens@)) is None ==> r == Err::<Command, RedError>(
            RedError::InvalidAddress,
        ),
{
    let ghost tv = toks_view(tokens@);
    if tokens.len() == 0 {
        return Ok(Command::Noop);
    }

    let mut start: Option<Address> = None;
    let mut end: Option<Address> = None;
    let mut arg: Option<&str> = None;
    let mut suffix: Option<&str> = None;
    let mut cmd: Option<char> = None;
    let mut first_addr = false;
    let mut separator = false;

    let mut i: usize = 0;
    while i < tokens.len()
        invariant
            i <= tokens.len(),
            tv == toks_view(tokens@),
            tv.len() == tokens@.len(),
            fold_tokens(tv, 0, init_acc()) == fold_tokens(
                tv,
                i as int,
                ParseAcc {
                    start,
                    end,
                    arg: match arg {
                        Some(a) => Some(a@),
                        None => None,
                    },
                    suffix: match suffix {
                        Some(sx) => Some(sx@),
                        None => None,
                    },
                    cmd,
                    first_addr,
                    separator,
                },
            ),
        decreases tokens@.len() - i,
    {
        proof {
            assert(tv[i as int] == tokens@[i as int]@);
        }
        match &tokens[i] {
            Token::Address(a) => {
                let ad = match parse_address(a) {
                    Ok(ad) => ad,
                    Err(e) => return Err(e),
                };
                if !first_addr {
                    start = Some(ad);
                    first_addr = true;
                } else {
                    end = Some(ad);
                }
            },
            Token::Separator(_) => {
                separator = true;
                first_addr = true;
            },
            Token::Argument(a) => {
                arg = Some(a);
            },
            Token::Command(c) => {
                cmd = Some(*c);
            },
            Token::Suffix(sfx) => {
                suffix = Some(sfx);
            },
        }
        i = i + 1;
    }

    // If there was a separator but no explicit address, cover the whole
    // buffer.
    if separator && start.is_none() && end.is_none() {
        start = Some(Address::Numbered(1));
        end = Some(Address::LastLine);
    }

    let c = match cmd {
        None => {
            if start.is_some() && end.is_none() {
                return Ok(Command::Jump { address: start.unwrap() });
            }
            return Ok(Command::Noop);
        },
        Some(c) => c,
    };

    let r = if c == 'p' {
        Command::Print { start, end }
    } else if c == 'n' {
        Command::Numbered { start, end }
    } else if c == 'd' {
        Command::Delete { start, end }
    } else if c == 'w' {
        Command::Write { start, end, file: own_text(arg) }
    } else if c == 'i' {
        Command::Insert { before: pick_addr(end, start) }
    } else if c == 'a' {
        Command::Append { after: pick_addr(end, start) }
    } else if c == 'h' {
        Command::Help
    } else if c == 'q' {
        Command::Quit { force: false }
    } else if c == 'Q' {
        Command::Quit { force: true }
    } else if c == 'e' {
        Command::Edit { file: own_text(arg) }
    } else if c == 'c' {
        Command::Change { start, end }
    } else if c == 'r' {
        Command::Read { after: pick_addr(end, start), file: own_text(arg) }
    } else if c == 'm' {
        let sfx = match suffix {
            Some(sx) => Some(sx),
            None => arg,
        };
        let sfx = match sfx {
            Some(sx) => sx,
            None => return Err(RedError::InvalidAddress),
        };
        let d = match parse_address(sfx) {
            Ok(d) => d,
            Err(e) => return Err(e),
        };
        Command::Move { start, end, dest: d }
    } else if c == 's' {
        let sfx = match suffix {
            Some(sx) => Some(sx),
            None => arg,
        };
        Command::Substitute { start, end, arg: own_text(sfx) }
    } else {
        Command::Noop
    };
    Ok(r)
}

/// The first of two optional addresses, or the second.
fn pick_addr(a: Option<Address>, b: Option<Address>) -> (r: Option<Address>)
    ensures
        r == or_addr(a, b),
{
    match a {
        Some(ad) => Some(ad),
        None => b,
    }
}

/// An optional borrowed text, owned.
fn own_text(o: Option<&str>) -> (r: Option<String>)
    ensures
        crate::commands::opt_view(r) == match o {
            Some(s) => Some(s@),
            None => None::<Seq<char>>,
        },
{
    match o {
        Some(s) => Some(String::from_str(s)),
        None => None,
    }
}

} // verus!
