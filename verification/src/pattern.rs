//! Regular-expression substitution, behind trusted wrappers around the regex
//! crate, and the parsing of a `/pattern/replacement/flags` argument.
//!
//! What a pattern matches is the regex crate's own business: the wrappers
//! name its results (they are functions of the texts alone) rather than
//! restate them.

use vstd::prelude::*;

verus! {

/// Whether the regex crate accepts this pattern text: `Regex::new` compiles
/// or rejects a pattern by its text alone.
pub uninterp spec fn valid_pattern(pattern: Seq<char>) -> bool;

/// The line that replacing the first match of `pattern` with `replacement`
/// in `line` yields: a function of the three texts alone. A line without a
/// match comes back unchanged.
pub uninterp spec fn sub_first(
    pattern: Seq<char>,
    replacement: Seq<char>,
    line: Seq<char>,
) -> Seq<char>;

/// The line that replacing every non-overlapping match of `pattern` with
/// `replacement` in `line` yields: a function of the three texts alone. A
/// line without a match comes back unchanged.
pub uninterp spec fn sub_all(
    pattern: Seq<char>,
    replacement: Seq<char>,
    line: Seq<char>,
) -> Seq<char>;

/// One substituted line: the global flag picks every match over the first.
pub open spec fn sub_line(
    pattern: Seq<char>,
    replacement: Seq<char>,
    all: bool,
    line: Seq<char>,
) -> Seq<char> {
    if all {
        sub_all(pattern, replacement, line)
    } else {
        sub_first(pattern, replacement, line)
    }
}

/// Relies on regex::Regex::new: it compiles a pattern, or rejects it, by the
/// pattern text alone.
#[verifier::external_body]
pub(crate) fn pattern_compiles(pattern: &str) -> (r: bool)
    ensures
        r == valid_pattern(pattern@),
{
    regex::Regex::new(pattern).is_ok()
}

/// Relies on regex::Regex::replace, with regex::Regex::new turning the
/// pattern text into the regex it takes: replacing the first match is
/// deterministic in the three texts, and fails exactly on a pattern that
/// does not compile.
#[verifier::external_body]
pub(crate) fn replace_first(pattern: &str, replacement: &str, line: &str) -> (r: Option<String>)
    ensures
        r is Some <==> valid_pattern(pattern@),
        r is Some ==> r->0@ == sub_first(pattern@, replacement@, line@),
{
    match regex::Regex::new(pattern) {
        Ok(re) => Some(re.replace(line, replacement).into_owned()),
        Err(_) => None,
    }
}

/// Relies on regex::Regex::replace_all, with regex::Regex::new turning the
/// pattern text into the regex it takes: replacing every non-overlapping
/// match is deterministic in the three texts, and fails exactly on a pattern
/// that does not compile.
#[verifier::external_body]
pub(crate) fn replace_all(pattern: &str, replacement: &str, line: &str) -> (r: Option<String>)
    ensures
        r is Some <==> valid_pattern(pattern@),
        r is Some ==> r->0@ == sub_all(pattern@, replacement@, line@),
{
    match regex::Regex::new(pattern) {
        Ok(re) => Some(re.replace_all(line, replacement).into_owned()),
        Err(_) => None,
    }
}

/// The position of the first `/` in `s` at or after `from`.
pub open spec fn find_slash(s: Seq<char>, from: int) -> Option<int>
    decreases s.len() - from when 0 <= from <= s.len()
{
    if from >= s.len() {
        None
    } else if s[from] == '/' {
        Some(from)
    } else {
        find_slash(s, from + 1)
    }
}

/// Whether a flags text asks for all occurrences per line.
pub open spec fn has_global_flag(flags: Seq<char>) -> bool {
    exists|i: int| 0 <= i < flags.len() && flags[i] == 'g'
}

/// A substitution argument taken apart: `/pattern/replacement` with an
/// optional `/flags` tail. `None` is a malformed delimiter spec: no leading
/// slash, or no second slash to end the pattern.
pub open spec fn spec_parse_subst(arg: Seq<char>) -> Option<(Seq<char>, Seq<char>, bool)> {
    if arg.len() == 0 || arg[0] != '/' {
        None
    } else {
        match find_slash(arg, 1) {
            None => None,
            Some(p) => {
                let pat = arg.subrange(1, p);
                let rest = arg.subrange(p + 1, arg.len() as int);
                match find_slash(rest, 0) {
                    None => Some((pat, rest, false)),
                    Some(q) => Some(
                        (
                            pat,
                            rest.subrange(0, q),
                            has_global_flag(rest.subrange(q + 1, rest.len() as int)),
                        ),
                    ),
                }
            },
        }
    }
}

/// The first `/` in `s` at or after `from`, walked by characters.
fn find_slash_exec(s: &str, from: usize) -> (r: Option<usize>)
    requires
        from <= s@.len(),
    ensures
        r matches Some(p) ==> find_slash(s@, from as int) == Some(p as int) && from <= p < s@.len(),
        r is None ==> find_slash(s@, from as int) is None,
{
    let n = s.unicode_len();
    let mut i = from;
    while i < n
        invariant
            from <= i <= n,
            n == s@.len(),
            find_slash(s@, from as int) == find_slash(s@, i as int),
        decreases n - i,
    {
        if s.get_char(i) == '/' {
            return Some(i);
        }
        i = i + 1;
    }
    None
}

/// Whether the flags text holds a `g`.
fn has_global_flag_exec(flags: &str) -> (r: bool)
    ensures
        r == has_global_flag(flags@),
{
    let n = flags.unicode_len();
    let mut i: usize = 0;
    while i < n
        invariant
            i <= n,
            n == flags@.len(),
            forall|j: int| 0 <= j < i ==> flags@[j] != 'g',
        decreases n - i,
    {
        if flags.get_char(i) == 'g' {
            return true;
        }
        i = i + 1;
    }
    false
}

/// Takes a substitution argument apart into pattern, replacement and the
/// all-occurrences flag.
pub(crate) fn parse_subst<'a>(arg: &'a str) -> (r: Option<(&'a str, &'a str, bool)>)
    ensures
        r is Some <==> spec_parse_subst(arg@) is Some,
        r matches Some((pat, rep, all)) ==> spec_parse_subst(arg@) == Some((pat@, rep@, all)),
{
    let n = arg.unicode_len();
    if n == 0 || arg.get_char(0) != '/' {
        return None;
    }
    let p = match find_slash_exec(arg, 1) {
        Some(p) => p,
        None => return None,
    };
    let pat = arg.substring_char(1, p);
    let rest = arg.substring_char(p + 1, n);
    match find_slash_exec(rest, 0) {
        None => Some((pat, rest, false)),
        Some(q) => {
            let rep = rest.substring_char(0, q);
            let flags = rest.substring_char(q + 1, rest.unicode_len());
            Some((pat, rep, has_global_flag_exec(flags)))
        },
    }
}

} // verus!
