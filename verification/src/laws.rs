//! The laws that hold across the interpreter's pieces, each stated and
//! proved over the same spec functions the executable contracts use.

use vstd::prelude::*;

use crate::commands::{
    move_post, spec_range, spec_resolve, spec_resolve_line, substitute_post, write_cmd_post,
    Action, Address,
};
use crate::errors::RedError;
use crate::pattern::{spec_parse_subst, sub_line, valid_pattern};
use crate::red::{views_of, Red};

verus! {

/// Against any editor state, a numbered address resolves, in a context that
/// needs an existing line, to exactly its own number when that names a line;
/// it fails when it is zero or past the last line.
pub proof fn lemma_numbered_resolution(ed: Red, n: usize)
    ensures
        1 <= n <= ed.data@.len() ==> spec_resolve_line(ed, Address::Numbered(n)) == Some(n as int),
        n == 0 || n > ed.data@.len() ==> spec_resolve_line(ed, Address::Numbered(n)) is None,
{
}

/// Resolving the current-line address always yields the cursor as it stands
/// before the operation runs.
pub proof fn lemma_current_line_resolution(ed: Red)
    ensures
        spec_resolve(ed, Address::CurrentLine) == Some(ed.current_line as int),
{
}

/// Move is never a self-move: whenever the destination falls inside the
/// resolved range, the command fails and the editor is exactly as it was.
pub proof fn lemma_move_self_range(
    pre: Red,
    post: Red,
    r: Result<Action, RedError>,
    start: Option<Address>,
    end: Option<Address>,
    dest: Address,
)
    requires
        move_post(pre, post, r, start, end, dest),
        spec_range(pre, start, end) is Some,
        spec_resolve(pre, dest) is Some,
        (spec_range(pre, start, end)->0).0 <= spec_resolve(pre, dest)->0 <= (spec_range(
            pre,
            start,
            end,
        )->0).1,
    ensures
        post == pre,
        r == Err::<Action, RedError>(RedError::InvalidDestination),
{
}

/// Write, then read: the lines the write command hands out for the whole
/// buffer, loaded back into an editor as the read of the same path returns
/// them, reproduce the original line sequence exactly.
pub proof fn lemma_write_read_round_trip(
    pre: Red,
    mid: Red,
    r: Result<Action, RedError>,
    file: Option<Seq<char>>,
    lines: Vec<String>,
    reloaded: Red,
)
    requires
        pre.data@.len() > 0,
        write_cmd_post(pre, mid, r, None, None, file),
        !(file is None && pre.path is None),
        match r {
            Ok(Action::WriteFile { lines: l, .. }) => l == lines,
            _ => false,
        },
        reloaded.data@ == lines@,
    ensures
        views_of(reloaded.data@) == views_of(pre.data@),
{
    assert(pre.data@.subrange(0, pre.data@.len() as int) =~= pre.data@);
}

/// A substitution whose range holds no matching line fails with no match and
/// leaves the editor exactly as it was.
pub proof fn lemma_substitute_no_match(
    pre: Red,
    post: Red,
    r: Result<Action, RedError>,
    start: Option<Address>,
    end: Option<Address>,
    arg: Seq<char>,
    pat: Seq<char>,
    rep: Seq<char>,
    all: bool,
)
    requires
        substitute_post(pre, post, r, start, end, Some(arg)),
        spec_parse_subst(arg) == Some((pat, rep, all)),
        pat.len() > 0,
        valid_pattern(pat),
        spec_range(pre, start, end) is Some,
        forall|i: int|
            (spec_range(pre, start, end)->0).0 <= i <= (spec_range(pre, start, end)->0).1
                ==> sub_line(pat, rep, all, (#[trigger] pre.data@[i - 1])@) == pre.data@[i - 1]@,
    ensures
        post == pre,
        r == Err::<Action, RedError>(RedError::NoMatch),
{
}

} // verus!
