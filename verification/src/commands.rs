//! The command representation, and address and range resolution.

use vstd::prelude::*;

use crate::errors::RedError;
use crate::output;
use crate::pattern;
use crate::pattern::{spec_parse_subst, sub_line, valid_pattern};
use crate::red::splice_lines;
use crate::red::views_of;
use crate::red::Red;

verus! {

/// A request to identify a line: relative (current line, offset from it) or
/// absolute (numbered, last). A request, not a resolved index.
#[derive(Debug, PartialEq, Eq, Structural, Copy, Clone)]
pub enum Address {
    CurrentLine,
    LastLine,
    Numbered(usize),
    Offset(isize),
}

/// The editor's two-state machine: parse input lines as commands, or append
/// them verbatim to the buffer until a line of a single dot.
#[derive(Debug, PartialEq, Eq, Structural)]
pub enum Mode {
    Command,
    Input,
}

/// What the surrounding loop should do after dispatching one line.
#[derive(Debug, PartialEq, Eq)]
pub enum Action {
    /// End the session.
    Quit,
    /// Read the next input line.
    Continue,
    /// Report a terse `?` marker and go on.
    Unknown,
    /// Write `lines` to `path`, newline-terminated; on success report the
    /// byte count and hand the path and `last` (the written range's final
    /// line number) back through [`Red::finish_write`].
    WriteFile { path: String, lines: Vec<String>, last: usize },
    /// Read the lines of `path`; on success hand them back through
    /// [`Red::load_file`] (`insert_at` absent, for the edit command) or
    /// [`Red::read_lines`] (`insert_at` present, for the read command).
    LoadFile { path: String, insert_at: Option<usize> },
}

/// A command: the operation kind, the optional range it works on, and any
/// operation-specific payload. Matched exhaustively by the executor.
#[derive(Debug, PartialEq, Eq)]
pub enum Command {
    Noop,
    Quit { force: bool },
    Help,
    Jump { address: Address },
    Print { start: Option<Address>, end: Option<Address> },
    Numbered { start: Option<Address>, end: Option<Address> },
    Delete { start: Option<Address>, end: Option<Address> },
    Write { start: Option<Address>, end: Option<Address>, file: Option<String> },
    Insert { before: Option<Address> },
    Append { after: Option<Address> },
    Edit { file: Option<String> },
    Change { start: Option<Address>, end: Option<Address> },
    Read { after: Option<Address>, file: Option<String> },
    Move { start: Option<Address>, end: Option<Address>, dest: Address },
    Substitute { start: Option<Address>, end: Option<Address>, arg: Option<String> },
}

/// The view of a command: the same shape, with each payload string as its
/// text. The parser's and executor's contracts are stated over this.
pub enum SpecCommand {
    Noop,
    Quit { force: bool },
    Help,
    Jump { address: Address },
    Print { start: Option<Address>, end: Option<Address> },
    Numbered { start: Option<Address>, end: Option<Address> },
    Delete { start: Option<Address>, end: Option<Address> },
    Write { start: Option<Address>, end: Option<Address>, file: Option<Seq<char>> },
    Insert { before: Option<Address> },
    Append { after: Option<Address> },
    Edit { file: Option<Seq<char>> },
    Change { start: Option<Address>, end: Option<Address> },
    Read { after: Option<Address>, file: Option<Seq<char>> },
    Move { start: Option<Address>, end: Option<Address>, dest: Address },
    Substitute { start: Option<Address>, end: Option<Address>, arg: Option<Seq<char>> },
}

impl View for Command {
    type V = SpecCommand;

    open spec fn view(&self) -> SpecCommand {
        match self {
            Command::Noop => SpecCommand::Noop,
            Command::Quit { force } => SpecCommand::Quit { force: *force },
            Command::Help => SpecCommand::Help,
            Command::Jump { address } => SpecCommand::Jump { address: *address },
            Command::Print { start, end } => SpecCommand::Print { start: *start, end: *end },
            Command::Numbered { start, end } => SpecCommand::Numbered { start: *start, end: *end },
            Command::Delete { start, end } => SpecCommand::Delete { start: *start, end: *end },
            Command::Write { start, end, file } => SpecCommand::Write {
                start: *start,
                end: *end,
                file: opt_view(*file),
            },
            Command::Insert { before } => SpecCommand::Insert { before: *before },
            Command::Append { after } => SpecCommand::Append { after: *after },
            Command::Edit { file } => SpecCommand::Edit { file: opt_view(*file) },
            Command::Change { start, end } => SpecCommand::Change { start: *start, end: *end },
            Command::Read { after, file } => SpecCommand::Read {
                after: *after,
                file: opt_view(*file),
            },
            Command::Move { start, end, dest } => SpecCommand::Move {
                start: *start,
                end: *end,
                dest: *dest,
            },
            Command::Substitute { start, end, arg } => SpecCommand::Substitute {
                start: *start,
                end: *end,
                arg: opt_view(*arg),
            },
        }
    }
}

/// What an address asks for, against the current cursor and buffer length:
/// the cursor itself, the buffer length, the number as given (when it does
/// not point past the end), or the cursor shifted by an offset (when the
/// result stays within `[1, len]`). `None` is a resolution failure.
///
/// A numbered address of zero resolves to zero here: insert, append and read
/// accept it as "before everything". Operations that need an existing line
/// go through [`spec_resolve_line`] instead, where zero fails.
pub open spec fn spec_resolve(ed: Red, addr: Address) -> Option<int> {
    match addr {
        Address::CurrentLine => Some(ed.current_line as int),
        Address::LastLine => Some(ed.data@.len() as int),
        Address::Numbered(n) => if n <= ed.data@.len() {
            Some(n as int)
        } else {
            None
        },
        Address::Offset(d) => {
            let t = ed.current_line + d;
            if 1 <= t <= ed.data@.len() {
                Some(t)
            } else {
                None
            }
        },
    }
}

/// Resolution for contexts that need an existing line: the resolved value
/// must lie in `[1, len]`, so zero and anything past the end fail.
pub open spec fn spec_resolve_line(ed: Red, addr: Address) -> Option<int> {
    match spec_resolve(ed, addr) {
        Some(t) => if 1 <= t <= ed.data@.len() {
            Some(t)
        } else {
            None
        },
        None => None,
    }
}

/// A range of existing lines `[s, e]` from an optional address pair, with the
/// command-wide defaults: nothing means the cursor alone, a lone start means
/// that line alone, a lone end means from line one. Fails unless
/// `1 <= s <= e <= len`.
pub open spec fn spec_range(
    ed: Red,
    start: Option<Address>,
    end: Option<Address>,
) -> Option<(int, int)> {
    let bounds = match (start, end) {
        (None, None) => Some((ed.current_line as int, ed.current_line as int)),
        (Some(a), None) => match spec_resolve(ed, a) {
            Some(s) => Some((s, s)),
            None => None,
        },
        (None, Some(b)) => match spec_resolve(ed, b) {
            Some(e) => Some((1int, e)),
            None => None,
        },
        (Some(a), Some(b)) => match (spec_resolve(ed, a), spec_resolve(ed, b)) {
            (Some(s), Some(e)) => Some((s, e)),
            _ => None,
        },
    };
    match bounds {
        Some((s, e)) => if 1 <= s <= e <= ed.data@.len() {
            Some((s, e))
        } else {
            None
        },
        None => None,
    }
}

/// The view of an optional payload string.
pub open spec fn opt_view(o: Option<String>) -> Option<Seq<char>> {
    match o {
        Some(s) => Some(s@),
        None => None,
    }
}

/// Blank input: step onto the next line and print it; past the last line the
/// step is reported as unknown.
pub open spec fn noop_post(pre: Red, post: Red, r: Result<Action, RedError>) -> bool {
    if pre.current_line < pre.data@.len() {
        &&& post == (Red { current_line: (pre.current_line + 1) as usize, ..pre })
        &&& r == Ok::<Action, RedError>(Action::Continue)
    } else {
        &&& post == pre
        &&& r == Ok::<Action, RedError>(Action::Unknown)
    }
}

/// Quit ends the session unless unsaved changes stand and no force was asked
/// for; the refusal clears the dirty flag, so repeating it succeeds (a
/// preserved quirk of the interpreter, not an oversight here).
pub open spec fn quit_post(pre: Red, post: Red, r: Result<Action, RedError>, force: bool) -> bool {
    if force || !pre.dirty {
        &&& post == pre
        &&& r == Ok::<Action, RedError>(Action::Quit)
    } else {
        &&& post == (Red { dirty: false, ..pre })
        &&& r == Err::<Action, RedError>(RedError::BufferModified)
    }
}

/// Help re-prints the last stored failure and changes nothing.
pub open spec fn help_post(pre: Red, post: Red, r: Result<Action, RedError>) -> bool {
    &&& post == pre
    &&& r == Ok::<Action, RedError>(Action::Continue)
}

/// Jump moves the cursor to the resolved line and prints it; the resolved
/// value must name an existing line.
pub open spec fn jump_post(
    pre: Red,
    post: Red,
    r: Result<Action, RedError>,
    addr: Address,
) -> bool {
    match spec_resolve_line(pre, addr) {
        Some(t) => {
            &&& post == (Red { current_line: t as usize, ..pre })
            &&& r == Ok::<Action, RedError>(Action::Continue)
        },
        None => {
            &&& post == pre
            &&& r == Err::<Action, RedError>(RedError::InvalidAddress)
        },
    }
}

/// Print and numbered print write the resolved range out and leave the
/// cursor on the range's end; the buffer itself is untouched.
pub open spec fn write_range_post(
    pre: Red,
    post: Red,
    r: Result<Action, RedError>,
    start: Option<Address>,
    end: Option<Address>,
) -> bool {
    match spec_range(pre, start, end) {
        Some((s, e)) => {
            &&& post == (Red { current_line: e as usize, ..pre })
            &&& r == Ok::<Action, RedError>(Action::Continue)
        },
        None => {
            &&& post == pre
            &&& r == Err::<Action, RedError>(RedError::InvalidAddress)
        },
    }
}

/// Delete removes every line of the resolved range; the cursor becomes the
/// range's start, pulled back to the new length when the tail was removed.
pub open spec fn delete_post(
    pre: Red,
    post: Red,
    r: Result<Action, RedError>,
    start: Option<Address>,
    end: Option<Address>,
) -> bool {
    match spec_range(pre, start, end) {
        Some((s, e)) => {
            let new_len = pre.data@.len() - (e - s + 1);
            &&& post == (Red {
                data: post.data,
                current_line: post.current_line,
                dirty: true,
                ..pre
            })
            &&& post.data@ == pre.data@.subrange(0, s - 1) + pre.data@.subrange(
                e,
                pre.data@.len() as int,
            )
            &&& post.current_line == if s <= new_len {
                s
            } else {
                new_len
            }
            &&& r == Ok::<Action, RedError>(Action::Continue)
        },
        None => {
            &&& post == pre
            &&& r == Err::<Action, RedError>(RedError::InvalidAddress)
        },
    }
}

/// Insert switches to input mode with the insertion point one ahead of the
/// resolved address (clamped at the buffer's start), so new text precedes
/// that line. Without an address the cursor stands for it.
pub open spec fn insert_post(
    pre: Red,
    post: Red,
    r: Result<Action, RedError>,
    before: Option<Address>,
) -> bool {
    let target = match before {
        Some(a) => spec_resolve(pre, a),
        None => Some(pre.current_line as int),
    };
    match target {
        Some(t) => {
            &&& post == (Red {
                current_line: if t > 0 {
                    (t - 1) as usize
                } else {
                    0
                },
                mode: Mode::Input,
                ..pre
            })
            &&& r == Ok::<Action, RedError>(Action::Continue)
        },
        None => {
            &&& post == pre
            &&& r == Err::<Action, RedError>(RedError::InvalidAddress)
        },
    }
}

/// Append switches to input mode with the insertion point at the resolved
/// address, so new text follows that line. Without an address the cursor
/// stands for it.
pub open spec fn append_post(
    pre: Red,
    post: Red,
    r: Result<Action, RedError>,
    after: Option<Address>,
) -> bool {
    let target = match after {
        Some(a) => spec_resolve(pre, a),
        None => Some(pre.current_line as int),
    };
    match target {
        Some(t) => {
            &&& post == (Red { current_line: t as usize, mode: Mode::Input, ..pre })
            &&& r == Ok::<Action, RedError>(Action::Continue)
        },
        None => {
            &&& post == pre
            &&& r == Err::<Action, RedError>(RedError::InvalidAddress)
        },
    }
}

/// Change deletes the resolved range and then behaves as insert at the
/// resulting cursor position.
pub open spec fn change_post(
    pre: Red,
    post: Red,
    r: Result<Action, RedError>,
    start: Option<Address>,
    end: Option<Address>,
) -> bool {
    match spec_range(pre, start, end) {
        Some((s, e)) => {
            let new_len = pre.data@.len() - (e - s + 1);
            let landed = if s <= new_len {
                s
            } else {
                new_len
            };
            &&& post == (Red {
                data: post.data,
                current_line: if landed > 0 {
                    (landed - 1) as usize
                } else {
                    0
                },
                mode: Mode::Input,
                dirty: true,
                ..pre
            })
            &&& post.data@ == pre.data@.subrange(0, s - 1) + pre.data@.subrange(
                e,
                pre.data@.len() as int,
            )
            &&& r == Ok::<Action, RedError>(Action::Continue)
        },
        None => {
            &&& post == pre
            &&& r == Err::<Action, RedError>(RedError::InvalidAddress)
        },
    }
}

/// Edit asks the surrounding loop to reload the buffer from the explicit or
/// associated path; the state changes only once the lines come back through
/// [`Red::load_file`].
pub open spec fn edit_post(
    pre: Red,
    post: Red,
    r: Result<Action, RedError>,
    file: Option<Seq<char>>,
) -> bool {
    &&& post == pre
    &&& match (file, pre.path) {
        (None, None) => r == Err::<Action, RedError>(RedError::NoFilename),
        _ => match r {
            Ok(Action::LoadFile { path, insert_at }) => {
                &&& path@ == if file is Some {
                    file->0
                } else {
                    pre.path->0@
                }
                &&& insert_at is None
            },
            _ => false,
        },
    }
}

/// Read asks the surrounding loop for the lines of the explicit or associated
/// path, to be spliced in after the resolved address (the cursor when
/// absent); the state changes only once they come back through
/// [`Red::read_lines`].
pub open spec fn read_post(
    pre: Red,
    post: Red,
    r: Result<Action, RedError>,
    after: Option<Address>,
    file: Option<Seq<char>>,
) -> bool {
    &&& post == pre
    &&& if file is None && pre.path is None {
        r == Err::<Action, RedError>(RedError::NoFilename)
    } else {
        let target = match after {
            Some(a) => spec_resolve(pre, a),
            None => Some(pre.current_line as int),
        };
        match target {
            Some(t) => match r {
                Ok(Action::LoadFile { path, insert_at }) => {
                    &&& path@ == if file is Some {
                        file->0
                    } else {
                        pre.path->0@
                    }
                    &&& insert_at == Some(t as usize)
                },
                _ => false,
            },
            None => r == Err::<Action, RedError>(RedError::InvalidAddress),
        }
    }
}

/// Write hands the lines of the resolved range (the whole buffer when no
/// range is given) to the surrounding loop, to be written to the explicit or
/// associated path; the state changes only once the write is confirmed
/// through [`Red::finish_write`]. With no path at all the command is merely
/// reported as unknown.
pub open spec fn write_cmd_post(
    pre: Red,
    post: Red,
    r: Result<Action, RedError>,
    start: Option<Address>,
    end: Option<Address>,
    file: Option<Seq<char>>,
) -> bool {
    &&& post == pre
    &&& if file is None && pre.path is None {
        r == Ok::<Action, RedError>(Action::Unknown)
    } else {
        let ds = if start is None && end is None {
            Some(Address::Numbered(1))
        } else {
            start
        };
        let de = if start is None && end is None {
            Some(Address::LastLine)
        } else {
            end
        };
        match spec_range(pre, ds, de) {
            Some((s, e)) => match r {
                Ok(Action::WriteFile { path, lines, last }) => {
                    &&& path@ == if file is Some {
                        file->0
                    } else {
                        pre.path->0@
                    }
                    &&& views_of(lines@) == views_of(pre.data@.subrange(s - 1, e))
                    &&& last == e
                },
                _ => false,
            },
            None => r == Err::<Action, RedError>(RedError::InvalidAddress),
        }
    }
}

/// Move removes the resolved range and reinserts it, in order, after the
/// resolved destination line; a destination inside the range fails and
/// changes nothing. The cursor lands on the last reinserted line.
pub open spec fn move_post(
    pre: Red,
    post: Red,
    r: Result<Action, RedError>,
    start: Option<Address>,
    end: Option<Address>,
    dest: Address,
) -> bool {
    match spec_resolve(pre, dest) {
        None => {
            &&& post == pre
            &&& r == Err::<Action, RedError>(RedError::InvalidAddress)
        },
        Some(d) => match spec_range(pre, start, end) {
            None => {
                &&& post == pre
                &&& r == Err::<Action, RedError>(RedError::InvalidAddress)
            },
            Some((s, e)) => if s <= d <= e {
                &&& post == pre
                &&& r == Err::<Action, RedError>(RedError::InvalidDestination)
            } else {
                let count = e - s + 1;
                let moved = pre.data@.subrange(s - 1, e);
                let base = pre.data@.subrange(0, s - 1) + pre.data@.subrange(
                    e,
                    pre.data@.len() as int,
                );
                let landing = if d > e {
                    d - count
                } else {
                    d
                };
                &&& post == (Red {
                    data: post.data,
                    current_line: (landing + count) as usize,
                    dirty: true,
                    ..pre
                })
                &&& post.data@ == base.subrange(0, landing) + moved + base.subrange(
                    landing,
                    base.len() as int,
                )
                &&& r == Ok::<Action, RedError>(Action::Continue)
            },
        },
    }
}

/// The 1-based number of the last line in `[s, i]` that substitution
/// changes, or zero when it changes none.
pub open spec fn last_changed(
    data: Seq<String>,
    s: int,
    i: int,
    pat: Seq<char>,
    rep: Seq<char>,
    all: bool,
) -> int
    decreases i + 1 - s when i + 1 >= s
{
    if i < s {
        0
    } else if sub_line(pat, rep, all, data[i - 1]@) != data[i - 1]@ {
        i
    } else {
        last_changed(data, s, i - 1, pat, rep, all)
    }
}

/// Where the last changed line lies: zero exactly when substitution leaves
/// every line of `[s, e]` as it was, and otherwise a changed line in the
/// range past which nothing changes.
pub proof fn lemma_last_changed(
    data: Seq<String>,
    s: int,
    e: int,
    pat: Seq<char>,
    rep: Seq<char>,
    all: bool,
)
    requires
        1 <= s,
        e + 1 >= s,
    ensures
        last_changed(data, s, e, pat, rep, all) == 0 || s <= last_changed(
            data,
            s,
            e,
            pat,
            rep,
            all,
        ) <= e,
        last_changed(data, s, e, pat, rep, all) == 0 <==> (forall|i: int|
            s <= i <= e ==> sub_line(pat, rep, all, (#[trigger] data[i - 1])@) == data[i - 1]@),
        forall|i: int|
            s <= i <= e && last_changed(data, s, e, pat, rep, all) < i ==> sub_line(
                pat,
                rep,
                all,
                (#[trigger] data[i - 1])@,
            ) == data[i - 1]@,
    decreases e + 1 - s,
{
    if e >= s {
        lemma_last_changed(data, s, e - 1, pat, rep, all);
    }
}

/// Substitute parses its argument as `/pattern/replacement[/flags]`, applies
/// the substitution to every line of the resolved range, and moves the
/// cursor to the last changed line (printing it). An argument without its
/// delimiters, an empty or unusable pattern, and a range with no change at
/// all each fail and leave everything as it was.
pub open spec fn substitute_post(
    pre: Red,
    post: Red,
    r: Result<Action, RedError>,
    start: Option<Address>,
    end: Option<Address>,
    arg: Option<Seq<char>>,
) -> bool {
    match arg {
        None => post == pre && r == Err::<Action, RedError>(RedError::NoPreviousSubstitution),
        Some(a) => match spec_parse_subst(a) {
            None => post == pre && r == Err::<Action, RedError>(RedError::MissingDelimiter),
            Some((pat, rep, all)) => if pat.len() == 0 || !valid_pattern(pat) {
                post == pre && r == Err::<Action, RedError>(RedError::NoMatch)
            } else {
                match spec_range(pre, start, end) {
                    None => post == pre && r == Err::<Action, RedError>(RedError::InvalidAddress),
                    Some((s, e)) => if forall|i: int|
                        s <= i <= e ==> sub_line(pat, rep, all, (#[trigger] pre.data@[i - 1])@)
                            == pre.data@[i - 1]@ {
                        post == pre && r == Err::<Action, RedError>(RedError::NoMatch)
                    } else {
                        &&& post == (Red {
                            data: post.data,
                            current_line: post.current_line,
                            dirty: true,
                            ..pre
                        })
                        &&& post.data@.len() == pre.data@.len()
                        &&& (forall|i: int|
                            s <= i <= e ==> (#[trigger] post.data@[i - 1])@ == sub_line(
                                pat,
                                rep,
                                all,
                                pre.data@[i - 1]@,
                            ))
                        &&& (forall|i: int|
                            0 <= i < pre.data@.len() && !(s <= i + 1 <= e) ==> #[trigger] post.data@[i]
                                == pre.data@[i])
                        &&& post.current_line == last_changed(pre.data@, s, e, pat, rep, all)
                        &&& r == Ok::<Action, RedError>(Action::Continue)
                    },
                }
            },
        },
    }
}

/// One command, executed to completion: what it does to the editor and what
/// it returns, by operation kind. This is the executor's whole contract.
pub open spec fn spec_execute(
    c: SpecCommand,
    pre: Red,
    post: Red,
    r: Result<Action, RedError>,
) -> bool {
    match c {
        SpecCommand::Noop => noop_post(pre, post, r),
        SpecCommand::Help => help_post(pre, post, r),
        SpecCommand::Quit { force } => quit_post(pre, post, r, force),
        SpecCommand::Jump { address } => jump_post(pre, post, r, address),
        SpecCommand::Print { start, end } => write_range_post(pre, post, r, start, end),
        SpecCommand::Numbered { start, end } => write_range_post(pre, post, r, start, end),
        SpecCommand::Delete { start, end } => delete_post(pre, post, r, start, end),
        SpecCommand::Write { start, end, file } => write_cmd_post(pre, post, r, start, end, file),
        SpecCommand::Insert { before } => insert_post(pre, post, r, before),
        SpecCommand::Append { after } => append_post(pre, post, r, after),
        SpecCommand::Edit { file } => edit_post(pre, post, r, file),
        SpecCommand::Change { start, end } => change_post(pre, post, r, start, end),
        SpecCommand::Read { after, file } => read_post(pre, post, r, after, file),
        SpecCommand::Move { start, end, dest } => move_post(pre, post, r, start, end, dest),
        SpecCommand::Substitute { start, end, arg } => substitute_post(
            pre,
            post,
            r,
            start,
            end,
            arg,
        ),
    }
}

impl Command {
    /// Evaluates this command to completion against the editor state:
    /// mutates buffer, cursor, dirty flag, mode or associated path, and
    /// returns what the surrounding loop should do next.
    pub fn execute(self, ed: &mut Red) -> (r: Result<Action, RedError>)
        requires
            old(ed).wf(),
        ensures
            spec_execute(self@, *old(ed), *final(ed), r),
            final(ed).wf(),
    {
        match self {
            Command::Noop => Self::noop(ed),
            Command::Help => Self::help(ed),
            Command::Quit { force } => Self::quit(ed, force),
            Command::Jump { address } => Self::jump(ed, address),
            Command::Print { start, end } => Self::print(ed, start, end),
            Command::Numbered { start, end } => Self::numbered(ed, start, end),
            Command::Delete { start, end } => Self::delete(ed, start, end),
            Command::Write { start, end, file } => Self::write(ed, start, end, file),
            Command::Insert { before } => Self::insert(ed, before),
            Command::Append { after } => Self::append(ed, after),
            Command::Edit { file } => Self::edit(ed, file),
            Command::Change { start, end } => Self::change(ed, start, end),
            Command::Read { after, file } => Self::read(ed, after, file),
            Command::Move { start, end, dest } => Self::move_lines(ed, start, end, dest),
            Command::Substitute { start, end, arg } => Self::substitute(ed, start, end, arg),
        }
    }

    /// Resolves an address to a concrete line number against the editor's
    /// cursor and length, the shared primitive of every operation.
    pub fn get_actual_line(ed: &Red, addr: Address) -> (r: Result<usize, RedError>)
        ensures
            spec_resolve(*ed, addr) is Some ==> (r matches Ok(k) && k == spec_resolve(
                *ed,
                addr,
            )->0),
            spec_resolve(*ed, addr) is None ==> r == Err::<usize, RedError>(
                RedError::InvalidAddress,
            ),
    {
        match addr {
            Address::CurrentLine => Ok(ed.current_line),
            Address::LastLine => Ok(ed.data.len()),
            Address::Numbered(n) => {
                if n > ed.data.len() {
                    Err(RedError::InvalidAddress)
                } else {
                    Ok(n)
                }
            },
            Address::Offset(d) => {
                let t: i128 = ed.current_line as i128 + d as i128;
                if t < 1 || t > ed.data.len() as i128 {
                    Err(RedError::InvalidAddress)
                } else {
                    Ok(t as usize)
                }
            },
        }
    }

    /// Resolves an optional address pair to a range of existing lines, with
    /// the command-wide defaults of [`spec_range`].
    fn resolve_range(
        ed: &Red,
        start: Option<Address>,
        end: Option<Address>,
    ) -> (r: Result<(usize, usize), RedError>)
        ensures
            spec_range(*ed, start, end) is Some ==> (r matches Ok((s, e))
                && spec_range(*ed, start, end) == Some((s as int, e as int))),
            spec_range(*ed, start, end) is None ==> r == Err::<(usize, usize), RedError>(
                RedError::InvalidAddress,
            ),
    {
        let bounds = match (start, end) {
            (None, None) => (ed.current_line, ed.current_line),
            (Some(a), None) => {
                let s = Self::get_actual_line(ed, a)?;
                (s, s)
            },
            (None, Some(b)) => {
                let e = Self::get_actual_line(ed, b)?;
                (1, e)
            },
            (Some(a), Some(b)) => {
                let s = Self::get_actual_line(ed, a)?;
                let e = Self::get_actual_line(ed, b)?;
                (s, e)
            },
        };
        let (s, e) = bounds;
        if 1 <= s && s <= e && e <= ed.data.len() {
            Ok((s, e))
        } else {
            Err(RedError::InvalidAddress)
        }
    }

    /// Blank input: advance the cursor and print that line; at the last line
    /// report the step as unknown.
    fn noop(ed: &mut Red) -> (r: Result<Action, RedError>)
        requires
            old(ed).wf(),
        ensures
            noop_post(*old(ed), *final(ed), r),
            final(ed).wf(),
    {
        if ed.current_line < ed.lines() {
            ed.current_line = ed.current_line + 1;
            Self::print(ed, None, None)
        } else {
            Ok(Action::Unknown)
        }
    }

    /// Re-prints the last stored failure, if any.
    fn help(ed: &mut Red) -> (r: Result<Action, RedError>)
        ensures
            help_post(*old(ed), *final(ed), r),
    {
        match &ed.last_error {
            Some(msg) => output::print_line(msg.as_str()),
            None => {},
        }
        Ok(Action::Continue)
    }

    /// Ends the session, unless the buffer holds unsaved changes and the
    /// force variant was not used; the refusal clears the dirty flag.
    fn quit(ed: &mut Red, force: bool) -> (r: Result<Action, RedError>)
        ensures
            quit_post(*old(ed), *final(ed), r, force),
    {
        if !force && ed.dirty {
            ed.dirty = false;
            Err(RedError::BufferModified)
        } else {
            Ok(Action::Quit)
        }
    }

    /// Moves the cursor to the resolved line and prints it.
    fn jump(ed: &mut Red, addr: Address) -> (r: Result<Action, RedError>)
        ensures
            jump_post(*old(ed), *final(ed), r, addr),
    {
        match addr {
            Address::CurrentLine => {},
            Address::LastLine => {
                let new_line = ed.lines();
                match ed.set_line(new_line) {
                    Ok(_) => {},
                    Err(e) => return Err(e),
                }
            },
            Address::Numbered(n) => {
                match ed.set_line(n) {
                    Ok(_) => {},
                    Err(e) => return Err(e),
                }
            },
            Address::Offset(d) => {
                let t: i128 = ed.current_line as i128 + d as i128;
                if t < 1 || t > ed.data.len() as i128 {
                    return Err(RedError::InvalidAddress);
                }
                match ed.set_line(t as usize) {
                    Ok(_) => {},
                    Err(e) => return Err(e),
                }
            },
        }
        // After a jump, print the current line.
        Self::print(ed, None, None)
    }

    /// Prints the resolved range.
    fn print(ed: &mut Red, start: Option<Address>, end: Option<Address>) -> (r: Result<
        Action,
        RedError,
    >)
        ensures
            write_range_post(*old(ed), *final(ed), r, start, end),
    {
        Self::write_range(ed, start, end, false)
    }

    /// Prints the resolved range, each line behind its 1-based number.
    fn numbered(ed: &mut Red, start: Option<Address>, end: Option<Address>) -> (r: Result<
        Action,
        RedError,
    >)
        ensures
            write_range_post(*old(ed), *final(ed), r, start, end),
    {
        Self::write_range(ed, start, end, true)
    }

    /// Writes the resolved range to standard output, optionally numbering
    /// each line, and leaves the cursor on the range's end.
    fn write_range(
        ed: &mut Red,
        start: Option<Address>,
        end: Option<Address>,
        show_number: bool,
    ) -> (r: Result<Action, RedError>)
        ensures
            write_range_post(*old(ed), *final(ed), r, start, end),
    {
        let (s, e) = match Self::resolve_range(ed, start, end) {
            Ok(p) => p,
            Err(er) => return Err(er),
        };
        let count = e - s + 1;
        let mut k: usize = 0;
        while k < count
            invariant
                *ed == *old(ed),
                1 <= s <= e <= ed.data@.len(),
                count == e - s + 1,
                k <= count,
            decreases count - k,
        {
            let line = s + k;
            if show_number {
                output::print_numbered_line(line, ed.data[line - 1].as_str());
            } else {
                output::print_line(ed.data[line - 1].as_str());
            }
            k = k + 1;
        }
        ed.current_line = e;
        Ok(Action::Continue)
    }

    /// Removes every line of the resolved range and reconciles the cursor.
    fn delete(ed: &mut Red, start: Option<Address>, end: Option<Address>) -> (r: Result<
        Action,
        RedError,
    >)
        requires
            old(ed).wf(),
        ensures
            delete_post(*old(ed), *final(ed), r, start, end),
            final(ed).wf(),
    {
        let (s, e) = match Self::resolve_range(ed, start, end) {
            Ok(p) => p,
            Err(er) => return Err(er),
        };
        let ghost pre = ed.data@;
        let count = e - s + 1;
        let mut k: usize = 0;
        while k < count
            invariant
                1 <= s <= e <= pre.len(),
                count == e - s + 1,
                k <= count,
                ed.data@ == pre.subrange(0, s - 1) + pre.subrange(s - 1 + k, pre.len() as int),
                *ed == (Red { data: ed.data, ..*old(ed) }),
            decreases count - k,
        {
            ed.data.remove(s - 1);
            proof {
                assert(ed.data@ =~= pre.subrange(0, s - 1) + pre.subrange(
                    s + k,
                    pre.len() as int,
                ));
            }
            k = k + 1;
        }
        ed.dirty = true;
        let new_len = ed.data.len();
        ed.current_line = if s <= new_len {
            s
        } else {
            new_len
        };
        Ok(Action::Continue)
    }

    /// Switches to input mode so new text precedes the resolved line.
    fn insert(ed: &mut Red, before: Option<Address>) -> (r: Result<Action, RedError>)
        requires
            old(ed).wf(),
        ensures
            insert_post(*old(ed), *final(ed), r, before),
            final(ed).wf(),
    {
        let mut addr = match before {
            Some(a) => match Self::get_actual_line(ed, a) {
                Ok(v) => v,
                Err(er) => return Err(er),
            },
            None => ed.current_line,
        };
        // Insert after the previous line.
        if addr > 0 {
            addr = addr - 1;
        }
        ed.current_line = addr;
        ed.mode = Mode::Input;
        Ok(Action::Continue)
    }

    /// Switches to input mode so new text follows the resolved line.
    fn append(ed: &mut Red, after: Option<Address>) -> (r: Result<Action, RedError>)
        requires
            old(ed).wf(),
        ensures
            append_post(*old(ed), *final(ed), r, after),
            final(ed).wf(),
    {
        let addr = match after {
            Some(a) => match Self::get_actual_line(ed, a) {
                Ok(v) => v,
                Err(er) => return Err(er),
            },
            None => ed.current_line,
        };
        ed.current_line = addr;
        ed.mode = Mode::Input;
        Ok(Action::Continue)
    }

    /// Deletes the resolved range, then behaves as insert at the resulting
    /// cursor position.
    fn change(ed: &mut Red, start: Option<Address>, end: Option<Address>) -> (r: Result<
        Action,
        RedError,
    >)
        requires
            old(ed).wf(),
        ensures
            change_post(*old(ed), *final(ed), r, start, end),
            final(ed).wf(),
    {
        match Self::delete(ed, start, end) {
            Ok(_) => {},
            Err(er) => return Err(er),
        }
        let mut addr = ed.current_line;
        if addr > 0 {
            addr = addr - 1;
        }
        ed.current_line = addr;
        ed.mode = Mode::Input;
        ed.dirty = true;
        Ok(Action::Continue)
    }

    /// Asks for a reload of the buffer from the explicit or associated path.
    /// The buffer is discarded without a dirty check once the lines come
    /// back: a documented quirk of the interpreter, kept as it stands.
    fn edit(ed: &mut Red, file: Option<String>) -> (r: Result<Action, RedError>)
        ensures
            edit_post(*old(ed), *final(ed), r, opt_view(file)),
    {
        let path = match file {
            Some(p) => p,
            None => match &ed.path {
                Some(q) => q.clone(),
                None => return Err(RedError::NoFilename),
            },
        };
        Ok(Action::LoadFile { path, insert_at: None })
    }

    /// Asks for the lines of the explicit or associated path, to be spliced
    /// in after the resolved address.
    fn read(ed: &mut Red, after: Option<Address>, file: Option<String>) -> (r: Result<
        Action,
        RedError,
    >)
        ensures
            read_post(*old(ed), *final(ed), r, after, opt_view(file)),
    {
        let path = match file {
            Some(p) => p,
            None => match &ed.path {
                Some(q) => q.clone(),
                None => return Err(RedError::NoFilename),
            },
        };
        let addr = match after {
            Some(a) => match Self::get_actual_line(ed, a) {
                Ok(v) => v,
                Err(er) => return Err(er),
            },
            None => ed.current_line,
        };
        Ok(Action::LoadFile { path, insert_at: Some(addr) })
    }

    /// Hands the resolved range out to be written to the explicit or
    /// associated path; by default the whole buffer.
    fn write(
        ed: &mut Red,
        start: Option<Address>,
        end: Option<Address>,
        file: Option<String>,
    ) -> (r: Result<Action, RedError>)
        ensures
            write_cmd_post(*old(ed), *final(ed), r, start, end, opt_view(file)),
    {
        let path = match file {
            Some(p) => p,
            None => match &ed.path {
                Some(q) => q.clone(),
                None => return Ok(Action::Unknown),
            },
        };
        // By default, write the whole buffer.
        let (ds, de) = if start.is_none() && end.is_none() {
            (Some(Address::Numbered(1)), Some(Address::LastLine))
        } else {
            (start, end)
        };
        let (s, e) = match Self::resolve_range(ed, ds, de) {
            Ok(p) => p,
            Err(er) => return Err(er),
        };
        let mut lines: Vec<String> = Vec::new();
        let mut k: usize = 0;
        let count = e - s + 1;
        while k < count
            invariant
                *ed == *old(ed),
                1 <= s <= e <= ed.data@.len(),
                count == e - s + 1,
                k <= count,
                lines@.len() == k,
                forall|j: int| 0 <= j < k ==> lines@[j]@ == ed.data@[s - 1 + j]@,
            decreases count - k,
        {
            lines.push(ed.data[s - 1 + k].clone());
            k = k + 1;
        }
        proof {
            assert(views_of(lines@) =~= views_of(ed.data@.subrange(s - 1, e as int)));
        }
        Ok(Action::WriteFile { path, lines, last: e })
    }

    /// Moves the resolved range to follow the resolved destination line,
    /// preserving order; a destination inside the range is refused.
    fn move_lines(
        ed: &mut Red,
        start: Option<Address>,
        end: Option<Address>,
        dest: Address,
    ) -> (r: Result<Action, RedError>)
        requires
            old(ed).wf(),
        ensures
            move_post(*old(ed), *final(ed), r, start, end, dest),
            final(ed).wf(),
    {
        let d0 = match Self::get_actual_line(ed, dest) {
            Ok(v) => v,
            Err(er) => return Err(er),
        };
        let (s, e) = match Self::resolve_range(ed, start, end) {
            Ok(p) => p,
            Err(er) => return Err(er),
        };
        if s <= d0 && d0 <= e {
            return Err(RedError::InvalidDestination);
        }
        let ghost pre = ed.data@;
        let count = e - s + 1;
        let mut moved: Vec<String> = Vec::new();
        let mut k: usize = 0;
        while k < count
            invariant
                1 <= s <= e <= pre.len(),
                count == e - s + 1,
                k <= count,
                moved@ == pre.subrange(s - 1, s - 1 + k),
                ed.data@ == pre.subrange(0, s - 1) + pre.subrange(s - 1 + k, pre.len() as int),
                *ed == (Red { data: ed.data, ..*old(ed) }),
            decreases count - k,
        {
            let line = ed.data.remove(s - 1);
            moved.push(line);
            proof {
                assert(ed.data@ =~= pre.subrange(0, s - 1) + pre.subrange(
                    s + k,
                    pre.len() as int,
                ));
                assert(moved@ =~= pre.subrange(s - 1, s + k));
            }
            k = k + 1;
        }
        let landing = if d0 > e {
            d0 - count
        } else {
            d0
        };
        let cursor = splice_lines(&mut ed.data, landing, moved);
        ed.current_line = cursor;
        ed.dirty = true;
        Ok(Action::Continue)
    }

    /// Applies a `/pattern/replacement[/flags]` substitution to every line of
    /// the resolved range; only the recognized `g` flag (all occurrences per
    /// line over first only) is honoured. The cursor moves to the last
    /// changed line, which is printed; with no change at all the command
    /// fails. An empty pattern never matches.
    fn substitute(
        ed: &mut Red,
        start: Option<Address>,
        end: Option<Address>,
        arg: Option<String>,
    ) -> (r: Result<Action, RedError>)
        requires
            old(ed).wf(),
        ensures
            substitute_post(*old(ed), *final(ed), r, start, end, opt_view(arg)),
            final(ed).wf(),
    {
        let a = match &arg {
            None => return Err(RedError::NoPreviousSubstitution),
            Some(a) => a,
        };
        let (pat, rep, all) = match pattern::parse_subst(a.as_str()) {
            Some(t) => t,
            None => return Err(RedError::MissingDelimiter),
        };
        if pat.unicode_len() == 0 {
            return Err(RedError::NoMatch);
        }
        if !pattern::pattern_compiles(pat) {
            return Err(RedError::NoMatch);
        }
        let (s, e) = match Self::resolve_range(ed, start, end) {
            Ok(p) => p,
            Err(er) => return Err(er),
        };
        let ghost pre = ed.data@;
        let count = e - s + 1;
        let mut last_mod: usize = 0;
        let mut k: usize = 0;
        while k < count
            invariant
                valid_pattern(pat@),
                1 <= s <= e <= pre.len(),
                count == e - s + 1,
                k <= count,
                ed.data@.len() == pre.len(),
                forall|i: int|
                    s <= i < s + k ==> (#[trigger] ed.data@[i - 1])@ == sub_line(
                        pat@,
                        rep@,
                        all,
                        pre[i - 1]@,
                    ),
                forall|i: int|
                    0 <= i < pre.len() && !(s <= i + 1 < s + k) ==> #[trigger] ed.data@[i]
                        == pre[i],
                last_mod == last_changed(pre, s as int, s + k - 1, pat@, rep@, all),
                last_mod == 0 ==> *ed == *old(ed),
                *ed == (Red { data: ed.data, ..*old(ed) }),
            decreases count - k,
        {
            let i = s + k;
            let replaced = if all {
                pattern::replace_all(pat, rep, ed.data[i - 1].as_str())
            } else {
                pattern::replace_first(pat, rep, ed.data[i - 1].as_str())
            };
            let new_line = match replaced {
                Some(nl) => nl,
                None => unreached(),
            };
            if !(new_line == ed.data[i - 1]) {
                ed.data.set(i - 1, new_line);
                last_mod = i;
            }
            k = k + 1;
        }
        proof {
            lemma_last_changed(pre, s as int, e as int, pat@, rep@, all);
        }
        if last_mod == 0 {
            Err(RedError::NoMatch)
        } else {
            ed.dirty = true;
            match ed.set_line(last_mod) {
                Ok(_) => {},
                Err(_) => assert(false),
            }
            Self::print(ed, None, None)
        }
    }
}

} // verus!
