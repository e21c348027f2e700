//! The editor state: the owned line buffer plus cursor, dirty flag, mode and
//! associated path. It is only ever acted upon by the command executor.

use vstd::prelude::*;
use vstd::string::StrSliceExecFns;

use crate::commands::{spec_execute, Action, Command, Mode};
use crate::errors::RedError;
use crate::parser;
use crate::parser::spec_parse;
use crate::tokenizer;
use crate::tokenizer::{spec_tokenize, spec_trim};

verus! {

/// The content of a line sequence: each line as its sequence of characters.
/// Buffer contracts that survive copying (writing out, re-reading) are stated
/// over this, since a copied line is a fresh `String` with the same view.
pub open spec fn views_of(lines: Seq<String>) -> Seq<Seq<char>> {
    lines.map_values(|l: String| l@)
}

/// The size of a line sequence when written out: each line's length in
/// characters plus one for its terminating newline.
pub open spec fn spec_size(lines: Seq<String>) -> int
    decreases lines.len(),
{
    if lines.len() == 0 {
        0
    } else {
        spec_size(lines.drop_last()) + lines.last()@.len() + 1
    }
}

/// One command-mode line dispatched: what trimming, tokenizing, parsing and
/// executing it does to the editor and returns.
pub open spec fn command_post(
    pre: Red,
    post: Red,
    r: Result<Action, RedError>,
    line: Seq<char>,
) -> bool {
    match spec_parse(spec_tokenize(spec_trim(line))) {
        Some(sc) => spec_execute(sc, pre, post, r),
        None => post == pre && r == Err::<Action, RedError>(RedError::InvalidAddress),
    }
}

/// One input-mode line dispatched: a line of a single dot returns to command
/// mode and changes nothing else; any other line is inserted verbatim at the
/// cursor, which advances past it, and the buffer is dirty.
pub open spec fn input_post(
    pre: Red,
    post: Red,
    r: Result<Action, RedError>,
    line: Seq<char>,
) -> bool {
    if line.len() == 1 && line[0] == '.' {
        &&& post == (Red { mode: Mode::Command, ..pre })
        &&& r == Ok::<Action, RedError>(Action::Continue)
    } else {
        &&& post == (Red {
            data: post.data,
            current_line: (pre.current_line + 1) as usize,
            dirty: true,
            ..pre
        })
        &&& post.data@.len() == pre.data@.len() + 1
        &&& post.data@[pre.current_line as int]@ == line
        &&& (forall|i: int| 0 <= i < pre.current_line ==> #[trigger] post.data@[i] == pre.data@[i])
        &&& (forall|i: int|
            pre.current_line < i < post.data@.len() ==> #[trigger] post.data@[i] == pre.data@[i
                - 1])
        &&& r == Ok::<Action, RedError>(Action::Continue)
    }
}

/// The editor: an ordered, growable sequence of text lines (1-based at the
/// interface, 0-based storage), a cursor, a dirty flag, a mode and an
/// associated file path.
#[derive(Debug)]
pub struct Red {
    /// Text shown ahead of each command-mode input line.
    pub prompt: String,
    /// The current line, in `[0, len]`; `0` when the buffer is empty, and as
    /// an insertion point while entering input.
    pub current_line: usize,
    /// The line buffer. Lines are plain text, newline-free.
    pub data: Vec<String>,
    /// Command (parse input as commands) vs Input (append raw text).
    pub mode: Mode,
    /// Default target for write/edit/read commands.
    pub path: Option<String>,
    /// True once buffer content differs from the last successful write/load.
    pub dirty: bool,
    /// The most recent failure message, overwritten on each new failure.
    pub last_error: Option<String>,
}

impl Red {
    /// The cursor never points past the end of the buffer.
    pub open spec fn wf(self) -> bool {
        self.current_line <= self.data@.len()
    }

    /// A fresh editor: empty buffer, cursor at zero, command mode, clean.
    /// The caller that has a file to show loads its lines afterwards through
    /// [`Red::load_file`].
    pub fn new(prompt: String, path: Option<String>) -> (r: Red)
        ensures
            r.wf(),
            r.prompt == prompt,
            r.current_line == 0,
            r.data@ =~= Seq::<String>::empty(),
            r.mode == Mode::Command,
            r.path == path,
            r.dirty == false,
            r.last_error is None,
    {
        Red {
            prompt,
            current_line: 0,
            data: Vec::new(),
            mode: Mode::Command,
            path,
            dirty: false,
            last_error: None,
        }
    }

    /// The number of lines in the buffer.
    pub fn lines(&self) -> (r: usize)
        ensures
            r == self.data@.len(),
    {
        self.data.len()
    }

    /// The byte size of the buffer when written out, saturating at
    /// `usize::MAX`: the sum of each line's length plus one per newline.
    pub fn data_size(&self) -> (r: usize)
        ensures
            r == if spec_size(self.data@) <= usize::MAX {
                spec_size(self.data@)
            } else {
                usize::MAX as int
            },
    {
        let mut total: usize = 0;
        let mut i: usize = 0;
        while i < self.data.len()
            invariant
                i <= self.data@.len(),
                total == if spec_size(self.data@.subrange(0, i as int)) <= usize::MAX {
                    spec_size(self.data@.subrange(0, i as int))
                } else {
                    usize::MAX as int
                },
            decreases self.data@.len() - i,
        {
            let line_len = self.data[i].as_str().unicode_len();
            total = sat_add(sat_add(total, line_len), 1);
            proof {
                let pre = self.data@.subrange(0, i as int);
                let cur = self.data@.subrange(0, i + 1);
                assert(cur.drop_last() =~= pre);
                assert(cur.last() == self.data@[i as int]);
            }
            i = i + 1;
        }
        proof {
            assert(self.data@.subrange(0, self.data@.len() as int) =~= self.data@);
        }
        total
    }

    /// The line at a 1-based number, if it exists.
    pub fn get_line(&self, line: usize) -> (r: Option<&str>)
        ensures
            1 <= line <= self.data@.len() ==> r is Some && r->0@ == self.data@[line - 1]@,
            !(1 <= line <= self.data@.len()) ==> r is None,
    {
        if line > 0 && line <= self.data.len() {
            Some(self.data[line - 1].as_str())
        } else {
            None
        }
    }

    /// Moves the cursor to a 1-based line number; rejects zero and anything
    /// past the last line, leaving the editor untouched.
    pub fn set_line(&mut self, line: usize) -> (r: Result<(), RedError>)
        ensures
            1 <= line <= old(self).data@.len() ==> {
                &&& r is Ok
                &&& *final(self) == (Red { current_line: line, ..*old(self) })
            },
            !(1 <= line <= old(self).data@.len()) ==> {
                &&& r == Err::<(), RedError>(RedError::InvalidAddress)
                &&& *final(self) == *old(self)
            },
    {
        if line < 1 || line > self.data.len() {
            Err(RedError::InvalidAddress)
        } else {
            self.current_line = line;
            Ok(())
        }
    }

    /// Replaces the whole buffer with freshly loaded lines and adopts their
    /// path: the edit command's reload, and the initial load at startup. The
    /// cursor lands on the new last line and the buffer counts as clean.
    pub fn load_file(&mut self, path: String, data: Vec<String>)
        ensures
            *final(self) == (Red {
                path: Some(path),
                data,
                current_line: data@.len() as usize,
                dirty: false,
                ..*old(self)
            }),
            final(self).wf(),
    {
        let len = data.len();
        self.path = Some(path);
        self.data = data;
        self.current_line = len;
        self.dirty = false;
    }

    /// Splices freshly read lines into the buffer after 1-based line `at`
    /// (zero means before everything): the read command's second half. The
    /// cursor advances past the inserted block and the buffer is dirty.
    pub fn read_lines(&mut self, at: usize, lines: Vec<String>)
        requires
            at <= old(self).data@.len(),
        ensures
            *final(self) == (Red {
                data: final(self).data,
                current_line: (at + lines@.len()) as usize,
                dirty: true,
                ..*old(self)
            }),
            final(self).data@ == old(self).data@.subrange(0, at as int) + lines@ + old(
                self,
            ).data@.subrange(at as int, old(self).data@.len() as int),
            final(self).wf(),
    {
        let idx = splice_lines(&mut self.data, at, lines);
        self.current_line = idx;
        self.dirty = true;
    }

    /// Adopts the path and marks the buffer clean after its lines reached the
    /// file: the write command's second half. The cursor lands on the written
    /// range's final line, when that still names a line.
    pub fn finish_write(&mut self, path: String, last: usize)
        ensures
            *final(self) == (Red {
                path: Some(path),
                dirty: false,
                current_line: if 1 <= last <= old(self).data@.len() {
                    last
                } else {
                    old(self).current_line
                },
                ..*old(self)
            }),
    {
        self.path = Some(path);
        self.dirty = false;
        if 1 <= last && last <= self.data.len() {
            self.current_line = last;
        }
    }

    /// Tokenizes and parses one trimmed line into a command.
    fn parse_command(&self, line: &str) -> (r: Result<Command, RedError>)
        ensures
            spec_parse(spec_tokenize(line@)) matches Some(sc) ==> (r matches Ok(c) && c@ == sc),
            spec_parse(spec_tokenize(line@)) is None ==> r == Err::<Command, RedError>(
                RedError::InvalidAddress,
            ),
    {
        let tokens = match tokenizer::tokenize(line) {
            Ok(t) => t,
            Err(e) => return Err(e),
        };
        parser::parse(tokens.as_slice())
    }

    /// One command-mode line: trimmed, tokenized, parsed and executed.
    fn dispatch_command(&mut self, line: &str) -> (r: Result<Action, RedError>)
        requires
            old(self).wf(),
        ensures
            command_post(*old(self), *final(self), r, line@),
            final(self).wf(),
    {
        let trimmed = tokenizer::trim_blanks(line);
        let command = match self.parse_command(trimmed) {
            Ok(c) => c,
            Err(e) => return Err(e),
        };
        command.execute(self)
    }

    /// One input-mode line: a lone dot returns to command mode; anything else
    /// is inserted verbatim at the advancing insertion point.
    fn dispatch_input(&mut self, line: &str) -> (r: Result<Action, RedError>)
        requires
            old(self).wf(),
        ensures
            input_post(*old(self), *final(self), r, line@),
            final(self).wf(),
    {
        if line.unicode_len() == 1 && line.get_char(0) == '.' {
            self.mode = Mode::Command;
            return Ok(Action::Continue);
        }

        let idx = self.current_line;
        self.data.insert(idx, String::from_str(line));
        let grown = self.data.len();
        proof {
            assert(idx < grown);
        }
        self.current_line = idx + 1;
        self.dirty = true;

        Ok(Action::Continue)
    }

    /// Dispatches one raw input line by the current mode: a command to
    /// interpret, or text to append.
    pub fn dispatch(&mut self, line: &str) -> (r: Result<Action, RedError>)
        requires
            old(self).wf(),
        ensures
            old(self).mode == Mode::Command ==> command_post(*old(self), *final(self), r, line@),
            old(self).mode == Mode::Input ==> input_post(*old(self), *final(self), r, line@),
            final(self).wf(),
    {
        match self.mode {
            Mode::Command => self.dispatch_command(line),
            Mode::Input => self.dispatch_input(line),
        }
    }

    /// The text to show ahead of the next input line: the configured prompt
    /// in command mode, nothing while entering input.
    pub fn prompt(&self) -> (r: &str)
        ensures
            r@ == if self.mode == Mode::Input {
                ""@
            } else {
                self.prompt@
            },
    {
        match self.mode {
            Mode::Command => self.prompt.as_str(),
            Mode::Input => "",
        }
    }
}

/// Splices a block of lines into a buffer ahead of 0-based position `at`,
/// keeping their order, and returns the position one past the block.
pub(crate) fn splice_lines(data: &mut Vec<String>, at: usize, lines: Vec<String>) -> (r: usize)
    requires
        at <= old(data)@.len(),
    ensures
        final(data)@ == old(data)@.subrange(0, at as int) + lines@ + old(data)@.subrange(
            at as int,
            old(data)@.len() as int,
        ),
        r == at + lines@.len(),
{
    let ghost all = lines@;
    let ghost pre = data@;
    let mut idx = at;
    let mut rest = lines;
    while rest.len() > 0
        invariant
            at <= pre.len(),
            at <= idx,
            idx - at == all.len() - rest@.len(),
            rest@ == all.skip(idx - at),
            idx <= data@.len(),
            data@ == pre.subrange(0, at as int) + all.take(idx - at) + pre.subrange(
                at as int,
                pre.len() as int,
            ),
        decreases rest@.len(),
    {
        let ghost j = idx - at;
        proof {
            assert(rest@[0] == all.skip(j)[0]);
            assert(all.skip(j)[0] == all[j]);
        }
        let line = rest.remove(0);
        data.insert(idx, line);
        let grown = data.len();
        proof {
            assert(all.take(j + 1) =~= all.take(j).push(all[j]));
            assert(data@ =~= pre.subrange(0, at as int) + all.take(j + 1) + pre.subrange(
                at as int,
                pre.len() as int,
            ));
            assert(rest@ =~= all.skip(j + 1));
            assert(idx < grown);
        }
        idx = idx + 1;
    }
    proof {
        assert(all.take(idx - at) =~= all);
    }
    idx
}

/// Addition that stops at `usize::MAX` instead of overflowing.
fn sat_add(a: usize, b: usize) -> (r: usize)
    ensures
        r == if a + b <= usize::MAX { a + b } else { usize::MAX as int },
{
    if a <= usize::MAX - b {
        a + b
    } else {
        usize::MAX
    }
}

} // verus!
