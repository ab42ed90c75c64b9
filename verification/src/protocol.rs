//! The line protocol spoken with a bot worker: the loading handshake
//! (`READY` / `ERROR ...`), and move replies (`move: <uci>` / `ERROR ...`).

use vstd::prelude::*;
use vstd::utf8::encode_utf8;
use crate::text::{
    all_white_space, chars_of, has_prefix, lemma_trimmed_ignores_white_space, push_str, range_has_prefix, string_of_range, trim_bounds, trimmed,
};

verus! {

/// Prefix of a move reply.
pub open spec fn move_tag() -> Seq<char> {
    seq!['m', 'o', 'v', 'e', ':']
}

/// Prefix of an error report.
pub open spec fn error_tag() -> Seq<char> {
    seq!['E', 'R', 'R', 'O', 'R']
}

/// The handshake line that ends loading.
pub open spec fn ready_word() -> Seq<char> {
    seq!['R', 'E', 'A', 'D', 'Y']
}

/// What a worker line says: `Some(Ok(uci))` for a move, `Some(Err(line))`
/// for an error report, `None` for anything else.
pub open spec fn move_line_meaning(line: Seq<char>) -> Option<Result<Seq<char>, Seq<char>>> {
    let t = trimmed(line);
    if has_prefix(t, move_tag()) {
        Some(Ok(trimmed(t.skip(move_tag().len() as int))))
    } else if has_prefix(t, error_tag()) {
        Some(Err(t))
    } else {
        None
    }
}

/// White space around a line from a worker does not change what it means,
/// and a line means what its trimmed form means.
pub proof fn lemma_move_line_ignores_white_space(a: Seq<char>, line: Seq<char>, b: Seq<char>)
    requires
        all_white_space(a),
        all_white_space(b),
    ensures
        move_line_meaning(a + line + b) == move_line_meaning(line),
        move_line_meaning(trimmed(line)) == move_line_meaning(line),
{
    lemma_trimmed_ignores_white_space(a, line, b);
}

/// The view of a parsed reply.
pub open spec fn reply_view(r: Option<Result<String, String>>) -> Option<Result<Seq<char>, Seq<char>>> {
    match r {
        Some(Ok(s)) => Some(Ok(s@)),
        Some(Err(s)) => Some(Err(s@)),
        None => None,
    }
}

fn move_tag_chars() -> (v: Vec<char>)
    ensures
        v@ == move_tag(),
{
    let v = vec!['m', 'o', 'v', 'e', ':'];
    assert(v@ =~= move_tag());
    v
}

fn error_tag_chars() -> (v: Vec<char>)
    ensures
        v@ == error_tag(),
{
    let v = vec!['E', 'R', 'R', 'O', 'R'];
    assert(v@ =~= error_tag());
    v
}

/// Reads one line of worker output: a move (`move: e2e4`), an error report
/// (`ERROR ...`, kept whole), or `None` for any other line.
pub fn parse_move_line(line: &str) -> (r: Option<Result<String, String>>)
    ensures
        reply_view(r) == move_line_meaning(line@),
{
    let cs = chars_of(line);
    assert(cs@.subrange(0, cs@.len() as int) =~= cs@);
    let (a, b) = trim_bounds(&cs, 0, cs.len());
    let ghost t = cs@.subrange(a as int, b as int);
    let mtag = move_tag_chars();
    if range_has_prefix(&cs, a, b, &mtag) {
        let (c, d) = trim_bounds(&cs, a + 5, b);
        assert(t.skip(5) =~= cs@.subrange(a + 5, b as int));
        Some(Ok(string_of_range(&cs, c, d)))
    } else if range_has_prefix(&cs, a, b, &error_tag_chars()) {
        Some(Err(string_of_range(&cs, a, b)))
    } else {
        None
    }
}


/// Something that happened while waiting for a line from a worker.
#[derive(Debug, PartialEq, Eq)]
pub enum LineEvent {
    /// A line was read, as read (with its end).
    Line(String),
    /// The worker closed its output.
    Closed,
    /// Reading failed; the error's text.
    ReadError(String),
    /// The deadline passed.
    TimedOut,
}

/// What the loading handshake does after an event.
#[derive(Debug, PartialEq, Eq)]
pub enum LoadingStep {
    /// The worker is ready for positions.
    Ready,
    /// Keep reading.
    Waiting,
    /// Loading failed; the reason, and the worker's error line when it sent one.
    Failed { reason: String, reported: Option<String> },
}

/// The view of a loading step: `Some(Ok(()))` ready, `None` waiting,
/// `Some(Err((reason, reported)))` failed.
pub open spec fn loading_view(s: LoadingStep) -> Option<Result<(), (Seq<char>, Option<Seq<char>>)>> {
    match s {
        LoadingStep::Ready => Some(Ok(())),
        LoadingStep::Waiting => None,
        LoadingStep::Failed { reason, reported } => Some(
            Err(
                (
                    reason@,
                    match reported {
                        Some(r) => Some(r@),
                        None => None,
                    },
                ),
            ),
        ),
    }
}

/// The meaning of an event during the loading handshake.
pub open spec fn loading_meaning(e: LineEvent) -> Option<Result<(), (Seq<char>, Option<Seq<char>>)>> {
    match e {
        LineEvent::Line(l) => {
            let t = trimmed(l@);
            if t == ready_word() {
                Some(Ok(()))
            } else if has_prefix(t, error_tag()) {
                Some(Err(("worker failed to load"@, Some(t))))
            } else {
                None
            }
        },
        LineEvent::Closed => Some(Err(("worker exited before READY"@, None))),
        LineEvent::ReadError(e) => Some(Err(("read error while loading worker: "@ + e@, None))),
        LineEvent::TimedOut => Some(Err(("worker code took too long to load"@, None))),
    }
}

fn ready_chars() -> (v: Vec<char>)
    ensures
        v@ == ready_word(),
{
    let v = vec!['R', 'E', 'A', 'D', 'Y'];
    assert(v@ =~= ready_word());
    v
}

/// One step of the loading handshake: after its code is uploaded a worker
/// prints `READY`, or a line starting with `ERROR` when the code failed to
/// load; other lines are skipped.
pub fn loading_step(e: LineEvent) -> (s: LoadingStep)
    ensures
        loading_view(s) == loading_meaning(e),
{
    match e {
        LineEvent::Line(l) => {
            let cs = chars_of(l.as_str());
            assert(cs@.subrange(0, cs@.len() as int) =~= cs@);
            let (a, b) = trim_bounds(&cs, 0, cs.len());
            let ready = ready_chars();
            if b - a == 5 && range_has_prefix(&cs, a, b, &ready) {
                assert(cs@.subrange(a as int, b as int) =~= cs@.subrange(a as int, b as int).subrange(0, 5));
                LoadingStep::Ready
            } else if range_has_prefix(&cs, a, b, &error_tag_chars()) {
                proof {
                    if cs@.subrange(a as int, b as int) == ready_word() {
                        assert(b - a == 5);
                    }
                }
                LoadingStep::Failed {
                    reason: String::from_str("worker failed to load"),
                    reported: Some(string_of_range(&cs, a, b)),
                }
            } else {
                proof {
                    if cs@.subrange(a as int, b as int) == ready_word() {
                        assert(b - a == 5);
                        assert(cs@.subrange(a as int, b as int).subrange(0, 5) =~= ready_word());
                    }
                }
                LoadingStep::Waiting
            }
        },
        LineEvent::Closed => LoadingStep::Failed {
            reason: String::from_str("worker exited before READY"),
            reported: None,
        },
        LineEvent::ReadError(err) => {
            let mut reason = String::from_str("read error while loading worker: ");
            push_str(&mut reason, err.as_str());
            LoadingStep::Failed { reason, reported: None }
        },
        LineEvent::TimedOut => LoadingStep::Failed {
            reason: String::from_str("worker code took too long to load"),
            reported: None,
        },
    }
}


/// Most lines read while waiting for one move.
pub const MAX_REPLY_LINES: usize = 10;

/// Longest line accepted from a worker, in bytes.
pub const MAX_LINE_BYTES: usize = 1_000_000;

/// What reading a move does after an event.
#[derive(Debug, PartialEq, Eq)]
pub enum ReadStep {
    /// The worker sent this move (UCI text, trimmed).
    Move(String),
    /// Read the next line.
    NextLine,
    /// No move comes from the worker; why.
    Failed(String),
}

/// The view of a read step: `Some(Ok(uci))`, `Some(Err(reason))`, or `None`
/// to read on.
pub open spec fn read_view(s: ReadStep) -> Option<Result<Seq<char>, Seq<char>>> {
    match s {
        ReadStep::Move(u) => Some(Ok(u@)),
        ReadStep::Failed(r) => Some(Err(r@)),
        ReadStep::NextLine => None,
    }
}

/// The meaning of the `n`-th line (from 1) read while waiting for a move.
pub open spec fn reply_line_meaning(line: Seq<char>, n: nat) -> Option<Result<Seq<char>, Seq<char>>> {
    if encode_utf8(line).len() as usize > MAX_LINE_BYTES {
        Some(Err("line too large"@))
    } else {
        match move_line_meaning(line) {
            Some(r) => Some(r),
            None => if n >= MAX_REPLY_LINES {
                Some(Err("Bot has outputed too many lines"@))
            } else {
                None
            },
        }
    }
}

/// Reads the move of a worker: skips lines that are neither a move nor an
/// error report, up to ten lines.
pub struct MoveReader {
    lines: usize,
}

impl MoveReader {
    /// Lines read so far.
    pub closed spec fn lines_read(&self) -> nat {
        self.lines as nat
    }

    /// A reader that has read nothing.
    pub fn new() -> (r: MoveReader)
        ensures
            r.lines_read() == 0,
    {
        MoveReader { lines: 0 }
    }

    /// One event while waiting for a move. A reader never asks for more than
    /// ten lines.
    pub fn on_event(&mut self, e: LineEvent) -> (s: ReadStep)
        requires
            old(self).lines_read() < MAX_REPLY_LINES,
        ensures
            s is NextLine ==> final(self).lines_read() < MAX_REPLY_LINES,
            match e {
                LineEvent::Line(l) => final(self).lines_read() == old(self).lines_read() + 1
                    && read_view(s) == reply_line_meaning(l@, final(self).lines_read()),
                LineEvent::Closed => final(self).lines_read() == old(self).lines_read()
                    && read_view(s) == Some(Err::<Seq<char>, Seq<char>>("Bot exited"@)),
                LineEvent::ReadError(_) => final(self).lines_read() == old(self).lines_read()
                    && read_view(s) == Some(Err::<Seq<char>, Seq<char>>("failed to read a line"@)),
                LineEvent::TimedOut => final(self).lines_read() == old(self).lines_read()
                    && read_view(s) == Some(Err::<Seq<char>, Seq<char>>("took too long to respond"@)),
            },
    {
        match e {
            LineEvent::Line(l) => {
                self.lines = self.lines + 1;
                if l.as_str().len() > MAX_LINE_BYTES {
                    return ReadStep::Failed(String::from_str("line too large"));
                }
                match parse_move_line(l.as_str()) {
                    Some(Ok(u)) => ReadStep::Move(u),
                    Some(Err(m)) => ReadStep::Failed(m),
                    None => {
                        if self.lines >= MAX_REPLY_LINES {
                            ReadStep::Failed(String::from_str("Bot has outputed too many lines"))
                        } else {
                            ReadStep::NextLine
                        }
                    },
                }
            },
            LineEvent::Closed => ReadStep::Failed(String::from_str("Bot exited")),
            LineEvent::ReadError(_) => ReadStep::Failed(String::from_str("failed to read a line")),
            LineEvent::TimedOut => ReadStep::Failed(String::from_str("took too long to respond")),
        }
    }
}

} // verus!
