//! An observer that puts each event into a line of text.
//!
//! The lines are queued, each marked for the standard output or for the
//! standard error, and the owner prints them when it sees fit: this crate
//! does no output of its own.

use vstd::prelude::*;
use vstd::string::*;
use std::io::Error;
use crate::count_inspect::clamped;
use crate::inspect::{InspectRead, InspectWrite};

verus! {

/// The decimal digit for `d`.
pub open spec fn digit(d: nat) -> char {
    if d == 0 {
        '0'
    } else if d == 1 {
        '1'
    } else if d == 2 {
        '2'
    } else if d == 3 {
        '3'
    } else if d == 4 {
        '4'
    } else if d == 5 {
        '5'
    } else if d == 6 {
        '6'
    } else if d == 7 {
        '7'
    } else if d == 8 {
        '8'
    } else {
        '9'
    }
}

/// The decimal numeral for `n`, without leading zeros.
pub open spec fn digits(n: nat) -> Seq<char>
    decreases n,
{
    if n < 10 {
        seq![digit(n)]
    } else {
        digits(n / 10).push(digit(n % 10))
    }
}

fn digit_text(d: usize) -> (text: &'static str)
    requires
        d < 10,
    ensures
        text@ == seq![digit(d as nat)],
{
    proof {
        reveal_strlit("0");
        reveal_strlit("1");
        reveal_strlit("2");
        reveal_strlit("3");
        reveal_strlit("4");
        reveal_strlit("5");
        reveal_strlit("6");
        reveal_strlit("7");
        reveal_strlit("8");
        reveal_strlit("9");
    }
    let text = if d == 0 {
        "0"
    } else if d == 1 {
        "1"
    } else if d == 2 {
        "2"
    } else if d == 3 {
        "3"
    } else if d == 4 {
        "4"
    } else if d == 5 {
        "5"
    } else if d == 6 {
        "6"
    } else if d == 7 {
        "7"
    } else if d == 8 {
        "8"
    } else {
        "9"
    };
    assert(text@ =~= seq![digit(d as nat)]);
    text
}

/// Writes `n` as a decimal numeral.
pub fn decimal(n: usize) -> (text: String)
    ensures
        text@ == digits(n as nat),
    decreases n,
{
    if n < 10 {
        String::from_str(digit_text(n))
    } else {
        let mut text = decimal(n / 10);
        text.append(digit_text(n % 10));
        assert(text@ =~= digits(n as nat));
        text
    }
}

/// One line of text, for the standard output or for the standard error.
#[derive(Debug)]
pub enum Line {
    /// A line for the standard output.
    Stdout(String),
    /// A line for the standard error.
    Stderr(String),
}

impl Line {
    /// Whether the line is for the standard error, and its characters.
    pub open spec fn shape(self) -> (bool, Seq<char>) {
        match self {
            Line::Stdout(text) => (false, text@),
            Line::Stderr(text) => (true, text@),
        }
    }
}

/// What one event looks like as a line. `seen` is how the operation named
/// `label` ended: with a byte count, with nothing to count, or with an error.
/// A success is the label, then a colon, a space and the count where there is
/// one, for the standard output. A failure is the label, a colon, a space and
/// the error's own text, as its `Display` gives it, for the standard error.
pub open spec fn rendered(label: Seq<char>, seen: Result<Option<nat>, Error>, line: (
    bool,
    Seq<char>,
)) -> bool {
    match seen {
        Ok(None) => line == (false, label),
        Ok(Some(count)) => line == (false, label + ": "@ + digits(count)),
        Err(error) => line.0 && exists|shown: String| #[trigger]
            to_string_from_display_ensures::<Error>(&error, shown) && line.1 == label + ": "@
                + shown@,
    }
}

/// Puts one event into a line.
pub fn render(label: &str, seen: Result<Option<usize>, &Error>) -> (line: Line)
    ensures
        rendered(
            label@,
            match seen {
                Ok(Some(count)) => Ok(Some(count as nat)),
                Ok(None) => Ok(None),
                Err(error) => Err(*error),
            },
            line.shape(),
        ),
{
    let mut text = String::from_str(label);
    match seen {
        Ok(None) => Line::Stdout(text),
        Ok(Some(count)) => {
            text.append(": ");
            let number = decimal(count);
            text.append(number.as_str());
            assert(text@ =~= label@ + ": "@ + digits(count as nat));
            Line::Stdout(text)
        },
        Err(error) => {
            text.append(": ");
            let shown = error.to_string();
            text.append(shown.as_str());
            assert(to_string_from_display_ensures::<Error>(error, shown) && text@ =~= label@
                + ": "@ + shown@);
            assert(Err::<Option<nat>, Error>(*error)->Err_0 == *error);
            Line::Stderr(text)
        },
    }
}

/// The count that an event of bytes is rendered with: how many bytes, or no
/// count for an error.
pub open spec fn counted(seen: Result<Seq<u8>, Error>) -> Result<Option<nat>, Error> {
    match seen {
        Ok(bytes) => Ok(Some(bytes.len())),
        Err(error) => Err(error),
    }
}

/// The count that a flush or a shutdown is rendered with: none.
pub open spec fn uncounted(seen: Result<(), Error>) -> Result<Option<nat>, Error> {
    match seen {
        Ok(_) => Ok(None),
        Err(error) => Err(error),
    }
}

/// The count that a vectored write is rendered with: the bytes of all its
/// pieces together, or the largest count there is where they are more.
pub open spec fn counted_pieces(seen: Result<Seq<Seq<u8>>, Error>) -> Result<Option<nat>, Error> {
    match seen {
        Ok(shown) => Ok(Some(clamped(shown.flatten().len()))),
        Err(error) => Err(error),
    }
}

/// Adds up the lengths of `slices`, stopping at `usize::MAX`.
pub fn total_len(slices: &[&[u8]]) -> (total: usize)
    ensures
        total == clamped(crate::slicing::pieces(slices@).flatten().len()),
{
    let ghost shown = crate::slicing::pieces(slices@);
    let mut total: usize = 0;
    let mut i: usize = 0;
    while i < slices.len()
        invariant
            i <= slices.len(),
            shown == crate::slicing::pieces(slices@),
            total == clamped(shown.take(i as int).flatten_alt().len()),
        decreases slices.len() - i,
    {
        proof {
            let done = shown.take(i + 1);
            assert(done.drop_last() =~= shown.take(i as int));
            assert(done.last() == slices[i as int]@);
        }
        total = total.saturating_add(slices[i].len());
        i = i + 1;
    }
    proof {
        assert(shown.take(i as int) =~= shown);
        shown.lemma_flatten_and_flatten_alt_are_equivalent();
    }
    total
}

/// An observer that renders every event as a line and queues the lines.
#[derive(Debug)]
pub struct PrintInspect {
    lines: Vec<Line>,
}

impl PrintInspect {
    /// The queued lines, oldest first: for each, whether it is for the
    /// standard error, and its characters.
    pub closed spec fn queued(self) -> Seq<(bool, Seq<char>)> {
        self.lines@.map_values(|line: Line| line.shape())
    }

    /// An observer with nothing queued.
    pub fn new() -> (observer: Self)
        ensures
            observer.queued() == Seq::<(bool, Seq<char>)>::empty(),
    {
        let observer = PrintInspect { lines: Vec::new() };
        assert(observer.queued() =~= Seq::<(bool, Seq<char>)>::empty());
        observer
    }

    /// Hands out the queued lines, oldest first, and leaves the queue empty.
    pub fn take_lines(&mut self) -> (lines: Vec<Line>)
        ensures
            lines@.map_values(|line: Line| line.shape()) == old(self).queued(),
            final(self).queued() == Seq::<(bool, Seq<char>)>::empty(),
    {
        let mut lines: Vec<Line> = Vec::new();
        core::mem::swap(&mut lines, &mut self.lines);
        assert(self.queued() =~= Seq::<(bool, Seq<char>)>::empty());
        lines
    }

    /// Ends the observer: the queued lines, oldest first, and after them the
    /// line `drop`, which closes the account of one stream.
    pub fn close(self) -> (lines: Vec<Line>)
        ensures
            lines@.map_values(|line: Line| line.shape()) == self.queued().push(
                (false, "drop"@),
            ),
    {
        let mut lines = self.lines;
        let last = Line::Stdout(String::from_str("drop"));
        lines.push(last);
        assert(lines@.map_values(|line: Line| line.shape()) =~= self.queued().push(
            (false, "drop"@),
        ));
        lines
    }

    fn queue(&mut self, line: Line)
        ensures
            final(self).queued() == old(self).queued().push(line.shape()),
    {
        self.lines.push(line);
        assert(self.queued() =~= old(self).queued().push(line.shape()));
    }
}

/// `post` is `pre` with one more line queued: the rendering of `seen` under
/// `label`.
pub open spec fn queued_one(
    pre: PrintInspect,
    label: Seq<char>,
    seen: Result<Option<nat>, Error>,
    post: PrintInspect,
) -> bool {
    &&& post.queued().len() == pre.queued().len() + 1
    &&& post.queued().drop_last() == pre.queued()
    &&& rendered(label, seen, post.queued().last())
}

impl InspectRead for PrintInspect {
    open spec fn read_step(pre: Self, seen: Result<Seq<u8>, Error>, post: Self) -> bool {
        queued_one(pre, "read"@, counted(seen), post)
    }

    /// Queues `read: ` and the number of bytes read, or the error.
    fn inspect_read(&mut self, value: Result<&[u8], &Error>)
    {
        let line = match value {
            Ok(bytes) => render("read", Ok(Some(bytes.len()))),
            Err(error) => render("read", Err(error)),
        };
        self.queue(line);
        assert(self.queued().drop_last() =~= old(self).queued());
    }
}

impl InspectWrite for PrintInspect {
    open spec fn write_step(pre: Self, seen: Result<Seq<u8>, Error>, post: Self) -> bool {
        queued_one(pre, "write"@, counted(seen), post)
    }

    open spec fn flush_step(pre: Self, seen: Result<(), Error>, post: Self) -> bool {
        queued_one(pre, "flush"@, uncounted(seen), post)
    }

    open spec fn shutdown_step(pre: Self, seen: Result<(), Error>, post: Self) -> bool {
        queued_one(pre, "shutdown"@, uncounted(seen), post)
    }

    open spec fn vectored_step(pre: Self, seen: Result<Seq<Seq<u8>>, Error>, post: Self) -> bool {
        queued_one(pre, "write_vectored"@, counted_pieces(seen), post)
    }

    /// Queues `write: ` and the number of bytes written, or the error.
    fn inspect_write(&mut self, value: Result<&[u8], &Error>)
    {
        let line = match value {
            Ok(bytes) => render("write", Ok(Some(bytes.len()))),
            Err(error) => render("write", Err(error)),
        };
        self.queue(line);
        assert(self.queued().drop_last() =~= old(self).queued());
    }

    /// Queues `flush`, or the error.
    fn inspect_flush(&mut self, value: Result<(), &Error>)
    {
        let line = match value {
            Ok(_) => render("flush", Ok(None)),
            Err(error) => render("flush", Err(error)),
        };
        self.queue(line);
        assert(self.queued().drop_last() =~= old(self).queued());
    }

    /// Queues `shutdown`, or the error.
    fn inspect_shutdown(&mut self, value: Result<(), &Error>)
    {
        let line = match value {
            Ok(_) => render("shutdown", Ok(None)),
            Err(error) => render("shutdown", Err(error)),
        };
        self.queue(line);
        assert(self.queued().drop_last() =~= old(self).queued());
    }

    /// Queues one line for the whole vectored write: `write_vectored: ` and
    /// the number of bytes in all its pieces, or the error.
    fn inspect_write_vectored(&mut self, value: Result<&[&[u8]], &Error>)
    {
        let line = match value {
            Ok(slices) => render("write_vectored", Ok(Some(total_len(slices)))),
            Err(error) => render("write_vectored", Err(error)),
        };
        self.queue(line);
        assert(self.queued().drop_last() =~= old(self).queued());
    }
}

} // verus!
