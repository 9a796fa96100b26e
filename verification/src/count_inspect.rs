//! An observer that counts the bytes it is shown.

use vstd::prelude::*;
use std::io::Error;
use crate::inspect::{
    bytes_read_in, bytes_shown, bytes_shown_in_pieces, bytes_written_in, observed, replayed,
    shown_step, spans, vectored_effect, InspectRead, InspectWrite, Shown,
};
use crate::slicing::{attributed, covered, lemma_attributed_accounts};

verus! {

/// `n`, or `usize::MAX` where `n` is more: a count stops at the top and
/// never goes back.
pub open spec fn clamped(n: nat) -> nat {
    if n > usize::MAX {
        usize::MAX as nat
    } else {
        n
    }
}

/// An observer that adds up the bytes of every completed read and of every
/// completed write. Errors, flushes and shutdowns count nothing. It has no
/// vectored hook of its own: a vectored write is counted piece by piece.
#[derive(Debug)]
pub struct CountInspect {
    read: usize,
    written: usize,
}

impl CountInspect {
    /// The bytes read so far.
    pub closed spec fn read_count(self) -> nat {
        self.read as nat
    }

    /// The bytes written so far.
    pub closed spec fn written_count(self) -> nat {
        self.written as nat
    }

    /// An observer that has counted nothing.
    pub fn new() -> (observer: Self)
        ensures
            observer.read_count() == 0,
            observer.written_count() == 0,
    {
        CountInspect { read: 0, written: 0 }
    }

    /// The bytes read so far.
    pub fn bytes_read(&self) -> (count: usize)
        ensures
            count == self.read_count(),
    {
        self.read
    }

    /// The bytes written so far.
    pub fn bytes_written(&self) -> (count: usize)
        ensures
            count == self.written_count(),
    {
        self.written
    }

}

impl InspectRead for CountInspect {
    open spec fn read_step(pre: Self, seen: Result<Seq<u8>, Error>, post: Self) -> bool {
        &&& post.read_count() == clamped(pre.read_count() + bytes_shown(seen))
        &&& post.written_count() == pre.written_count()
    }

    /// Adds the bytes read to the count of bytes read.
    fn inspect_read(&mut self, value: Result<&[u8], &Error>) {
        match value {
            Ok(bytes) => {
                self.read = self.read.saturating_add(bytes.len());
            },
            Err(_) => {},
        }
    }
}

impl InspectWrite for CountInspect {
    open spec fn write_step(pre: Self, seen: Result<Seq<u8>, Error>, post: Self) -> bool {
        &&& post.written_count() == clamped(pre.written_count() + bytes_shown(seen))
        &&& post.read_count() == pre.read_count()
    }

    open spec fn flush_step(pre: Self, seen: Result<(), Error>, post: Self) -> bool {
        post == pre
    }

    open spec fn shutdown_step(pre: Self, seen: Result<(), Error>, post: Self) -> bool {
        post == pre
    }

    open spec fn vectored_step(pre: Self, seen: Result<Seq<Seq<u8>>, Error>, post: Self) -> bool {
        false
    }

    /// Adds the bytes written to the count of bytes written.
    fn inspect_write(&mut self, value: Result<&[u8], &Error>) {
        match value {
            Ok(bytes) => {
                self.written = self.written.saturating_add(bytes.len());
            },
            Err(_) => {},
        }
    }

    /// Counts nothing.
    fn inspect_flush(&mut self, value: Result<(), &Error>) {
    }

    /// Counts nothing.
    fn inspect_shutdown(&mut self, value: Result<(), &Error>) {
    }
}

proof fn lemma_replay_trace(trace: Seq<CountInspect>, shown: Seq<Seq<u8>>, k: int)
    requires
        trace.len() == shown.len() + 1,
        forall|j: int|
            0 <= j < shown.len() ==> CountInspect::write_step(
                trace[j],
                Ok(#[trigger] shown[j]),
                trace[j + 1],
            ),
        0 <= k <= shown.len(),
    ensures
        trace[k].written_count() == clamped(
            trace[0].written_count() + shown.take(k).flatten().len(),
        ),
        trace[k].read_count() == trace[0].read_count(),
    decreases k,
{
    if k == 0 {
        assert(shown.take(0) =~= Seq::<Seq<u8>>::empty());
    } else {
        lemma_replay_trace(trace, shown, k - 1);
        let piece = shown[k - 1];
        assert(CountInspect::write_step(trace[k - 1], Ok(piece), trace[k]));
        assert(shown.take(k) =~= shown.take(k - 1).push(piece));
        shown.take(k - 1).lemma_flatten_push(piece);
    }
}

/// A vectored write that is replayed through the write hook is counted in
/// full: the count of bytes written goes up by the bytes of all the pieces
/// together, and the count of bytes read stays.
pub proof fn lemma_replay_counts(
    pre: CountInspect,
    seen: Result<Seq<Seq<u8>>, Error>,
    post: CountInspect,
)
    requires
        replayed(pre, seen, post),
    ensures
        post.written_count() == clamped(pre.written_count() + bytes_shown_in_pieces(seen)),
        post.read_count() == pre.read_count(),
{
    match seen {
        Ok(shown) => {
            assert(seen->Ok_0 == shown);
            let trace = choose|trace: Seq<CountInspect>| #[trigger]
                spans(trace, pre, shown.len(), post) && forall|k: int|
                    0 <= k < shown.len() ==> CountInspect::write_step(
                        trace[k],
                        Ok(#[trigger] shown[k]),
                        trace[k + 1],
                    );
            lemma_replay_trace(trace, shown, shown.len() as int);
            assert(shown.take(shown.len() as int) =~= shown);
        },
        Err(error) => {
            assert(seen->Err_0 == error);
        },
    }
}

/// A vectored write is counted by what went out: where the observer is
/// shown the pieces that a total of `len` bytes is attributed to, its count
/// of bytes written goes up by `len`, or by all that the buffers hold where
/// `len` is more.
pub proof fn lemma_attributed_counts(
    pre: CountInspect,
    bufs: Seq<Seq<u8>>,
    len: nat,
    post: CountInspect,
)
    requires
        vectored_effect(pre, Ok(attributed(bufs, len)), post),
    ensures
        post.written_count() == clamped(pre.written_count() + covered(bufs.flatten(), len).len()),
        post.read_count() == pre.read_count(),
{
    lemma_replay_counts(pre, Ok(attributed(bufs, len)), post);
    lemma_attributed_accounts(bufs, len);
}

proof fn lemma_history_trace(trace: Seq<CountInspect>, history: Seq<Shown>, k: int)
    requires
        trace.len() == history.len() + 1,
        forall|j: int|
            0 <= j < history.len() ==> shown_step(trace[j], #[trigger] history[j], trace[j + 1]),
        0 <= k <= history.len(),
    ensures
        trace[k].read_count() == clamped(trace[0].read_count() + bytes_read_in(history.take(k))),
        trace[k].written_count() == clamped(
            trace[0].written_count() + bytes_written_in(history.take(k)),
        ),
    decreases k,
{
    if k == 0 {
        assert(history.take(0) =~= Seq::<Shown>::empty());
    } else {
        lemma_history_trace(trace, history, k - 1);
        let last = history[k - 1];
        assert(shown_step(trace[k - 1], last, trace[k]));
        assert(history.take(k).drop_last() =~= history.take(k - 1));
        assert(history.take(k).last() == last);
        match last {
            Shown::WriteVectored(seen) => {
                lemma_replay_counts(trace[k - 1], seen, trace[k]);
            },
            _ => {},
        }
    }
}

/// The counts hold exactly what was shown: after any history, the count of
/// bytes read has gone up by all the bytes read in it and the count of bytes
/// written by all the bytes written in it, with nothing for an error, a
/// flush or a shutdown.
pub proof fn lemma_history_counts(pre: CountInspect, history: Seq<Shown>, post: CountInspect)
    requires
        observed(pre, history, post),
    ensures
        post.read_count() == clamped(pre.read_count() + bytes_read_in(history)),
        post.written_count() == clamped(pre.written_count() + bytes_written_in(history)),
{
    let trace = choose|trace: Seq<CountInspect>| #[trigger]
        spans(trace, pre, history.len(), post) && forall|k: int|
            0 <= k < history.len() ==> shown_step(trace[k], #[trigger] history[k], trace[k + 1]);
    lemma_history_trace(trace, history, history.len() as int);
    assert(history.take(history.len() as int) =~= history);
}

/// The observers on the two ends of one connection agree: where all that
/// one end wrote is what the other end read, the writer's count of bytes
/// written is the reader's count of bytes read.
pub proof fn lemma_observers_agree(
    writer: CountInspect,
    written: Seq<Shown>,
    writer_after: CountInspect,
    reader: CountInspect,
    read: Seq<Shown>,
    reader_after: CountInspect,
)
    requires
        writer.written_count() == 0,
        reader.read_count() == 0,
        observed(writer, written, writer_after),
        observed(reader, read, reader_after),
        bytes_written_in(written) == bytes_read_in(read),
    ensures
        writer_after.written_count() == reader_after.read_count(),
{
    lemma_history_counts(writer, written, writer_after);
    lemma_history_counts(reader, read, reader_after);
}

} // verus!
