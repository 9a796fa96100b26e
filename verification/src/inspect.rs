//! The observers: what a stream's owner implements to be shown its traffic.
//!
//! A hook is a notification. It returns nothing, and it cannot change what
//! the caller of the stream gets.
//!
//! Each hook has a step relation beside it, in which the observer says what
//! one call of the hook does to it. The stream's side promises in turn that a
//! completed operation has taken the observer through exactly that step, on
//! exactly what was transferred. An observer that does not care about an
//! event writes the hook with an empty body and the step that leaves it as it
//! was. Only the vectored hook comes with a body: the replay of the pieces
//! through the write hook.
//!
//! A step that is not stated is `true`: it says nothing. That is what holds
//! of an observer written outside this crate's proofs, which has no way to
//! state one.

use vstd::prelude::*;
use std::io::Error;
use crate::slicing::pieces;

verus! {

/// What a read or write hook is shown: the bytes that were moved, or the
/// error.
pub open spec fn seen_bytes(value: Result<&[u8], &Error>) -> Result<Seq<u8>, Error> {
    match value {
        Ok(bytes) => Ok(bytes@),
        Err(error) => Err(*error),
    }
}

/// What a flush or shutdown hook is shown: that it was done, or the error.
pub open spec fn seen_done(value: Result<(), &Error>) -> Result<(), Error> {
    match value {
        Ok(_) => Ok(()),
        Err(error) => Err(*error),
    }
}

/// What a vectored-write hook is shown: the pieces that went out, in order,
/// or the error.
pub open spec fn seen_pieces(value: Result<&[&[u8]], &Error>) -> Result<Seq<Seq<u8>>, Error> {
    match value {
        Ok(slices) => Ok(pieces(slices@)),
        Err(error) => Err(*error),
    }
}

/// An observer of reads.
pub trait InspectRead: Sized {
    /// What one call of [`inspect_read`](InspectRead::inspect_read) on `seen`
    /// turns the observer `pre` into.
    open spec fn read_step(pre: Self, seen: Result<Seq<u8>, Error>, post: Self) -> bool {
        true
    }

    /// Shown each completed read: the bytes that were read, or the error.
    /// The end of the stream is a read of no bytes, not an error.
    fn inspect_read(&mut self, value: Result<&[u8], &Error>)
        ensures
            Self::read_step(*old(self), seen_bytes(value), *final(self)),
    ;
}

/// An observer of writes, flushes and shutdowns.
pub trait InspectWrite: Sized {
    /// What one call of [`inspect_write`](InspectWrite::inspect_write) on
    /// `seen` turns the observer `pre` into.
    open spec fn write_step(pre: Self, seen: Result<Seq<u8>, Error>, post: Self) -> bool {
        true
    }

    /// What one call of [`inspect_flush`](InspectWrite::inspect_flush) on
    /// `seen` turns the observer `pre` into.
    open spec fn flush_step(pre: Self, seen: Result<(), Error>, post: Self) -> bool {
        true
    }

    /// What one call of [`inspect_shutdown`](InspectWrite::inspect_shutdown)
    /// on `seen` turns the observer `pre` into.
    open spec fn shutdown_step(pre: Self, seen: Result<(), Error>, post: Self) -> bool {
        true
    }

    /// What one call of
    /// [`inspect_write_vectored`](InspectWrite::inspect_write_vectored) on
    /// `seen` turns the observer `pre` into, where the observer has a
    /// vectored hook of its own. An observer that has none, and so replays
    /// the pieces through its write hook, states `false` here.
    open spec fn vectored_step(pre: Self, seen: Result<Seq<Seq<u8>>, Error>, post: Self) -> bool {
        true
    }

    /// Shown each completed write: the bytes that were written, which may be
    /// fewer than were offered, or the error.
    fn inspect_write(&mut self, value: Result<&[u8], &Error>)
        ensures
            Self::write_step(*old(self), seen_bytes(value), *final(self)),
    ;

    /// Shown each completed flush.
    fn inspect_flush(&mut self, value: Result<(), &Error>)
        ensures
            Self::flush_step(*old(self), seen_done(value), *final(self)),
    ;

    /// Shown each completed shutdown.
    fn inspect_shutdown(&mut self, value: Result<(), &Error>)
        ensures
            Self::shutdown_step(*old(self), seen_done(value), *final(self)),
    ;

    /// Shown each completed vectored write: the pieces that went out, in
    /// order, or the error. By default the pieces are replayed one by one
    /// through [`inspect_write`](InspectWrite::inspect_write), and so is the
    /// error.
    fn inspect_write_vectored(&mut self, value: Result<&[&[u8]], &Error>)
        ensures
            Self::vectored_step(*old(self), seen_pieces(value), *final(self)) || match seen_pieces(
                value,
            ) {
                Ok(shown) => exists|trace: Seq<Self>| #[trigger]
                    spans(trace, *old(self), shown.len(), *final(self)) && forall|k: int|
                        0 <= k < shown.len() ==> Self::write_step(
                            trace[k],
                            Ok(#[trigger] shown[k]),
                            trace[k + 1],
                        ),
                Err(error) => Self::write_step(*old(self), Err(error), *final(self)),
            },
        default_ensures
            match seen_pieces(value) {
                Ok(shown) => exists|trace: Seq<Self>| #[trigger]
                    spans(trace, *old(self), shown.len(), *final(self)) && forall|k: int|
                        0 <= k < shown.len() ==> Self::write_step(
                            trace[k],
                            Ok(#[trigger] shown[k]),
                            trace[k + 1],
                        ),
                Err(error) => Self::write_step(*old(self), Err(error), *final(self)),
            },
    {
        match value {
            Ok(slices) => {
                let ghost shown = pieces(slices@);
                let ghost mut trace: Seq<Self> = seq![*self];
                let mut i: usize = 0;
                while i < slices.len()
                    invariant
                        i <= slices.len(),
                        shown == pieces(slices@),
                        spans(trace, *old(self), i as nat, *self),
                        forall|k: int|
                            0 <= k < i ==> Self::write_step(
                                trace[k],
                                Ok(#[trigger] shown[k]),
                                trace[k + 1],
                            ),
                    decreases slices.len() - i,
                {
                    self.inspect_write(Ok(slices[i]));
                    proof {
                        trace = trace.push(*self);
                    }
                    i = i + 1;
                }
                proof {
                    assert(seen_pieces(value)->Ok_0 == shown);
                    assert(spans(trace, *old(self), shown.len(), *self));
                }
            },
            Err(error) => {
                self.inspect_write(Err(error));
            },
        }
    }
}

/// `trace` runs from `pre` to `post` in `steps` steps.
pub open spec fn spans<W>(trace: Seq<W>, pre: W, steps: nat, post: W) -> bool {
    trace.len() == steps + 1 && trace.first() == pre && trace.last() == post
}

/// The default of the vectored hook: the pieces are shown to the write hook
/// one by one, in order, each taking the observer one write step on, and
/// `trace` holds the observer before the first and after each; an error is
/// shown to the write hook as it is.
pub open spec fn replayed<W: InspectWrite>(
    pre: W,
    seen: Result<Seq<Seq<u8>>, Error>,
    post: W,
) -> bool {
    match seen {
        Ok(shown) => exists|trace: Seq<W>| #[trigger]
            spans(trace, pre, shown.len(), post) && forall|k: int|
                0 <= k < shown.len() ==> W::write_step(
                    trace[k],
                    Ok(#[trigger] shown[k]),
                    trace[k + 1],
                ),
        Err(error) => W::write_step(pre, Err(error), post),
    }
}

/// A replay of no pieces leaves the observer as it was.
pub proof fn lemma_replay_of_nothing<W: InspectWrite>(pre: W, post: W)
    ensures
        replayed(pre, Ok(Seq::<Seq<u8>>::empty()), post) <==> post == pre,
{
    let nothing = Seq::<Seq<u8>>::empty();
    assert(Ok::<Seq<Seq<u8>>, Error>(nothing)->Ok_0 == nothing);
    if replayed(pre, Ok(nothing), post) {
        let trace = choose|trace: Seq<W>| #[trigger]
            spans(trace, pre, nothing.len(), post) && forall|k: int|
                0 <= k < nothing.len() ==> W::write_step(
                    trace[k],
                    Ok(#[trigger] nothing[k]),
                    trace[k + 1],
                );
        assert(trace.first() == trace.last());
    }
    if post == pre {
        assert(spans(seq![pre], pre, nothing.len(), post));
    }
}

/// What showing a completed vectored write to an observer comes to: one step
/// of its own vectored hook, or the replay through its write hook.
pub open spec fn vectored_effect<W: InspectWrite>(
    pre: W,
    seen: Result<Seq<Seq<u8>>, Error>,
    post: W,
) -> bool {
    W::vectored_step(pre, seen, post) || replayed(pre, seen, post)
}

/// What an observer of both kinds is shown of one completed operation.
pub enum Shown {
    /// A completed read: the bytes that were read, or the error.
    Read(Result<Seq<u8>, Error>),
    /// A completed write: the bytes that were written, or the error.
    Write(Result<Seq<u8>, Error>),
    /// A completed vectored write: the pieces that went out, or the error.
    WriteVectored(Result<Seq<Seq<u8>>, Error>),
    /// A completed flush.
    Flush(Result<(), Error>),
    /// A completed shutdown.
    Shutdown(Result<(), Error>),
}

/// What being shown one completed operation turns the observer `pre` into:
/// one step of the hook that the operation belongs to.
pub open spec fn shown_step<O: InspectRead + InspectWrite>(pre: O, shown: Shown, post: O) -> bool {
    match shown {
        Shown::Read(seen) => O::read_step(pre, seen, post),
        Shown::Write(seen) => O::write_step(pre, seen, post),
        Shown::WriteVectored(seen) => vectored_effect(pre, seen, post),
        Shown::Flush(seen) => O::flush_step(pre, seen, post),
        Shown::Shutdown(seen) => O::shutdown_step(pre, seen, post),
    }
}

/// The observer `post` is what `pre` becomes when it is shown the completed
/// operations of `history`, one after the other, in order.
pub open spec fn observed<O: InspectRead + InspectWrite>(
    pre: O,
    history: Seq<Shown>,
    post: O,
) -> bool {
    exists|trace: Seq<O>| #[trigger]
        spans(trace, pre, history.len(), post) && forall|k: int|
            0 <= k < history.len() ==> shown_step(trace[k], #[trigger] history[k], trace[k + 1])
}

/// An observer that has been shown nothing is as it was.
pub proof fn lemma_observed_nothing<O: InspectRead + InspectWrite>(pre: O, post: O)
    ensures
        observed(pre, Seq::<Shown>::empty(), post) <==> post == pre,
{
    let nothing = Seq::<Shown>::empty();
    if observed(pre, nothing, post) {
        let trace = choose|trace: Seq<O>| #[trigger]
            spans(trace, pre, nothing.len(), post) && forall|k: int|
                0 <= k < nothing.len() ==> shown_step(
                    trace[k],
                    #[trigger] nothing[k],
                    trace[k + 1],
                );
        assert(trace.first() == trace.last());
    }
    if post == pre {
        assert(spans(seq![pre], pre, nothing.len(), post));
    }
}

/// Histories grow by one completed operation at a time, in the order of
/// completion: an observer that was shown `history` and is then taken one
/// step on `next` has been shown `history` followed by `next`.
pub proof fn lemma_observed_next<O: InspectRead + InspectWrite>(
    pre: O,
    history: Seq<Shown>,
    mid: O,
    next: Shown,
    post: O,
)
    requires
        observed(pre, history, mid),
        shown_step(mid, next, post),
    ensures
        observed(pre, history.push(next), post),
{
    let trace = choose|trace: Seq<O>| #[trigger]
        spans(trace, pre, history.len(), mid) && forall|k: int|
            0 <= k < history.len() ==> shown_step(trace[k], #[trigger] history[k], trace[k + 1]);
    let longer = trace.push(post);
    let grown = history.push(next);
    assert(spans(longer, pre, grown.len(), post));
    assert forall|k: int| 0 <= k < grown.len() implies shown_step(
        longer[k],
        #[trigger] grown[k],
        longer[k + 1],
    ) by {
        if k < history.len() {
            assert(shown_step(trace[k], history[k], trace[k + 1]));
        }
    }
}

/// The bytes of a read or of a write that was shown: those moved, or none
/// for an error.
pub open spec fn bytes_shown(seen: Result<Seq<u8>, Error>) -> nat {
    match seen {
        Ok(bytes) => bytes.len(),
        Err(_) => 0,
    }
}

/// The bytes of a vectored write that was shown: those of all its pieces, or
/// none for an error.
pub open spec fn bytes_shown_in_pieces(seen: Result<Seq<Seq<u8>>, Error>) -> nat {
    match seen {
        Ok(shown) => shown.flatten().len(),
        Err(_) => 0,
    }
}

/// All the bytes read in a history.
pub open spec fn bytes_read_in(history: Seq<Shown>) -> nat
    decreases history.len(),
{
    if history.len() == 0 {
        0
    } else {
        bytes_read_in(history.drop_last()) + match history.last() {
            Shown::Read(seen) => bytes_shown(seen),
            _ => 0,
        }
    }
}

/// All the bytes written in a history.
pub open spec fn bytes_written_in(history: Seq<Shown>) -> nat
    decreases history.len(),
{
    if history.len() == 0 {
        0
    } else {
        bytes_written_in(history.drop_last()) + match history.last() {
            Shown::Write(seen) => bytes_shown(seen),
            Shown::WriteVectored(seen) => bytes_shown_in_pieces(seen),
            _ => 0,
        }
    }
}

} // verus!
