//! Counting what goes through a stream, and how long the stream lives.
//!
//! A connection has four counters: connections established, connections
//! closed, bytes read and bytes written. The first goes up once, when the
//! connection is made; the second goes up once, when it is torn down, however
//! often and however early that is asked for; the byte counters go up with
//! every completed read and write by what was really moved.

use vstd::prelude::*;
use core::task::Poll;
use std::io::Error;
use hyper::rt::ReadBuf;
use crate::relay::read_advance;
use crate::trusted::{filled, read_buf_filled};

verus! {

/// The four counters of one connection, as numbers.
pub struct Tally {
    pub established: nat,
    pub closed: nat,
    pub bytes_read: nat,
    pub bytes_written: nat,
}

/// What can happen to a metered stream.
pub enum Event {
    /// A poll of a read: what the stream answered, and how many bytes the
    /// buffer it was given holds afterwards.
    Read(Poll<Result<(), Error>>, nat),
    /// A poll of a write: what the stream answered.
    Write(Poll<Result<usize, Error>>),
    /// A poll of a vectored write: what the stream answered.
    WriteVectored(Poll<Result<usize, Error>>),
    /// A poll of a flush.
    Flush(Poll<Result<(), Error>>),
    /// A poll of a shutdown.
    Shutdown(Poll<Result<(), Error>>),
    /// The stream is torn down.
    Teardown,
}

/// `n`, or `u64::MAX` where `n` is more: a byte counter stops at the top and
/// never goes back.
pub open spec fn capped(n: nat) -> nat {
    if n > u64::MAX {
        u64::MAX as nat
    } else {
        n
    }
}

/// The bytes that a poll of a read has read: those in the buffer if the read
/// is complete and did not fail, else none.
pub open spec fn bytes_of_read(polled: Poll<Result<(), Error>>, filled: nat) -> nat {
    match polled {
        Poll::Ready(Ok(_)) => filled,
        _ => 0,
    }
}

/// The bytes that a poll of a write has written: the reported length if the
/// write is complete and did not fail, else none.
pub open spec fn bytes_of_write(polled: Poll<Result<usize, Error>>) -> nat {
    match polled {
        Poll::Ready(Ok(len)) => len as nat,
        _ => 0,
    }
}

/// The counters of a connection that was just made.
pub open spec fn opened() -> Tally {
    Tally { established: 1, closed: 0, bytes_read: 0, bytes_written: 0 }
}

/// The counters after one event.
pub open spec fn step(tally: Tally, event: Event) -> Tally {
    match event {
        Event::Read(polled, filled) => Tally {
            bytes_read: capped(tally.bytes_read + bytes_of_read(polled, filled)),
            ..tally
        },
        Event::Write(polled) => Tally {
            bytes_written: capped(tally.bytes_written + bytes_of_write(polled)),
            ..tally
        },
        Event::WriteVectored(polled) => Tally {
            bytes_written: capped(tally.bytes_written + bytes_of_write(polled)),
            ..tally
        },
        Event::Flush(_) => tally,
        Event::Shutdown(_) => tally,
        Event::Teardown => Tally {
            closed: if tally.closed == 0 {
                1
            } else {
                tally.closed
            },
            ..tally
        },
    }
}

/// The counters after a sequence of events.
pub open spec fn run(tally: Tally, events: Seq<Event>) -> Tally
    decreases events.len(),
{
    if events.len() == 0 {
        tally
    } else {
        step(run(tally, events.drop_last()), events.last())
    }
}

/// All the bytes read in a sequence of events.
pub open spec fn total_read(events: Seq<Event>) -> nat
    decreases events.len(),
{
    if events.len() == 0 {
        0
    } else {
        total_read(events.drop_last()) + match events.last() {
            Event::Read(polled, filled) => bytes_of_read(polled, filled),
            _ => 0,
        }
    }
}

/// All the bytes written in a sequence of events.
pub open spec fn total_written(events: Seq<Event>) -> nat
    decreases events.len(),
{
    if events.len() == 0 {
        0
    } else {
        total_written(events.drop_last()) + match events.last() {
            Event::Write(polled) => bytes_of_write(polled),
            Event::WriteVectored(polled) => bytes_of_write(polled),
            _ => 0,
        }
    }
}

/// Whatever happens to a connection, it stays established once, and it is
/// closed at most once.
pub proof fn lemma_established_once(events: Seq<Event>)
    ensures
        run(opened(), events).established == 1,
        run(opened(), events).closed <= 1,
    decreases events.len(),
{
    if events.len() > 0 {
        lemma_established_once(events.drop_last());
    }
}

/// Once a connection is torn down it is closed exactly once, whatever
/// happened before the teardown and whatever happens after it, further
/// teardowns included.
pub proof fn lemma_closed_once(before: Seq<Event>, after: Seq<Event>)
    ensures
        run(opened(), before.push(Event::Teardown) + after).established == 1,
        run(opened(), before.push(Event::Teardown) + after).closed == 1,
    decreases after.len(),
{
    let all = before.push(Event::Teardown) + after;
    if after.len() == 0 {
        assert(all =~= before.push(Event::Teardown));
        assert(all.drop_last() =~= before);
        lemma_established_once(before);
    } else {
        assert(all.drop_last() =~= before.push(Event::Teardown) + after.drop_last());
        assert(all.last() == after.last());
        lemma_closed_once(before, after.drop_last());
    }
}

/// Until a connection is torn down, it is not closed.
pub proof fn lemma_open_until_teardown(events: Seq<Event>)
    requires
        forall|i: int| 0 <= i < events.len() ==> !(events[i] is Teardown),
    ensures
        run(opened(), events).closed == 0,
    decreases events.len(),
{
    if events.len() > 0 {
        assert forall|i: int| 0 <= i < events.drop_last().len() implies !(events.drop_last()[i]
            is Teardown) by {
            assert(events.drop_last()[i] == events[i]);
        }
        lemma_open_until_teardown(events.drop_last());
    }
}

/// The byte counters hold exactly what was moved: every byte of every
/// completed read and write, and nothing for a poll that is pending or has
/// failed, for a flush, a shutdown or a teardown.
pub proof fn lemma_bytes_counted(events: Seq<Event>)
    ensures
        run(opened(), events).bytes_read == capped(total_read(events)),
        run(opened(), events).bytes_written == capped(total_written(events)),
    decreases events.len(),
{
    if events.len() > 0 {
        lemma_bytes_counted(events.drop_last());
    }
}

/// Two ends of one connection agree: where all that one end wrote is what
/// the other end read, the writer's count of bytes written is the reader's
/// count of bytes read.
pub proof fn lemma_counters_agree(writer: Seq<Event>, reader: Seq<Event>)
    requires
        total_written(writer) == total_read(reader),
    ensures
        run(opened(), writer).bytes_written == run(opened(), reader).bytes_read,
{
    lemma_bytes_counted(writer);
    lemma_bytes_counted(reader);
}

/// The counters of one connection.
#[derive(Debug)]
pub struct Meter {
    established: u64,
    closed: u64,
    bytes_read: u64,
    bytes_written: u64,
}

impl View for Meter {
    type V = Tally;

    closed spec fn view(&self) -> Tally {
        Tally {
            established: self.established as nat,
            closed: self.closed as nat,
            bytes_read: self.bytes_read as nat,
            bytes_written: self.bytes_written as nat,
        }
    }
}

impl Meter {
    /// The counters of a connection that was just made: established once,
    /// not closed, no byte moved.
    pub fn open() -> (meter: Self)
        ensures
            meter@ == opened(),
    {
        Meter { established: 1, closed: 0, bytes_read: 0, bytes_written: 0 }
    }

    /// How often the connection was established.
    pub fn established(&self) -> (count: u64)
        ensures
            count == self@.established,
    {
        self.established
    }

    /// How often the connection was closed.
    pub fn closed(&self) -> (count: u64)
        ensures
            count == self@.closed,
    {
        self.closed
    }

    /// How many bytes were read.
    pub fn bytes_read(&self) -> (count: u64)
        ensures
            count == self@.bytes_read,
    {
        self.bytes_read
    }

    /// How many bytes were written.
    pub fn bytes_written(&self) -> (count: u64)
        ensures
            count == self@.bytes_written,
    {
        self.bytes_written
    }

    /// Counts one poll of a read. `buf` is the buffer that the stream was
    /// given, empty before the poll. Hands back the stream's answer, and the
    /// number of bytes by which the caller's destination is to be advanced.
    pub fn read(&mut self, polled: Poll<Result<(), Error>>, buf: &ReadBuf<'_>) -> (back: (
        Poll<Result<(), Error>>,
        usize,
    ))
        ensures
            back.0 == polled,
            back.1 == read_advance(polled, read_buf_filled(*buf)),
            final(self)@ == step(old(self)@, Event::Read(polled, read_buf_filled(*buf).len())),
    {
        let advance = match &polled {
            Poll::Ready(Ok(_)) => {
                let len = filled(buf).len();
                self.bytes_read = self.bytes_read.saturating_add(len as u64);
                len
            },
            _ => 0,
        };
        (polled, advance)
    }

    /// Counts one poll of a write.
    pub fn write(&mut self, polled: Poll<Result<usize, Error>>) -> (back: Poll<
        Result<usize, Error>,
    >)
        ensures
            back == polled,
            final(self)@ == step(old(self)@, Event::Write(polled)),
    {
        match &polled {
            Poll::Ready(Ok(len)) => {
                self.bytes_written = self.bytes_written.saturating_add(*len as u64);
            },
            _ => {},
        }
        polled
    }

    /// Counts one poll of a vectored write, by the total that the stream
    /// reported.
    pub fn write_vectored(&mut self, polled: Poll<Result<usize, Error>>) -> (back: Poll<
        Result<usize, Error>,
    >)
        ensures
            back == polled,
            final(self)@ == step(old(self)@, Event::WriteVectored(polled)),
    {
        match &polled {
            Poll::Ready(Ok(len)) => {
                self.bytes_written = self.bytes_written.saturating_add(*len as u64);
            },
            _ => {},
        }
        polled
    }

    /// Lets one poll of a flush through. No counter moves.
    pub fn flush(&mut self, polled: Poll<Result<(), Error>>) -> (back: Poll<Result<(), Error>>)
        ensures
            back == polled,
            final(self)@ == step(old(self)@, Event::Flush(polled)),
    {
        polled
    }

    /// Lets one poll of a shutdown through. No counter moves.
    pub fn shutdown(&mut self, polled: Poll<Result<(), Error>>) -> (back: Poll<Result<(), Error>>)
        ensures
            back == polled,
            final(self)@ == step(old(self)@, Event::Shutdown(polled)),
    {
        polled
    }

    /// Tears the connection down. The first call counts it as closed; any
    /// further call changes nothing.
    pub fn teardown(&mut self)
        ensures
            final(self)@ == step(old(self)@, Event::Teardown),
    {
        if self.closed == 0 {
            self.closed = 1;
        }
    }
}

/// A stream together with the counters of its connection.
///
/// As with [`Io`](crate::Io), the owner polls the stream, which it reaches
/// through [`get_mut`](Metered::get_mut), and hands each answer to the method
/// named after the operation, which counts it and gives it back as it came.
#[derive(Debug)]
pub struct Metered<T> {
    inner: T,
    meter: Meter,
}

impl<T> Metered<T> {
    /// The stream.
    pub closed spec fn stream(self) -> T {
        self.inner
    }

    /// The counters.
    pub closed spec fn tally(self) -> Tally {
        self.meter@
    }

    /// Takes the outcome of an attempt to connect. Where it gave a stream,
    /// the labels of the connection are worked out from the stream, once,
    /// and the stream comes back metered, its connection counted as
    /// established, together with the labels. Where it failed, the failure
    /// comes back as it is: nothing is labelled and nothing is counted.
    pub fn connect<E, L, F: FnOnce(&T) -> L>(connected: Result<T, E>, label: F) -> (made: Result<
        (Self, L),
        E,
    >)
        requires
            connected matches Ok(stream) ==> call_requires(label, (&stream,)),
        ensures
            match connected {
                Ok(stream) => made matches Ok(pair) && pair.0.stream() == stream && pair.0.tally()
                    == opened() && call_ensures(label, (&stream,), pair.1),
                Err(error) => made matches Err(same) && same == error,
            },
    {
        match connected {
            Ok(stream) => {
                let labels = label(&stream);
                Ok((Metered { inner: stream, meter: Meter::open() }, labels))
            },
            Err(error) => Err(error),
        }
    }

    /// The stream, to ask it something.
    pub fn get_ref(&self) -> (inner: &T)
        ensures
            *inner == self.stream(),
    {
        &self.inner
    }

    /// The stream, to poll it. The counters stay as they are.
    pub fn get_mut(&mut self) -> (inner: &mut T)
        ensures
            *inner == old(self).stream(),
            final(self).stream() == *final(inner),
            final(self).tally() == old(self).tally(),
    {
        &mut self.inner
    }

    /// The counters, to read them.
    pub fn meter(&self) -> (meter: &Meter)
        ensures
            meter@ == self.tally(),
    {
        &self.meter
    }

    /// Completes one poll of a read. `buf` is the buffer that the stream was
    /// given, empty before the poll.
    pub fn poll_read(&mut self, polled: Poll<Result<(), Error>>, buf: &ReadBuf<'_>) -> (back: (
        Poll<Result<(), Error>>,
        usize,
    ))
        ensures
            back.0 == polled,
            back.1 == read_advance(polled, read_buf_filled(*buf)),
            final(self).stream() == old(self).stream(),
            final(self).tally() == step(
                old(self).tally(),
                Event::Read(polled, read_buf_filled(*buf).len()),
            ),
    {
        self.meter.read(polled, buf)
    }

    /// Completes one poll of a write.
    pub fn poll_write(&mut self, polled: Poll<Result<usize, Error>>) -> (back: Poll<
        Result<usize, Error>,
    >)
        ensures
            back == polled,
            final(self).stream() == old(self).stream(),
            final(self).tally() == step(old(self).tally(), Event::Write(polled)),
    {
        self.meter.write(polled)
    }

    /// Completes one poll of a vectored write.
    pub fn poll_write_vectored(&mut self, polled: Poll<Result<usize, Error>>) -> (back: Poll<
        Result<usize, Error>,
    >)
        ensures
            back == polled,
            final(self).stream() == old(self).stream(),
            final(self).tally() == step(old(self).tally(), Event::WriteVectored(polled)),
    {
        self.meter.write_vectored(polled)
    }

    /// Completes one poll of a flush.
    pub fn poll_flush(&mut self, polled: Poll<Result<(), Error>>) -> (back: Poll<Result<(), Error>>)
        ensures
            back == polled,
            final(self).stream() == old(self).stream(),
            final(self).tally() == step(old(self).tally(), Event::Flush(polled)),
    {
        self.meter.flush(polled)
    }

    /// Completes one poll of a shutdown.
    pub fn poll_shutdown(&mut self, polled: Poll<Result<(), Error>>) -> (back: Poll<
        Result<(), Error>,
    >)
        ensures
            back == polled,
            final(self).stream() == old(self).stream(),
            final(self).tally() == step(old(self).tally(), Event::Shutdown(polled)),
    {
        self.meter.shutdown(polled)
    }

    /// Takes the stream and its counters apart, each as it is. The
    /// connection is not torn down by this: its counters go on with whoever
    /// holds them.
    pub fn into_parts(self) -> (parts: (T, Meter))
        ensures
            parts.0 == self.stream(),
            parts.1@ == self.tally(),
    {
        (self.inner, self.meter)
    }

    /// Tears the stream down: the stream, and the counters with the
    /// connection counted as closed.
    pub fn close(self) -> (parts: (T, Meter))
        ensures
            parts.0 == self.stream(),
            parts.1@ == step(self.tally(), Event::Teardown),
    {
        let mut meter = self.meter;
        meter.teardown();
        (self.inner, meter)
    }
}

} // verus!
