//! The decorated stream.

use vstd::prelude::*;
use core::task::Poll;
use std::io::{Error, IoSlice};
use hyper::rt::ReadBuf;
use crate::inspect::{vectored_effect, InspectRead, InspectWrite};
use crate::relay::{done_seen, read_advance, read_seen, vectored_seen, write_seen};
use crate::slicing::buffers;
use crate::trusted::read_buf_filled;

verus! {

/// A stream together with the observer of its traffic. It owns both and has
/// no state besides them.
///
/// The owner polls the stream, which it reaches through
/// [`get_mut`](Io::get_mut), and hands each answer to the method named after
/// the operation. If the operation is complete, the method takes the
/// observer through one step of the matching hook, on exactly what was
/// transferred. It gives the answer back as it came: nothing that the
/// observer does can change what the caller sees, and the stream itself is
/// not touched.
#[derive(Clone, Debug)]
pub struct Io<T, I> {
    inner: T,
    inspect: I,
}

impl<T, I> Io<T, I> {
    /// The stream.
    pub closed spec fn stream(self) -> T {
        self.inner
    }

    /// The observer.
    pub closed spec fn observer(self) -> I {
        self.inspect
    }

    /// Decorates `inner` with the observer `inspect`.
    pub fn new(inner: T, inspect: I) -> (io: Self)
        ensures
            io.stream() == inner,
            io.observer() == inspect,
    {
        Self { inner, inspect }
    }

    /// The stream, to ask it something.
    pub fn get_ref(&self) -> (inner: &T)
        ensures
            *inner == self.stream(),
    {
        &self.inner
    }

    /// The stream, to poll it. The observer stays as it is.
    pub fn get_mut(&mut self) -> (inner: &mut T)
        ensures
            *inner == old(self).stream(),
            final(self).stream() == *final(inner),
            final(self).observer() == old(self).observer(),
    {
        &mut self.inner
    }

    /// Takes the decoration off: the stream and the observer, each as it is.
    pub fn into_parts(self) -> (parts: (T, I))
        ensures
            parts.0 == self.stream(),
            parts.1 == self.observer(),
    {
        (self.inner, self.inspect)
    }
}

impl<T, I: InspectRead> Io<T, I> {
    /// Completes one poll of a read. `polled` is what the stream answered and
    /// `buf` the buffer it was given, empty before the poll. The observer is
    /// shown the bytes that the stream filled in. The answer comes back as it
    /// is, with the number of bytes by which the caller's destination is to
    /// be advanced.
    pub fn poll_read(&mut self, polled: Poll<Result<(), Error>>, buf: &ReadBuf<'_>) -> (back: (
        Poll<Result<(), Error>>,
        usize,
    ))
        ensures
            back.0 == polled,
            back.1 == read_advance(polled, read_buf_filled(*buf)),
            final(self).stream() == old(self).stream(),
            match read_seen(polled, read_buf_filled(*buf)) {
                None => final(self).observer() == old(self).observer(),
                Some(seen) => I::read_step(old(self).observer(), seen, final(self).observer()),
            },
    {
        crate::relay::read(&mut self.inspect, polled, buf)
    }
}

impl<T, I: InspectWrite> Io<T, I> {
    /// Completes one poll of a write of `buf`. The observer is shown the part
    /// of `buf` that was written.
    pub fn poll_write(&mut self, polled: Poll<Result<usize, Error>>, buf: &[u8]) -> (back: Poll<
        Result<usize, Error>,
    >)
        requires
            polled matches Poll::Ready(Ok(len)) ==> len <= buf@.len(),
        ensures
            back == polled,
            final(self).stream() == old(self).stream(),
            match write_seen(polled, buf@) {
                None => final(self).observer() == old(self).observer(),
                Some(seen) => I::write_step(old(self).observer(), seen, final(self).observer()),
            },
    {
        crate::relay::write(&mut self.inspect, polled, buf)
    }

    /// Completes one poll of a flush.
    pub fn poll_flush(&mut self, polled: Poll<Result<(), Error>>) -> (back: Poll<Result<(), Error>>)
        ensures
            back == polled,
            final(self).stream() == old(self).stream(),
            match done_seen(polled) {
                None => final(self).observer() == old(self).observer(),
                Some(seen) => I::flush_step(old(self).observer(), seen, final(self).observer()),
            },
    {
        crate::relay::flush(&mut self.inspect, polled)
    }

    /// Completes one poll of a shutdown.
    pub fn poll_shutdown(&mut self, polled: Poll<Result<(), Error>>) -> (back: Poll<
        Result<(), Error>,
    >)
        ensures
            back == polled,
            final(self).stream() == old(self).stream(),
            match done_seen(polled) {
                None => final(self).observer() == old(self).observer(),
                Some(seen) => I::shutdown_step(old(self).observer(), seen, final(self).observer()),
            },
    {
        crate::relay::shutdown(&mut self.inspect, polled)
    }

    /// Completes one poll of a vectored write of `bufs`. The observer is
    /// shown the pieces that the reported total is attributed to.
    pub fn poll_write_vectored(
        &mut self,
        polled: Poll<Result<usize, Error>>,
        bufs: &[IoSlice<'_>],
    ) -> (back: Poll<Result<usize, Error>>)
        ensures
            back == polled,
            final(self).stream() == old(self).stream(),
            match vectored_seen(polled, buffers(bufs@)) {
                None => final(self).observer() == old(self).observer(),
                Some(seen) => vectored_effect(old(self).observer(), seen, final(self).observer()),
            },
    {
        crate::relay::write_vectored(&mut self.inspect, polled, bufs)
    }
}

} // verus!
