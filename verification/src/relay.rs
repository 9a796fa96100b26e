//! What an observer is shown of each poll of the stream.
//!
//! Each function here takes what the stream answered to one poll, shows it to
//! the observer if the operation is complete, and hands the answer back. A
//! completed operation takes the observer through one step of the matching
//! hook, on exactly what was transferred; a poll that is still pending is not
//! shown and leaves the observer as it was. The polling itself is the
//! caller's business.

use vstd::prelude::*;
use core::task::Poll;
use std::io::{Error, IoSlice};
use hyper::rt::ReadBuf;
use crate::inspect::{seen_bytes, seen_done, vectored_effect, InspectRead, InspectWrite};
use crate::slicing::{
    attribute, attributed, buffers, covered, lemma_attributed_accounts, pieces, written,
};
use crate::trusted::{filled, read_buf_filled};

verus! {

/// What a poll of a read shows, where `filled` is what the buffer handed to
/// the stream holds afterwards: nothing while the read is pending, else the
/// filled bytes and no more, or the error.
pub open spec fn read_seen(polled: Poll<Result<(), Error>>, filled: Seq<u8>) -> Option<
    Result<Seq<u8>, Error>,
> {
    match polled {
        Poll::Pending => None,
        Poll::Ready(Ok(_)) => Some(Ok(filled)),
        Poll::Ready(Err(error)) => Some(Err(error)),
    }
}

/// By how many bytes the caller's destination is to be advanced after a poll
/// of a read: by the filled bytes where the read is complete and did not
/// fail, else not at all.
pub open spec fn read_advance(polled: Poll<Result<(), Error>>, filled: Seq<u8>) -> nat {
    match polled {
        Poll::Ready(Ok(_)) => filled.len(),
        _ => 0,
    }
}

/// What a poll of a write of `buf` shows: nothing while the write is pending,
/// else the leading part of `buf` that was written, or the error.
pub open spec fn write_seen(polled: Poll<Result<usize, Error>>, buf: Seq<u8>) -> Option<
    Result<Seq<u8>, Error>,
> {
    match polled {
        Poll::Pending => None,
        Poll::Ready(Ok(len)) => Some(Ok(buf.take(len as int))),
        Poll::Ready(Err(error)) => Some(Err(error)),
    }
}

/// What a poll of a flush or of a shutdown shows.
pub open spec fn done_seen(polled: Poll<Result<(), Error>>) -> Option<Result<(), Error>> {
    match polled {
        Poll::Pending => None,
        Poll::Ready(Ok(_)) => Some(Ok(())),
        Poll::Ready(Err(error)) => Some(Err(error)),
    }
}

/// What a poll of a vectored write of `bufs` shows: nothing while the write
/// is pending, else the pieces that the reported total is attributed to, or
/// the error.
pub open spec fn vectored_seen(polled: Poll<Result<usize, Error>>, bufs: Seq<Seq<u8>>) -> Option<
    Result<Seq<Seq<u8>>, Error>,
> {
    match polled {
        Poll::Pending => None,
        Poll::Ready(Ok(len)) => Some(Ok(attributed(bufs, len as nat))),
        Poll::Ready(Err(error)) => Some(Err(error)),
    }
}

/// Exact slicing. A completed read shows the filled bytes and no more,
/// whatever the capacity of the buffer. A completed write of `len` bytes
/// shows the leading `len` bytes of what was offered, never all of it unless
/// all of it was written. A completed vectored write of `len` bytes shows
/// pieces that, laid end to end, are the leading `len` bytes of the buffers
/// laid end to end.
pub proof fn lemma_exact_slicing(filled: Seq<u8>, buf: Seq<u8>, bufs: Seq<Seq<u8>>, len: usize)
    requires
        len <= buf.len(),
    ensures
        read_seen(Poll::Ready(Ok(())), filled) == Some(Ok::<Seq<u8>, Error>(filled)),
        read_advance(Poll::Ready(Ok(())), filled) == filled.len(),
        write_seen(Poll::Ready(Ok(len)), buf) matches Some(Ok(part)) && part.len() == len
            && part.is_prefix_of(buf),
        vectored_seen(Poll::Ready(Ok(len)), bufs) matches Some(Ok(shown)) && shown.flatten()
            == covered(bufs.flatten(), len as nat),
{
    lemma_attributed_accounts(bufs, len as nat);
}

/// The end of the stream is not an error: a completed read that filled in
/// nothing shows a success of no bytes, and advances the caller by nothing.
pub proof fn lemma_end_of_stream()
    ensures
        read_seen(Poll::Ready(Ok(())), Seq::<u8>::empty()) == Some(
            Ok::<Seq<u8>, Error>(Seq::<u8>::empty()),
        ),
        read_advance(Poll::Ready(Ok(())), Seq::<u8>::empty()) == 0,
{
}

/// A poll that is still pending shows nothing, and advances the caller by
/// nothing.
pub proof fn lemma_pending_shows_nothing(filled: Seq<u8>, buf: Seq<u8>, bufs: Seq<Seq<u8>>)
    ensures
        read_seen(Poll::Pending, filled) is None,
        read_advance(Poll::Pending, filled) == 0,
        write_seen(Poll::Pending, buf) is None,
        vectored_seen(Poll::Pending, bufs) is None,
        done_seen(Poll::Pending) is None,
{
}

/// A failure shows the stream's own error, and advances the caller by
/// nothing.
pub proof fn lemma_failure_shows_the_error(
    error: Error,
    filled: Seq<u8>,
    buf: Seq<u8>,
    bufs: Seq<Seq<u8>>,
)
    ensures
        read_seen(Poll::Ready(Err(error)), filled) == Some(Err::<Seq<u8>, Error>(error)),
        read_advance(Poll::Ready(Err(error)), filled) == 0,
        write_seen(Poll::Ready(Err(error)), buf) == Some(Err::<Seq<u8>, Error>(error)),
        vectored_seen(Poll::Ready(Err(error)), bufs) == Some(Err::<Seq<Seq<u8>>, Error>(error)),
        done_seen(Poll::Ready(Err(error))) == Some(Err::<(), Error>(error)),
{
}

/// What the observer is to be shown of one poll of a read: nothing, the bytes
/// that the stream filled into `buf`, or the stream's error.
pub fn read_view<'a>(polled: &'a Poll<Result<(), Error>>, buf: &'a ReadBuf<'_>) -> (view: Option<
    Result<&'a [u8], &'a Error>,
>)
    ensures
        match view {
            None => read_seen(*polled, read_buf_filled(*buf)) is None,
            Some(value) => read_seen(*polled, read_buf_filled(*buf)) == Some(seen_bytes(value)),
        },
{
    match polled {
        Poll::Pending => None,
        Poll::Ready(Ok(_)) => Some(Ok(filled(buf))),
        Poll::Ready(Err(error)) => Some(Err(error)),
    }
}

/// What the observer is to be shown of one poll of a write of `buf`: nothing,
/// the part of `buf` that was written, or the stream's error.
pub fn write_view<'a>(polled: &'a Poll<Result<usize, Error>>, buf: &'a [u8]) -> (view: Option<
    Result<&'a [u8], &'a Error>,
>)
    requires
        *polled matches Poll::Ready(Ok(len)) ==> len <= buf@.len(),
    ensures
        match view {
            None => write_seen(*polled, buf@) is None,
            Some(value) => write_seen(*polled, buf@) == Some(seen_bytes(value)),
        },
{
    match polled {
        Poll::Pending => None,
        Poll::Ready(Ok(len)) => Some(Ok(written(buf, *len))),
        Poll::Ready(Err(error)) => Some(Err(error)),
    }
}

/// What the observer is to be shown of one poll of a flush or of a shutdown:
/// nothing, that it is done, or the stream's error.
pub fn done_view<'a>(polled: &'a Poll<Result<(), Error>>) -> (view: Option<Result<(), &'a Error>>)
    ensures
        match view {
            None => done_seen(*polled) is None,
            Some(value) => done_seen(*polled) == Some(seen_done(value)),
        },
{
    match polled {
        Poll::Pending => None,
        Poll::Ready(Ok(_)) => Some(Ok(())),
        Poll::Ready(Err(error)) => Some(Err(error)),
    }
}

/// What the observer is to be shown of one poll of a vectored write of
/// `bufs`: nothing, the pieces that the reported total is attributed to, or
/// the stream's error.
pub fn vectored_view<'a>(polled: &'a Poll<Result<usize, Error>>, bufs: &'a [IoSlice<'_>]) -> (view:
    Option<Result<Vec<&'a [u8]>, &'a Error>>)
    ensures
        match view {
            None => vectored_seen(*polled, buffers(bufs@)) is None,
            Some(Ok(out)) => vectored_seen(*polled, buffers(bufs@)) == Some(
                Ok::<Seq<Seq<u8>>, Error>(pieces(out@)),
            ),
            Some(Err(error)) => vectored_seen(*polled, buffers(bufs@)) == Some(
                Err::<Seq<Seq<u8>>, Error>(*error),
            ),
        },
{
    match polled {
        Poll::Pending => None,
        Poll::Ready(Ok(len)) => Some(Ok(attribute(bufs, *len))),
        Poll::Ready(Err(error)) => Some(Err(error)),
    }
}

/// Shows one poll of a read to the observer. `buf` is the buffer that the
/// stream was given, empty before the poll. Hands back the stream's answer,
/// and the number of bytes by which the caller's destination is to be
/// advanced.
pub fn read<I: InspectRead>(
    inspect: &mut I,
    polled: Poll<Result<(), Error>>,
    buf: &ReadBuf<'_>,
) -> (back: (Poll<Result<(), Error>>, usize))
    ensures
        back.0 == polled,
        back.1 == read_advance(polled, read_buf_filled(*buf)),
        match read_seen(polled, read_buf_filled(*buf)) {
            None => *final(inspect) == *old(inspect),
            Some(seen) => I::read_step(*old(inspect), seen, *final(inspect)),
        },
{
    let advance = match read_view(&polled, buf) {
        None => 0,
        Some(view) => {
            inspect.inspect_read(view);
            match view {
                Ok(bytes) => bytes.len(),
                Err(_) => 0,
            }
        },
    };
    (polled, advance)
}

/// Shows one poll of a write of `buf` to the observer, and hands back the
/// stream's answer.
pub fn write<W: InspectWrite>(inspect: &mut W, polled: Poll<Result<usize, Error>>, buf: &[u8]) -> (back:
    Poll<Result<usize, Error>>)
    requires
        polled matches Poll::Ready(Ok(len)) ==> len <= buf@.len(),
    ensures
        back == polled,
        match write_seen(polled, buf@) {
            None => *final(inspect) == *old(inspect),
            Some(seen) => W::write_step(*old(inspect), seen, *final(inspect)),
        },
{
    match write_view(&polled, buf) {
        None => {},
        Some(view) => {
            inspect.inspect_write(view);
        },
    }
    polled
}

/// Shows one poll of a flush to the observer, and hands back the stream's
/// answer.
pub fn flush<W: InspectWrite>(inspect: &mut W, polled: Poll<Result<(), Error>>) -> (back: Poll<
    Result<(), Error>,
>)
    ensures
        back == polled,
        match done_seen(polled) {
            None => *final(inspect) == *old(inspect),
            Some(seen) => W::flush_step(*old(inspect), seen, *final(inspect)),
        },
{
    match done_view(&polled) {
        None => {},
        Some(view) => {
            inspect.inspect_flush(view);
        },
    }
    polled
}

/// Shows one poll of a shutdown to the observer, and hands back the stream's
/// answer.
pub fn shutdown<W: InspectWrite>(inspect: &mut W, polled: Poll<Result<(), Error>>) -> (back: Poll<
    Result<(), Error>,
>)
    ensures
        back == polled,
        match done_seen(polled) {
            None => *final(inspect) == *old(inspect),
            Some(seen) => W::shutdown_step(*old(inspect), seen, *final(inspect)),
        },
{
    match done_view(&polled) {
        None => {},
        Some(view) => {
            inspect.inspect_shutdown(view);
        },
    }
    polled
}

/// Shows one poll of a vectored write of `bufs` to the observer, and hands
/// back the stream's answer.
pub fn write_vectored<W: InspectWrite>(
    inspect: &mut W,
    polled: Poll<Result<usize, Error>>,
    bufs: &[IoSlice<'_>],
) -> (back: Poll<Result<usize, Error>>)
    ensures
        back == polled,
        match vectored_seen(polled, buffers(bufs@)) {
            None => *final(inspect) == *old(inspect),
            Some(seen) => vectored_effect(*old(inspect), seen, *final(inspect)),
        },
{
    match vectored_view(&polled, bufs) {
        None => {},
        Some(Ok(out)) => {
            inspect.inspect_write_vectored(Ok(out.as_slice()));
        },
        Some(Err(error)) => {
            inspect.inspect_write_vectored(Err(error));
        },
    }
    polled
}

} // verus!
