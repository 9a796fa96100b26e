//! Cutting a transfer down to the bytes that were really moved.
//!
//! A write may take only a leading part of what it was offered. For one buffer
//! that part is a prefix. For a scatter/gather list the stream reports only a
//! total, and the total has to be attributed to the buffers: the leading
//! buffers went out whole, one buffer may have gone out in part, and the rest
//! did not go out at all.

use vstd::prelude::*;
use vstd::slice::slice_subrange;
use std::io::IoSlice;
use crate::trusted::{io_slice_bytes, slice_bytes};

verus! {

/// The contents of each buffer of a scatter/gather list, in order.
pub open spec fn buffers(bufs: Seq<IoSlice<'_>>) -> Seq<Seq<u8>> {
    bufs.map_values(|b: IoSlice<'_>| io_slice_bytes(b))
}

/// The contents of each piece of an attribution, in order.
pub open spec fn pieces(slices: Seq<&[u8]>) -> Seq<Seq<u8>> {
    slices.map_values(|s: &[u8]| s@)
}

/// The leading part of `buf` that a transfer of `len` bytes covers.
pub open spec fn covered(buf: Seq<u8>, len: nat) -> Seq<u8> {
    if buf.len() <= len {
        buf
    } else {
        buf.take(len as int)
    }
}

/// How a write of `len` bytes in total is attributed to the buffers it was
/// offered: each buffer in turn gives what the remaining count still covers
/// of it, and a buffer that gives nothing leaves no piece.
pub open spec fn attributed(bufs: Seq<Seq<u8>>, len: nat) -> Seq<Seq<u8>>
    decreases bufs.len(),
{
    if bufs.len() == 0 || len == 0 {
        Seq::empty()
    } else {
        let piece = covered(bufs.first(), len);
        let rest = attributed(bufs.drop_first(), (len - piece.len()) as nat);
        if piece.len() == 0 {
            rest
        } else {
            seq![piece] + rest
        }
    }
}

/// Exact accounting: the pieces, laid end to end, are the leading `len` bytes
/// of the buffers laid end to end, or all of them where `len` is more than
/// they hold. No byte is counted twice and none is left out.
pub proof fn lemma_attributed_accounts(bufs: Seq<Seq<u8>>, len: nat)
    ensures
        attributed(bufs, len).flatten() == covered(bufs.flatten(), len),
    decreases bufs.len(),
{
    if bufs.len() == 0 || len == 0 {
        assert(attributed(bufs, len).flatten() =~= covered(bufs.flatten(), len));
    } else {
        let head = bufs.first();
        let tail = bufs.drop_first();
        let piece = covered(head, len);
        let left = (len - piece.len()) as nat;
        let rest = attributed(tail, left);
        lemma_attributed_accounts(tail, left);
        assert(bufs.flatten() == head + tail.flatten());
        if piece.len() > 0 {
            let joined = seq![piece] + rest;
            assert(joined.first() == piece);
            assert(joined.drop_first() =~= rest);
            assert(joined.flatten() == piece + rest.flatten());
        }
        assert(attributed(bufs, len).flatten() =~= piece + rest.flatten());
        assert(piece + covered(tail.flatten(), left) =~= covered(head + tail.flatten(), len));
    }
}

/// The pieces hold `len` bytes in all, or as many as the buffers hold where
/// that is less.
pub proof fn lemma_attributed_total(bufs: Seq<Seq<u8>>, len: nat)
    ensures
        attributed(bufs, len).flatten().len() == if bufs.flatten().len() <= len {
            bufs.flatten().len()
        } else {
            len
        },
{
    lemma_attributed_accounts(bufs, len);
}

/// No piece is empty, and there are at most as many pieces as buffers.
pub proof fn lemma_attributed_pieces(bufs: Seq<Seq<u8>>, len: nat)
    ensures
        attributed(bufs, len).len() <= bufs.len(),
        forall|i: int| 0 <= i < attributed(bufs, len).len() ==> attributed(bufs, len)[i].len() > 0,
    decreases bufs.len(),
{
    if bufs.len() == 0 || len == 0 {
    } else {
        let piece = covered(bufs.first(), len);
        lemma_attributed_pieces(bufs.drop_first(), (len - piece.len()) as nat);
    }
}

/// Attribution by position. Where no buffer offered is empty, piece `i` is
/// taken from buffer `i`: every piece but the last is its buffer whole, the
/// last is a leading part of its buffer, and the buffers after it give
/// nothing.
pub proof fn lemma_attributed_by_position(bufs: Seq<Seq<u8>>, len: nat)
    requires
        forall|j: int| 0 <= j < bufs.len() ==> bufs[j].len() > 0,
    ensures
        attributed(bufs, len).len() <= bufs.len(),
        forall|i: int|
            0 <= i < attributed(bufs, len).len() - 1 ==> attributed(bufs, len)[i] == bufs[i],
        forall|i: int|
            0 <= i < attributed(bufs, len).len() ==> #[trigger] attributed(bufs, len)[i]
                == bufs[i].take(attributed(bufs, len)[i].len() as int),
    decreases bufs.len(),
{
    let out = attributed(bufs, len);
    if bufs.len() == 0 || len == 0 {
    } else {
        let head = bufs.first();
        let tail = bufs.drop_first();
        let piece = covered(head, len);
        let left = (len - piece.len()) as nat;
        let rest = attributed(tail, left);
        assert forall|j: int| 0 <= j < tail.len() implies tail[j].len() > 0 by {
            assert(tail[j] == bufs[j + 1]);
        }
        lemma_attributed_by_position(tail, left);
        assert(out == seq![piece] + rest);
        assert(piece =~= head.take(piece.len() as int));
        if piece.len() < head.len() {
            assert(left == 0);
            assert(rest.len() == 0);
        }
        assert forall|i: int| 0 <= i < out.len() - 1 implies out[i] == bufs[i] by {
            if i > 0 {
                assert(out[i] == rest[i - 1]);
                assert(tail[i - 1] == bufs[i]);
            }
        }
        assert forall|i: int| 0 <= i < out.len() implies #[trigger] out[i] == bufs[i].take(
            out[i].len() as int,
        ) by {
            if i > 0 {
                assert(out[i] == rest[i - 1]);
                assert(tail[i - 1] == bufs[i]);
            }
        }
    }
}

/// A transfer that covers everything offered leaves every buffer that holds
/// something as a piece of its own, whole.
pub proof fn lemma_attributed_all(bufs: Seq<Seq<u8>>, len: nat)
    requires
        bufs.flatten().len() <= len,
        forall|j: int| 0 <= j < bufs.len() ==> bufs[j].len() > 0,
    ensures
        attributed(bufs, len) == bufs,
    decreases bufs.len(),
{
    if bufs.len() == 0 {
        assert(attributed(bufs, len) =~= bufs);
    } else {
        let head = bufs.first();
        let tail = bufs.drop_first();
        assert(bufs.flatten() == head + tail.flatten());
        assert forall|j: int| 0 <= j < tail.len() implies tail[j].len() > 0 by {
            assert(tail[j] == bufs[j + 1]);
        }
        lemma_attributed_all(tail, (len - head.len()) as nat);
        assert(seq![head] + tail =~= bufs);
    }
}

/// The part of `buf` that was written when the stream reported `len` bytes.
pub fn written<'a>(buf: &'a [u8], len: usize) -> (part: &'a [u8])
    requires
        len <= buf@.len(),
    ensures
        part@ == buf@.take(len as int),
{
    slice_subrange(buf, 0, len)
}

/// Attributes a vectored write of `len` bytes in total to the buffers in
/// `bufs`, and returns the pieces that went out, in order.
pub fn attribute<'a>(bufs: &'a [IoSlice<'_>], len: usize) -> (out: Vec<&'a [u8]>)
    ensures
        pieces(out@) == attributed(buffers(bufs@), len as nat),
{
    let ghost all = buffers(bufs@);
    let mut out: Vec<&'a [u8]> = Vec::new();
    let mut left: usize = len;
    let mut i: usize = 0;
    proof {
        assert(all.skip(0) =~= all);
        assert(pieces(out@) + attributed(all, len as nat) =~= attributed(all, len as nat));
    }
    while i < bufs.len() && left > 0
        invariant
            i <= bufs.len(),
            all == buffers(bufs@),
            pieces(out@) + attributed(all.skip(i as int), left as nat) == attributed(
                all,
                len as nat,
            ),
        decreases bufs.len() - i,
    {
        let bytes = slice_bytes(&bufs[i]);
        let take: usize = if bytes.len() <= left {
            bytes.len()
        } else {
            left
        };
        let piece = slice_subrange(bytes, 0, take);
        proof {
            let tail = all.skip(i as int);
            assert(tail.first() == bytes@);
            assert(tail.drop_first() =~= all.skip(i + 1));
            assert(piece@ =~= covered(bytes@, left as nat));
            if take > 0 {
                assert(pieces(out@.push(piece)) =~= pieces(out@) + seq![piece@]);
                assert(pieces(out@) + (seq![piece@] + attributed(
                    all.skip(i + 1),
                    (left - take) as nat,
                )) =~= pieces(out@) + seq![piece@] + attributed(
                    all.skip(i + 1),
                    (left - take) as nat,
                ));
            }
        }
        if take > 0 {
            out.push(piece);
        }
        left = left - take;
        i = i + 1;
    }
    proof {
        assert(attributed(all.skip(i as int), left as nat) =~= Seq::<Seq<u8>>::empty());
        assert(pieces(out@) + Seq::<Seq<u8>>::empty() =~= pieces(out@));
    }
    out
}

} // verus!
