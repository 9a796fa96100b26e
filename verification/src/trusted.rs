//! Everything this crate believes without proof: the types of `std` and
//! `hyper` that pass through it, and the few calls into them.

use vstd::prelude::*;
use std::ops::Deref;

verus! {

/// `std::io::Error`. The crate never looks inside one: it hands errors on.
#[verifier::external_type_specification]
#[verifier::external_body]
pub struct ExIoError(std::io::Error);

/// `core::task::Poll`, with its two variants `Ready` and `Pending` as std
/// declares them.
#[verifier::external_type_specification]
pub struct ExPoll<T>(core::task::Poll<T>);

/// `hyper::rt::ReadBuf`, a byte buffer of fixed capacity of which a leading
/// part has been filled.
#[verifier::external_type_specification]
#[verifier::external_body]
pub struct ExReadBuf<'a>(hyper::rt::ReadBuf<'a>);

/// `std::io::IoSlice`, one borrowed buffer of a scatter/gather list.
#[verifier::external_type_specification]
#[verifier::external_body]
pub struct ExIoSlice<'a>(std::io::IoSlice<'a>);

/// The filled part of a `hyper::rt::ReadBuf`.
pub uninterp spec fn read_buf_filled(buf: hyper::rt::ReadBuf<'_>) -> Seq<u8>;

/// The bytes that a `std::io::IoSlice` borrows.
pub uninterp spec fn io_slice_bytes(slice: std::io::IoSlice<'_>) -> Seq<u8>;

/// Calls `hyper::rt::ReadBuf::filled`, which returns the filled part of the
/// buffer and nothing of its unfilled capacity. The claim: the slice that
/// comes back holds exactly the bytes that `read_buf_filled` names.
#[verifier::external_body]
pub(crate) fn filled<'a>(buf: &'a hyper::rt::ReadBuf<'_>) -> (bytes: &'a [u8])
    ensures
        bytes@ == read_buf_filled(*buf),
{
    buf.filled()
}

/// Calls `Deref::deref` of `std::io::IoSlice`, which returns the borrowed
/// buffer as a byte slice. The claim: the slice that comes back holds exactly
/// the bytes that `io_slice_bytes` names.
#[verifier::external_body]
pub(crate) fn slice_bytes<'a>(slice: &'a std::io::IoSlice<'_>) -> (bytes: &'a [u8])
    ensures
        bytes@ == io_slice_bytes(*slice),
{
    slice.deref()
}

} // verus!
