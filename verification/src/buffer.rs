//! The byte buffers of the `bytes` crate that the decoders read from.
//!
//! Nothing in this file is proved: each contract restates what the source of
//! `bytes` 0.4 and the documentation of `std::io` say of the call in the body.

use bytes::buf::Reader;
use bytes::{Buf, Bytes, IntoBuf};
use std::io::{Cursor, Read};
use vstd::prelude::*;

verus! {

/// `bytes::Bytes`, a shared buffer of bytes. Its contents are not visible to
/// the verifier.
#[verifier::external_type_specification]
#[verifier::external_body]
pub struct ExBytes(Bytes);

/// `std::io::Cursor`, a buffer with a read position. Its contents are not
/// visible to the verifier.
#[verifier::external_type_specification]
#[verifier::external_body]
#[verifier::reject_recursive_types(T)]
pub struct ExCursor<T>(Cursor<T>);

/// `bytes::buf::Reader`, which reads a buffer through `std::io::Read`. Its
/// contents are not visible to the verifier.
#[verifier::external_type_specification]
#[verifier::external_body]
#[verifier::reject_recursive_types(B)]
pub struct ExReader<B>(Reader<B>);

/// The bytes of a cursor over a slice that `Buf::bytes` still offers: those
/// from its position to the end of the slice.
pub uninterp spec fn cursor_unread(cursor: Cursor<&[u8]>) -> Seq<u8>;

/// The bytes that a reader over a `Bytes` buffer has not handed out yet.
pub uninterp spec fn reader_unread(reader: Reader<Cursor<Bytes>>) -> Seq<u8>;

/// `std::io::Cursor::new`: the cursor starts at position 0, so all of `input`
/// is still unread.
#[verifier::external_body]
pub(crate) fn cursor_over(input: &[u8]) -> (cursor: Cursor<&[u8]>)
    ensures
        cursor_unread(cursor) == input@,
{
    Cursor::new(input)
}

/// `bytes::Buf::get_u8` on a cursor: it returns the first unread byte and
/// advances by one. The call panics on an exhausted cursor, which the
/// precondition rules out.
#[verifier::external_body]
pub(crate) fn get_u8(cursor: &mut Cursor<&[u8]>) -> (byte: u8)
    requires
        cursor_unread(*old(cursor)).len() >= 1,
    ensures
        byte == cursor_unread(*old(cursor))[0],
        cursor_unread(*final(cursor)) == cursor_unread(*old(cursor)).skip(1),
{
    cursor.get_u8()
}

/// `Bytes::from`, `IntoBuf::into_buf` and `Buf::reader`: a reader over a copy
/// of `input`, positioned at its start.
#[verifier::external_body]
pub(crate) fn reader_over(input: &[u8]) -> (reader: Reader<Cursor<Bytes>>)
    ensures
        reader_unread(reader) == input@,
{
    Bytes::from(input).into_buf().reader()
}

/// How many bytes one `read` into a destination of `room` bytes moves when
/// `available` bytes are unread.
pub open spec fn read_count(available: nat, room: nat) -> nat {
    if available < room {
        available
    } else {
        room
    }
}

/// `Read::read` as `bytes::buf::Reader` implements it: the call copies the
/// first `read_count` unread bytes to the front of `dst`, leaves the rest of
/// `dst` as it was, and advances the reader past what it copied. The
/// implementation returns `Ok` with that count on every input.
#[verifier::external_body]
pub(crate) fn read<const N: usize>(reader: &mut Reader<Cursor<Bytes>>, dst: &mut [u8; N])
    ensures
        final(dst)@ == reader_unread(*old(reader)).take(
            read_count(reader_unread(*old(reader)).len(), N as nat) as int,
        ) + old(dst)@.skip(read_count(reader_unread(*old(reader)).len(), N as nat) as int),
        reader_unread(*final(reader)) == reader_unread(*old(reader)).skip(
            read_count(reader_unread(*old(reader)).len(), N as nat) as int,
        ),
{
    let _ = reader.read(dst);
}

/// `std::io::copy` from the reader into a fresh vector: every unread byte is
/// moved over, in order, and the reader is left exhausted.
#[verifier::external_body]
pub(crate) fn read_to_end(reader: &mut Reader<Cursor<Bytes>>) -> (rest: Vec<u8>)
    ensures
        rest@ == reader_unread(*old(reader)),
        reader_unread(*final(reader)) == Seq::<u8>::empty(),
{
    let mut rest = Vec::new();
    let _ = std::io::copy(reader, &mut rest);
    rest
}

} // verus!
