//! What this crate relies on of the byte buffers of the `bytes` crate.

use bytes::{Bytes, BytesMut};

use vstd::prelude::*;

verus! {

/// Makes `bytes::Bytes` known to the verifier.
#[verifier::external_type_specification]
#[verifier::external_body]
pub struct ExBytes(bytes::Bytes);

/// Makes `bytes::BytesMut` known to the verifier.
#[verifier::external_type_specification]
#[verifier::external_body]
pub struct ExBytesMut(bytes::BytesMut);

/// The bytes that a `Bytes` handle shows.
pub uninterp spec fn contents(bytes: Bytes) -> Seq<u8>;

/// The bytes that have been written to a `BytesMut` buffer.
pub uninterp spec fn written(buf: BytesMut) -> Seq<u8>;

/// `BytesMut::capacity` may return `capacity` for the buffer.  How much room a buffer
/// has is up to its allocator, so nothing says which number that is.
pub open spec fn has_capacity(buf: BytesMut, capacity: usize) -> bool {
    call_ensures(BytesMut::capacity, (&buf,), capacity)
}

/// `Bytes::new` returns an empty handle.
pub assume_specification[ Bytes::new ]() -> (bytes: Bytes)
    ensures
        contents(bytes) == Seq::<u8>::empty(),
;

/// `Bytes::len` returns the number of bytes.
pub assume_specification[ Bytes::len ](bytes: &Bytes) -> (len: usize)
    ensures
        len == contents(*bytes).len(),
;

/// `Bytes::is_empty` returns whether there are no bytes.
pub assume_specification[ Bytes::is_empty ](bytes: &Bytes) -> (empty: bool)
    ensures
        empty == (contents(*bytes).len() == 0),
;

/// `Bytes::split_off` leaves the first `at` bytes in the handle and returns the
/// others.  It panics if there are not that many bytes.
pub assume_specification[ Bytes::split_off ](bytes: &mut Bytes, at: usize) -> (rest: Bytes)
    requires
        at <= contents(*old(bytes)).len(),
    ensures
        contents(*final(bytes)) == contents(*old(bytes)).take(at as int),
        contents(rest) == contents(*old(bytes)).skip(at as int),
;

/// `Bytes::split_to` returns the first `at` bytes and leaves the others in the
/// handle.  It panics if there are not that many bytes.
pub assume_specification[ Bytes::split_to ](bytes: &mut Bytes, at: usize) -> (front: Bytes)
    requires
        at <= contents(*old(bytes)).len(),
    ensures
        contents(front) == contents(*old(bytes)).take(at as int),
        contents(*final(bytes)) == contents(*old(bytes)).skip(at as int),
;

/// `Bytes::clear` removes all bytes from the handle.
pub assume_specification[ Bytes::clear ](bytes: &mut Bytes)
    ensures
        contents(*final(bytes)) == Seq::<u8>::empty(),
;

/// `BytesMut::new` returns a buffer that nothing has been written to.
pub assume_specification[ BytesMut::new ]() -> (buf: BytesMut)
    ensures
        written(buf) == Seq::<u8>::empty(),
;

/// `BytesMut::len` returns the number of bytes that have been written.
pub assume_specification[ BytesMut::len ](buf: &BytesMut) -> (len: usize)
    ensures
        len == written(*buf).len(),
;

/// `BytesMut::capacity` returns how many bytes fit into the buffer as it is
/// allocated, those that have been written among them.  How many more fit is up to
/// the allocator, and is left open.
pub assume_specification[ BytesMut::capacity ](buf: &BytesMut) -> (capacity: usize)
    ensures
        capacity >= written(*buf).len(),
;

/// `BytesMut::split_to` returns the first `at` bytes and leaves the others in the
/// buffer.  It panics if there are not that many bytes.
pub assume_specification[ BytesMut::split_to ](buf: &mut BytesMut, at: usize) -> (front: BytesMut)
    requires
        at <= written(*old(buf)).len(),
    ensures
        written(front) == written(*old(buf)).take(at as int),
        written(*final(buf)) == written(*old(buf)).skip(at as int),
;

/// `BytesMut::split_off` leaves the first `at` bytes in the buffer and returns the
/// others, along with the rest of the capacity: what the returned buffer has room for
/// is what the buffer had room for, but for `at` bytes.  It panics if `at` is beyond
/// the capacity, which is at least the number of bytes.
pub assume_specification[ BytesMut::split_off ](buf: &mut BytesMut, at: usize) -> (rest: BytesMut)
    requires
        at <= written(*old(buf)).len(),
    ensures
        written(*final(buf)) == written(*old(buf)).take(at as int),
        written(rest) == written(*old(buf)).skip(at as int),
        forall|capacity: usize| #[trigger]
            has_capacity(rest, capacity) ==> capacity + at <= usize::MAX && has_capacity(
                *old(buf),
                (capacity + at) as usize,
            ),
;

/// `BytesMut::try_reclaim` makes room for `additional` more bytes if that takes no
/// allocation, and returns whether there is such room.  If it does, whatever
/// `BytesMut::capacity` returns then is enough for them.  The bytes that have been
/// written stay.  Whether there is room depends on who else holds on to the
/// allocation, and is left open.
pub assume_specification[ BytesMut::try_reclaim ](buf: &mut BytesMut, additional: usize) -> (room: bool)
    ensures
        written(*final(buf)) == written(*old(buf)),
        room ==> forall|capacity: usize| #[trigger]
            has_capacity(*final(buf), capacity) ==> capacity >= written(*final(buf)).len()
                + additional,
;

/// `BytesMut::freeze` turns the buffer into a handle on the bytes that have been
/// written.
pub assume_specification[ BytesMut::freeze ](buf: BytesMut) -> (bytes: Bytes)
    ensures
        contents(bytes) == written(buf),
;

} // verus!
