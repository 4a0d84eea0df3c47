//! Byte buffers handed to socket operations.

use bytes::{Bytes, BytesMut};
use vstd::prelude::*;

verus! {

#[verifier::external_type_specification]
#[verifier::external_body]
pub struct ExBytes(bytes::Bytes);

#[verifier::external_type_specification]
#[verifier::external_body]
pub struct ExBytesMut(bytes::BytesMut);

/// The bytes that a `Bytes` holds.
pub uninterp spec fn bytes_data(bytes: Bytes) -> Seq<u8>;

/// The bytes that a `BytesMut` holds, without its reserve.
pub uninterp spec fn bytes_mut_data(bytes: BytesMut) -> Seq<u8>;

/// Whether a `Bytes` stores its bytes within itself. Otherwise they are elsewhere, and stay where
/// they are when the `Bytes` is moved.
pub uninterp spec fn bytes_inline(bytes: Bytes) -> bool;

/// Whether a `BytesMut` stores its bytes within itself.
pub uninterp spec fn bytes_mut_inline(bytes: BytesMut) -> bool;

/// `Bytes::len`: how many bytes the buffer holds.
#[verifier::external_body]
pub(crate) fn bytes_len(bytes: &Bytes) -> (len: usize)
    ensures
        len == bytes_data(*bytes).len(),
{
    bytes.len()
}

/// `<Bytes as Deref>::deref`, and `to_vec` of the slice that it gives: a copy of the bytes.
#[verifier::external_body]
pub(crate) fn bytes_to_vec(bytes: &Bytes) -> (copy: Vec<u8>)
    ensures
        copy@ == bytes_data(*bytes),
{
    bytes.to_vec()
}

/// `Bytes::from`: a buffer that holds the bytes of a vector, where the vector has them, and so not
/// within itself, however few they are.
#[verifier::external_body]
pub(crate) fn bytes_from_vec(vec: Vec<u8>) -> (bytes: Bytes)
    ensures
        bytes_data(bytes) == vec@,
        !bytes_inline(bytes),
{
    Bytes::from(vec)
}

/// `<BytesMut as Deref>::deref`, and `to_vec` of the slice that it gives: a copy of the bytes.
#[verifier::external_body]
pub(crate) fn bytes_mut_to_vec(bytes: &BytesMut) -> (copy: Vec<u8>)
    ensures
        copy@ == bytes_mut_data(*bytes),
{
    bytes.to_vec()
}

/// `BytesMut::from`: a buffer that holds the bytes of a vector, where the vector has them, and so
/// not within itself, however few they are.
#[verifier::external_body]
pub(crate) fn bytes_mut_from_vec(vec: Vec<u8>) -> (bytes: BytesMut)
    ensures
        bytes_mut_data(bytes) == vec@,
        !bytes_mut_inline(bytes),
{
    BytesMut::from(vec)
}

/// `BytesMut::len`: how many bytes the buffer holds.
#[verifier::external_body]
pub(crate) fn bytes_mut_len(bytes: &BytesMut) -> (len: usize)
    ensures
        len == bytes_mut_data(*bytes).len(),
{
    bytes.len()
}

/// `BytesMut::as_mut`: the bytes that the buffer holds, as a slice.
#[verifier::external_body]
fn bytes_mut_as_mut(bytes: &mut BytesMut) -> (slice: &mut [u8])
    ensures
        slice@ == bytes_mut_data(*old(bytes)),
        slice@.len() <= isize::MAX,
        bytes_mut_data(*final(bytes)) == final(slice)@,
{
    bytes.as_mut()
}

/// `BytesMut::capacity`: how many bytes the buffer holds and has in reserve, which is no fewer than
/// it holds. How much reserve there is depends on the allocator, so nothing more is said of it.
#[verifier::external_body]
pub(crate) fn bytes_mut_capacity(bytes: &BytesMut) -> (capacity: usize)
    ensures
        capacity >= bytes_mut_data(*bytes).len(),
{
    bytes.capacity()
}

/// `BytesMut::extend_from_slice`: appends, within the reserve where it suffices. It would panic
/// where a buffer cannot be that long.
#[verifier::external_body]
fn bytes_mut_extend(bytes: &mut BytesMut, extend: &[u8])
    requires
        bytes_mut_data(*old(bytes)).len() + extend@.len() <= isize::MAX,
    ensures
        bytes_mut_data(*final(bytes)) == bytes_mut_data(*old(bytes)) + extend@,
{
    bytes.extend_from_slice(extend)
}

/// What a buffer holds once `received` was written over its front.
pub open spec fn overwritten(held: Seq<u8>, received: Seq<u8>) -> Seq<u8> {
    if received.len() < held.len() {
        received + held.skip(received.len() as int)
    } else {
        received
    }
}

/// Stores received bytes at the front of a buffer, which grows where they do not fit in what it
/// held.
pub fn store_received(buffer: &mut BytesMut, received: &[u8])
    requires
        received@.len() <= isize::MAX,
    ensures
        bytes_mut_data(*final(buffer)) == overwritten(bytes_mut_data(*old(buffer)), received@),
{
    let ghost held = bytes_mut_data(*buffer);
    let front: &mut [u8] = bytes_mut_as_mut(buffer);
    let front_len: usize = front.len();
    let mut i: usize = 0;
    while i < front_len && i < received.len()
        invariant
            front@.len() == held.len() == front_len,
            i <= front_len,
            i <= received.len(),
            forall|j: int| 0 <= j < i ==> front@[j] == received@[j],
            forall|j: int| i <= j < front_len ==> front@[j] == held[j],
        decreases front_len - i,
    {
        front[i] = received[i];
        i += 1;
    }
    if received.len() > front_len {
        bytes_mut_extend(buffer, vstd::slice::slice_subrange(received, front_len, received.len()));
    }
    proof {
        assert(bytes_mut_data(*buffer) =~= overwritten(held, received@));
    }
}

/// Received bytes are at the front of the buffer, what they do not reach stays as it was, and the
/// buffer never gets shorter.
pub proof fn law_received_bytes_are_in_front(held: Seq<u8>, received: Seq<u8>)
    ensures
        overwritten(held, received).len() == if received.len() > held.len() {
            received.len()
        } else {
            held.len()
        },
        overwritten(held, received).take(received.len() as int) == received,
        forall|i: int|
            received.len() <= i < held.len() ==> #[trigger] overwritten(held, received)[i]
                == held[i],
{
    assert(overwritten(held, received).take(received.len() as int) =~= received);
}

/// Storing bytes puts them at the front of a buffer and keeps what they do not reach: storing the
/// same bytes once more changes nothing, and storing none changes nothing either.
pub proof fn law_stored_bytes_are_in_front(
    buffer: &mut BytesMut,
    received: &[u8],
    again: &mut BytesMut,
)
    requires
        received@.len() <= isize::MAX,
        call_ensures(store_received, (buffer, received), ()),
        *old(again) == *final(buffer),
        call_ensures(store_received, (again, received), ()),
    ensures
        ({
            let held = bytes_mut_data(*old(buffer));
            let stored = bytes_mut_data(*final(buffer));
            &&& stored.len() >= held.len()
            &&& stored.len() >= received@.len()
            &&& stored.len() == held.len() || stored.len() == received@.len()
            &&& forall|i: int| 0 <= i < received@.len() ==> #[trigger] stored[i] == received@[i]
            &&& forall|i: int|
                received@.len() <= i < held.len() ==> #[trigger] stored[i] == held[i]
        }),
        bytes_mut_data(*final(again)) == bytes_mut_data(*final(buffer)),
        received@.len() == 0 ==> bytes_mut_data(*final(buffer)) == bytes_mut_data(*old(buffer)),
{
    let held = bytes_mut_data(*old(buffer));
    let stored = bytes_mut_data(*final(buffer));
    if received@.len() < held.len() {
        assert(held.skip(received@.len() as int).len() == held.len() - received@.len());
    }
    assert(overwritten(stored, received@) =~= stored);
    assert(received@.len() == 0 ==> stored =~= held);
}

} // verus!
