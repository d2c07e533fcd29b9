//! What the parser and the connection rely on of the `bytes` crate's two
//! buffer types. Nothing here is proved: each contract states what the crate's
//! source shows.

use bytes::{Buf, ByteBuf, MutByteBuf};
use vstd::prelude::*;

verus! {

/// `bytes::ByteBuf`, a buffer in read mode. Nothing of its inside is known
/// here but what the names below say.
#[verifier::external_type_specification]
#[verifier::external_body]
pub struct ExByteBuf(ByteBuf);

/// `bytes::MutByteBuf`, a buffer in write mode. Nothing of its inside is known
/// here but what the names below say.
#[verifier::external_type_specification]
#[verifier::external_body]
pub struct ExMutByteBuf(MutByteBuf);

/// The bytes that a buffer in read mode has yet to hand out: those from its
/// position up to its limit.
pub uninterp spec fn unread(buffer: ByteBuf) -> Seq<u8>;

/// The bytes that a buffer in write mode holds: those in front of its
/// position.
pub uninterp spec fn written(buffer: MutByteBuf) -> Seq<u8>;

/// Whether a buffer in read mode is in order: its position is not beyond its
/// limit. A buffer can be brought out of order by resetting it to a mark that
/// was set before the buffer was last filled; on such a buffer the crate's
/// count of the bytes left is wrong.
pub uninterp spec fn in_order(buffer: ByteBuf) -> bool;

/// `ByteBuf::mut_with_capacity` returns a buffer in write mode that holds
/// nothing yet. It refuses a capacity above `u32::MAX`, and rounds the capacity
/// up to a power of two in 32 bits, so the contract admits none above 2^31.
pub assume_specification[ ByteBuf::mut_with_capacity ](capacity: usize) -> (r: MutByteBuf)
    requires
        capacity <= 0x8000_0000,
    ensures
        written(r) == Seq::<u8>::empty(),
;

/// `MutByteBuf::flip` turns a buffer to read mode: its limit becomes the old
/// position and its position zero, so all that was written is yet to be read,
/// and the buffer is in order.
pub assume_specification[ MutByteBuf::flip ](buffer: MutByteBuf) -> (r: ByteBuf)
    ensures
        unread(r) == written(buffer),
        in_order(r),
;

/// `ByteBuf::flip` turns a buffer to write mode and clears it: its position
/// becomes zero, so it holds nothing.
pub assume_specification[ ByteBuf::flip ](buffer: ByteBuf) -> (r: MutByteBuf)
    ensures
        written(r) == Seq::<u8>::empty(),
;

/// `Buf::remaining` on a `ByteBuf`: the number of bytes between position and
/// limit. The crate subtracts the one from the other without a test, so the
/// contract admits a buffer in order only.
#[verifier::external_body]
pub(crate) fn remaining(buffer: &ByteBuf) -> (n: usize)
    requires
        in_order(*buffer),
    ensures
        n == unread(*buffer).len(),
{
    buffer.remaining()
}

/// `Buf::bytes` on a `ByteBuf`: the slice between position and limit. A
/// buffer made with capacity zero has no memory behind it, and the call would
/// read through a null pointer: such a buffer has nothing unread, and the
/// contract leaves it out.
#[verifier::external_body]
pub(crate) fn unread_slice(buffer: &ByteBuf) -> (r: &[u8])
    requires
        in_order(*buffer),
        unread(*buffer).len() > 0,
    ensures
        r@ == unread(*buffer),
{
    buffer.bytes()
}

/// `Buf::advance` on a `ByteBuf`: moves the position forward by `count`, or up
/// to the limit where fewer bytes are left, so a buffer in order stays in
/// order. It counts the bytes left as `Buf::remaining` does, so the contract
/// admits a buffer in order only.
#[verifier::external_body]
pub(crate) fn advance(buffer: &mut ByteBuf, count: usize)
    requires
        in_order(*old(buffer)),
    ensures
        in_order(*final(buffer)),
        unread(*final(buffer)) == if count <= unread(*old(buffer)).len() {
            unread(*old(buffer)).skip(count as int)
        } else {
            Seq::<u8>::empty()
        },
{
    buffer.advance(count)
}

} // verus!
