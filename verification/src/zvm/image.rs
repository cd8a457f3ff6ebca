//! The memory image: a fixed buffer of bytes with a read position, held in a
//! `std::io::Cursor` and read through `bytes::Buf`.
//!
//! Verus cannot look inside the cursor, so this module names what it holds
//! (`image_bytes`, `image_position`) and states, for each method of the
//! cursor that the decoder calls, what that method does to them. Those
//! statements are believed, not proved.

use bytes::Buf;
use std::io::Cursor;
use vstd::prelude::*;

verus! {

/// `std::io::Cursor`, of which Verus is told nothing but that it exists.
#[verifier::external_type_specification]
#[verifier::external_body]
#[verifier::reject_recursive_types(T)]
pub struct ExCursor<T>(Cursor<T>);

/// The bytes of the buffer that the cursor owns, from address 0 on.
pub uninterp spec fn image_bytes(image: Cursor<Box<[u8]>>) -> Seq<u8>;

/// The address at which the cursor reads next.
pub uninterp spec fn image_position(image: Cursor<Box<[u8]>>) -> u64;

/// How many bytes lie between `position` and the end of a buffer of `len`
/// bytes.
pub open spec fn bytes_left(len: nat, position: u64) -> nat {
    if position <= len {
        (len - position) as nat
    } else {
        0
    }
}

/// The unsigned 16-bit value whose big-endian bytes are `high`, `low`.
pub open spec fn word_of(high: u8, low: u8) -> int {
    high * 256 + low
}

/// The signed 16-bit value whose big-endian two's complement bytes are
/// `high`, `low`.
pub open spec fn signed_word_of(high: u8, low: u8) -> int {
    if high < 128 {
        word_of(high, low)
    } else {
        word_of(high, low) - 65536
    }
}

/// `Cursor::new`: a cursor over `bytes`, at position 0.
#[verifier::external_body]
pub(crate) fn cursor_new(bytes: Box<[u8]>) -> (image: Cursor<Box<[u8]>>)
    ensures
        image_bytes(image) == bytes@,
        image_position(image) == 0,
{
    Cursor::new(bytes)
}

/// `Vec::into_boxed_slice`: the same bytes, in a box.
#[verifier::external_body]
pub(crate) fn into_boxed(bytes: Vec<u8>) -> (boxed: Box<[u8]>)
    ensures
        boxed@ == bytes@,
{
    bytes.into_boxed_slice()
}

/// `Cursor::get_mut`: the buffer of the cursor, for writing. What is
/// written stands in the image afterwards; the buffer keeps its length and
/// the cursor its position.
#[verifier::external_body]
pub(crate) fn cursor_bytes_mut(image: &mut Cursor<Box<[u8]>>) -> (bytes: &mut [u8])
    ensures
        bytes@ == image_bytes(*old(image)),
        final(bytes)@.len() == bytes@.len(),
        image_bytes(*final(image)) == final(bytes)@,
        image_position(*final(image)) == image_position(*old(image)),
{
    image.get_mut()
}

/// `Cursor::get_ref`: the buffer of the cursor, for reading.
#[verifier::external_body]
pub(crate) fn cursor_bytes(image: &Cursor<Box<[u8]>>) -> (bytes: &[u8])
    ensures
        bytes@ == image_bytes(*image),
{
    image.get_ref()
}

/// `Cursor::position`.
#[verifier::external_body]
pub(crate) fn cursor_position(image: &Cursor<Box<[u8]>>) -> (position: u64)
    ensures
        position == image_position(*image),
{
    image.position()
}

/// `Cursor::set_position`: moves the cursor, to any position, also one past
/// the end; the buffer stays as it is.
#[verifier::external_body]
pub(crate) fn cursor_set_position(image: &mut Cursor<Box<[u8]>>, position: u64)
    ensures
        image_position(*final(image)) == position,
        image_bytes(*final(image)) == image_bytes(*old(image)),
{
    image.set_position(position)
}

/// `Buf::remaining` for a cursor: the bytes from the position to the end of
/// the buffer, none where the position lies past the end.
#[verifier::external_body]
pub(crate) fn cursor_remaining(image: &Cursor<Box<[u8]>>) -> (left: usize)
    ensures
        left == bytes_left(image_bytes(*image).len(), image_position(*image)),
{
    image.remaining()
}

/// `Buf::get_u8`: the byte at the position, which moves on by one. It panics
/// where no byte is left, so one must be.
#[verifier::external_body]
pub(crate) fn cursor_get_u8(image: &mut Cursor<Box<[u8]>>) -> (value: u8)
    requires
        image_position(*old(image)) < image_bytes(*old(image)).len(),
    ensures
        value == image_bytes(*old(image))[image_position(*old(image)) as int],
        image_position(*final(image)) == image_position(*old(image)) + 1,
        image_bytes(*final(image)) == image_bytes(*old(image)),
{
    image.get_u8()
}

/// `Buf::get_u16`: the two bytes at the position as a big-endian unsigned
/// value; the position moves on by two. It panics where fewer than two bytes
/// are left.
#[verifier::external_body]
pub(crate) fn cursor_get_u16(image: &mut Cursor<Box<[u8]>>) -> (value: u16)
    requires
        image_position(*old(image)) + 2 <= image_bytes(*old(image)).len(),
    ensures
        value == word_of(
            image_bytes(*old(image))[image_position(*old(image)) as int],
            image_bytes(*old(image))[image_position(*old(image)) + 1],
        ),
        image_position(*final(image)) == image_position(*old(image)) + 2,
        image_bytes(*final(image)) == image_bytes(*old(image)),
{
    image.get_u16()
}

/// `Buf::get_i16`: the two bytes at the position as a big-endian two's
/// complement value; the position moves on by two. It panics where fewer
/// than two bytes are left.
#[verifier::external_body]
pub(crate) fn cursor_get_i16(image: &mut Cursor<Box<[u8]>>) -> (value: i16)
    requires
        image_position(*old(image)) + 2 <= image_bytes(*old(image)).len(),
    ensures
        value == signed_word_of(
            image_bytes(*old(image))[image_position(*old(image)) as int],
            image_bytes(*old(image))[image_position(*old(image)) + 1],
        ),
        image_position(*final(image)) == image_position(*old(image)) + 2,
        image_bytes(*final(image)) == image_bytes(*old(image)),
{
    image.get_i16()
}

/// Reads one byte if one is left.
pub(crate) fn take_u8(image: &mut Cursor<Box<[u8]>>) -> (taken: Option<u8>)
    ensures
        image_bytes(*final(image)) == image_bytes(*old(image)),
        match taken {
            Some(value) => {
                &&& image_position(*old(image)) < image_bytes(*old(image)).len()
                &&& value == image_bytes(*old(image))[image_position(*old(image)) as int]
                &&& image_position(*final(image)) == image_position(*old(image)) + 1
            },
            None => {
                &&& image_position(*old(image)) >= image_bytes(*old(image)).len()
                &&& image_position(*final(image)) == image_position(*old(image))
            },
        },
{
    if cursor_remaining(image) >= 1 {
        Some(cursor_get_u8(image))
    } else {
        None
    }
}

/// Reads a big-endian unsigned 16-bit value if two bytes are left.
pub(crate) fn take_u16(image: &mut Cursor<Box<[u8]>>) -> (taken: Option<u16>)
    ensures
        image_bytes(*final(image)) == image_bytes(*old(image)),
        match taken {
            Some(value) => {
                &&& image_position(*old(image)) + 2 <= image_bytes(*old(image)).len()
                &&& value == word_of(
                    image_bytes(*old(image))[image_position(*old(image)) as int],
                    image_bytes(*old(image))[image_position(*old(image)) + 1],
                )
                &&& image_position(*final(image)) == image_position(*old(image)) + 2
            },
            None => {
                &&& image_position(*old(image)) + 2 > image_bytes(*old(image)).len()
                &&& image_position(*final(image)) == image_position(*old(image))
            },
        },
{
    if cursor_remaining(image) >= 2 {
        Some(cursor_get_u16(image))
    } else {
        None
    }
}

/// Reads a big-endian signed 16-bit value if two bytes are left.
pub(crate) fn take_i16(image: &mut Cursor<Box<[u8]>>) -> (taken: Option<i16>)
    ensures
        image_bytes(*final(image)) == image_bytes(*old(image)),
        match taken {
            Some(value) => {
                &&& image_position(*old(image)) + 2 <= image_bytes(*old(image)).len()
                &&& value == signed_word_of(
                    image_bytes(*old(image))[image_position(*old(image)) as int],
                    image_bytes(*old(image))[image_position(*old(image)) + 1],
                )
                &&& image_position(*final(image)) == image_position(*old(image)) + 2
            },
            None => {
                &&& image_position(*old(image)) + 2 > image_bytes(*old(image)).len()
                &&& image_position(*final(image)) == image_position(*old(image))
            },
        },
{
    if cursor_remaining(image) >= 2 {
        Some(cursor_get_i16(image))
    } else {
        None
    }
}

} // verus!
