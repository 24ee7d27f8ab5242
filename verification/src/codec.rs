//! Packing and unpacking of the 32-bit ioctl command word.
//!
//! The layout is fixed: direction (2 bits, most significant), argument size
//! (14 bits), type/magic (8 bits), sequence number (8 bits).

use vstd::prelude::*;

verus! {

/// Direction field of a command that carries no argument.
pub const DIR_NONE: u8 = 0;
/// Direction field of a command whose argument is written by the caller.
pub const DIR_WRITE: u8 = 1;
/// Direction field of a command whose argument is read back by the caller.
pub const DIR_READ: u8 = 2;
/// Direction field of a command whose argument is both written and read.
pub const DIR_READ_WRITE: u8 = 3;

/// Largest value that fits the 14-bit size field, plus one.
pub const SIZE_FIELD_LIMIT: u16 = 0x4000;

/// The packed command word for the given fields.
pub open spec fn spec_compose(dir: u8, ty: u8, nr: u8, size: u16) -> u32 {
    ((dir as u32) << 30) | ((size as u32) << 16) | ((ty as u32) << 8) | (nr as u32)
}

/// Direction field of a packed command word.
pub open spec fn spec_dir(cmd: u32) -> u8 {
    ((cmd >> 30) & 0x3) as u8
}

/// Size field of a packed command word.
pub open spec fn spec_size(cmd: u32) -> u16 {
    ((cmd >> 16) & 0x3FFF) as u16
}

/// Type/magic field of a packed command word.
pub open spec fn spec_ty(cmd: u32) -> u8 {
    ((cmd >> 8) & 0xFF) as u8
}

/// Sequence field of a packed command word.
pub open spec fn spec_nr(cmd: u32) -> u8 {
    (cmd & 0xFF) as u8
}

/// Pack direction, type, sequence and size into one command word.
///
/// Out-of-range fields are a caller error, excluded up front: the direction
/// has 2 bits and the size 14.
pub fn compose(dir: u8, ty: u8, nr: u8, size: u16) -> (cmd: u32)
    requires
        dir < 4,
        size < SIZE_FIELD_LIMIT,
    ensures
        cmd == spec_compose(dir, ty, nr, size),
{
    ((dir as u32) << 30u32) | ((size as u32) << 16u32) | ((ty as u32) << 8u32) | (nr as u32)
}

/// Unpack a command word into (direction, type, sequence, size).
pub fn decompose(cmd: u32) -> (r: (u8, u8, u8, u16))
    ensures
        r == (spec_dir(cmd), spec_ty(cmd), spec_nr(cmd), spec_size(cmd)),
{
    (
        ((cmd >> 30u32) & 0x3) as u8,
        ((cmd >> 8u32) & 0xFF) as u8,
        (cmd & 0xFF) as u8,
        ((cmd >> 16u32) & 0x3FFF) as u16,
    )
}

/// The codec round-trips: unpacking a packed command word gives back
/// exactly the fields that went in, for every in-range input.
pub proof fn lemma_codec_round_trip(dir: u8, ty: u8, nr: u8, size: u16)
    by (bit_vector)
    requires
        dir < 4,
        size < SIZE_FIELD_LIMIT,
    ensures
        spec_dir(spec_compose(dir, ty, nr, size)) == dir,
        spec_ty(spec_compose(dir, ty, nr, size)) == ty,
        spec_nr(spec_compose(dir, ty, nr, size)) == nr,
        spec_size(spec_compose(dir, ty, nr, size)) == size,
{
}

} // verus!
