//! Bounds-checked reading of 16-, 32- and 64-bit integers, signed and
//! unsigned, from a byte buffer at a given offset and in a chosen byte order.
//!
//! The byte order is chosen by a marker type: [`Little`], [`Big`] or
//! [`Native`]. Each read comes in two forms. `to_int16` and its like ask the
//! caller to show that the bytes lie inside the buffer; `try_to_int16` and its
//! like test it and fail with [`InvalidBuffer`] where they do not. A read
//! looks at the bytes of its window and at nothing else.

use vstd::prelude::*;

pub mod endian;
pub mod error;
mod host;
pub mod laws;
pub mod read;
pub mod value;

use crate::endian::{Big, Endian, Little, Native};
use crate::error::{IntKind, InvalidBuffer};
use crate::host::low_first;
use crate::read::{in_bounds, read_signed, read_unsigned};
use crate::value::{lemma_modulus_of_widths, lemma_signed_range, lemma_unsigned_range, window};

verus! {

/// A type that selects a byte order at a call site.
pub trait BitConvEndian {
    /// The byte order that the type selects.
    spec fn endian() -> Endian;

    /// Returns the byte order that the type selects.
    fn as_endian() -> (order: Endian)
        ensures
            order == Self::endian(),
    ;
}

impl BitConvEndian for Little {
    open spec fn endian() -> Endian {
        Endian::LE
    }

    fn as_endian() -> (order: Endian) {
        Endian::LE
    }
}

impl BitConvEndian for Big {
    open spec fn endian() -> Endian {
        Endian::BE
    }

    fn as_endian() -> (order: Endian) {
        Endian::BE
    }
}

impl BitConvEndian for Native {
    open spec fn endian() -> Endian {
        Endian::NE
    }

    fn as_endian() -> (order: Endian) {
        Endian::NE
    }
}

/// Reads the two bytes of `data` that begin at `start_index` as a 16-bit signed
/// integer, in two's complement, in the byte order that `T` selects. The
/// bytes must all lie inside `data`; [`try_to_int16`] is for a caller that cannot
/// show it.
#[inline]
pub fn to_int16<T: BitConvEndian>(data: &[u8], start_index: usize) -> (value: i16)
    requires
        start_index + 2 <= data.len(),
    ensures
        T::endian().reads_signed(window(data@, start_index as int, 2), value as int),
{
    let low = low_first(T::as_endian());
    let v = read_signed(data, start_index, 2, low);
    proof {
        lemma_signed_range(window(data@, start_index as int, 2), low);
        lemma_modulus_of_widths();
    }
    v as i16
}

/// Reads the four bytes of `data` that begin at `start_index` as a 32-bit signed
/// integer, in two's complement, in the byte order that `T` selects. The
/// bytes must all lie inside `data`; [`try_to_int32`] is for a caller that cannot
/// show it.
#[inline]
pub fn to_int32<T: BitConvEndian>(data: &[u8], start_index: usize) -> (value: i32)
    requires
        start_index + 4 <= data.len(),
    ensures
        T::endian().reads_signed(window(data@, start_index as int, 4), value as int),
{
    let low = low_first(T::as_endian());
    let v = read_signed(data, start_index, 4, low);
    proof {
        lemma_signed_range(window(data@, start_index as int, 4), low);
        lemma_modulus_of_widths();
    }
    v as i32
}

/// Reads the eight bytes of `data` that begin at `start_index` as a 64-bit signed
/// integer, in two's complement, in the byte order that `T` selects. The
/// bytes must all lie inside `data`; [`try_to_int64`] is for a caller that cannot
/// show it.
#[inline]
pub fn to_int64<T: BitConvEndian>(data: &[u8], start_index: usize) -> (value: i64)
    requires
        start_index + 8 <= data.len(),
    ensures
        T::endian().reads_signed(window(data@, start_index as int, 8), value as int),
{
    let low = low_first(T::as_endian());
    let v = read_signed(data, start_index, 8, low);
    proof {
        lemma_signed_range(window(data@, start_index as int, 8), low);
        lemma_modulus_of_widths();
    }
    v
}

/// Reads the two bytes of `data` that begin at `start_index` as a 16-bit unsigned
/// integer, in the byte order that `T` selects. The
/// bytes must all lie inside `data`; [`try_to_uint16`] is for a caller that cannot
/// show it.
#[inline]
pub fn to_uint16<T: BitConvEndian>(data: &[u8], start_index: usize) -> (value: u16)
    requires
        start_index + 2 <= data.len(),
    ensures
        T::endian().reads_unsigned(window(data@, start_index as int, 2), value as nat),
{
    let low = low_first(T::as_endian());
    let n = read_unsigned(data, start_index, 2, low);
    proof {
        lemma_unsigned_range(window(data@, start_index as int, 2), low);
        lemma_modulus_of_widths();
    }
    n as u16
}

/// Reads the four bytes of `data` that begin at `start_index` as a 32-bit unsigned
/// integer, in the byte order that `T` selects. The
/// bytes must all lie inside `data`; [`try_to_uint32`] is for a caller that cannot
/// show it.
#[inline]
pub fn to_uint32<T: BitConvEndian>(data: &[u8], start_index: usize) -> (value: u32)
    requires
        start_index + 4 <= data.len(),
    ensures
        T::endian().reads_unsigned(window(data@, start_index as int, 4), value as nat),
{
    let low = low_first(T::as_endian());
    let n = read_unsigned(data, start_index, 4, low);
    proof {
        lemma_unsigned_range(window(data@, start_index as int, 4), low);
        lemma_modulus_of_widths();
    }
    n as u32
}

/// Reads the eight bytes of `data` that begin at `start_index` as a 64-bit unsigned
/// integer, in the byte order that `T` selects. The
/// bytes must all lie inside `data`; [`try_to_uint64`] is for a caller that cannot
/// show it.
#[inline]
pub fn to_uint64<T: BitConvEndian>(data: &[u8], start_index: usize) -> (value: u64)
    requires
        start_index + 8 <= data.len(),
    ensures
        T::endian().reads_unsigned(window(data@, start_index as int, 8), value as nat),
{
    let low = low_first(T::as_endian());
    let n = read_unsigned(data, start_index, 8, low);
    proof {
        lemma_unsigned_range(window(data@, start_index as int, 8), low);
        lemma_modulus_of_widths();
    }
    n
}

/// Reads as [`to_int16`] does where the two bytes that begin at
/// `start_index` all lie inside `data`, the last byte of `data` included, and
/// fails otherwise, before any byte is read.
#[inline]
pub fn try_to_int16<T: BitConvEndian>(data: &[u8], start_index: usize) -> (result: Result<
    i16,
    InvalidBuffer,
>)
    ensures
        result is Ok <==> start_index + 2 <= data.len(),
        result matches Ok(value) ==> T::endian().reads_signed(
            window(data@, start_index as int, 2),
            value as int,
        ),
        result matches Err(error) ==> error.kind == IntKind::I16,
{
    if in_bounds(data, start_index, 2) {
        Ok(to_int16::<T>(data, start_index))
    } else {
        Err(InvalidBuffer { kind: IntKind::I16 })
    }
}

/// Reads as [`to_int32`] does where the four bytes that begin at
/// `start_index` all lie inside `data`, the last byte of `data` included, and
/// fails otherwise, before any byte is read.
#[inline]
pub fn try_to_int32<T: BitConvEndian>(data: &[u8], start_index: usize) -> (result: Result<
    i32,
    InvalidBuffer,
>)
    ensures
        result is Ok <==> start_index + 4 <= data.len(),
        result matches Ok(value) ==> T::endian().reads_signed(
            window(data@, start_index as int, 4),
            value as int,
        ),
        result matches Err(error) ==> error.kind == IntKind::I32,
{
    if in_bounds(data, start_index, 4) {
        Ok(to_int32::<T>(data, start_index))
    } else {
        Err(InvalidBuffer { kind: IntKind::I32 })
    }
}

/// Reads as [`to_int64`] does where the eight bytes that begin at
/// `start_index` all lie inside `data`, the last byte of `data` included, and
/// fails otherwise, before any byte is read.
#[inline]
pub fn try_to_int64<T: BitConvEndian>(data: &[u8], start_index: usize) -> (result: Result<
    i64,
    InvalidBuffer,
>)
    ensures
        result is Ok <==> start_index + 8 <= data.len(),
        result matches Ok(value) ==> T::endian().reads_signed(
            window(data@, start_index as int, 8),
            value as int,
        ),
        result matches Err(error) ==> error.kind == IntKind::I64,
{
    if in_bounds(data, start_index, 8) {
        Ok(to_int64::<T>(data, start_index))
    } else {
        Err(InvalidBuffer { kind: IntKind::I64 })
    }
}

/// Reads as [`to_uint16`] does where the two bytes that begin at
/// `start_index` all lie inside `data`, the last byte of `data` included, and
/// fails otherwise, before any byte is read.
#[inline]
pub fn try_to_uint16<T: BitConvEndian>(data: &[u8], start_index: usize) -> (result: Result<
    u16,
    InvalidBuffer,
>)
    ensures
        result is Ok <==> start_index + 2 <= data.len(),
        result matches Ok(value) ==> T::endian().reads_unsigned(
            window(data@, start_index as int, 2),
            value as nat,
        ),
        result matches Err(error) ==> error.kind == IntKind::U16,
{
    if in_bounds(data, start_index, 2) {
        Ok(to_uint16::<T>(data, start_index))
    } else {
        Err(InvalidBuffer { kind: IntKind::U16 })
    }
}

/// Reads as [`to_uint32`] does where the four bytes that begin at
/// `start_index` all lie inside `data`, the last byte of `data` included, and
/// fails otherwise, before any byte is read.
#[inline]
pub fn try_to_uint32<T: BitConvEndian>(data: &[u8], start_index: usize) -> (result: Result<
    u32,
    InvalidBuffer,
>)
    ensures
        result is Ok <==> start_index + 4 <= data.len(),
        result matches Ok(value) ==> T::endian().reads_unsigned(
            window(data@, start_index as int, 4),
            value as nat,
        ),
        result matches Err(error) ==> error.kind == IntKind::U32,
{
    if in_bounds(data, start_index, 4) {
        Ok(to_uint32::<T>(data, start_index))
    } else {
        Err(InvalidBuffer { kind: IntKind::U32 })
    }
}

/// Reads as [`to_uint64`] does where the eight bytes that begin at
/// `start_index` all lie inside `data`, the last byte of `data` included, and
/// fails otherwise, before any byte is read.
#[inline]
pub fn try_to_uint64<T: BitConvEndian>(data: &[u8], start_index: usize) -> (result: Result<
    u64,
    InvalidBuffer,
>)
    ensures
        result is Ok <==> start_index + 8 <= data.len(),
        result matches Ok(value) ==> T::endian().reads_unsigned(
            window(data@, start_index as int, 8),
            value as nat,
        ),
        result matches Err(error) ==> error.kind == IntKind::U64,
{
    if in_bounds(data, start_index, 8) {
        Ok(to_uint64::<T>(data, start_index))
    } else {
        Err(InvalidBuffer { kind: IntKind::U64 })
    }
}

} // verus!
