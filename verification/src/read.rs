//! Reading one number out of a buffer, byte by byte, in a byte order that the
//! caller has settled.

use vstd::prelude::*;

use crate::value::{
    be_value, le_value, lemma_modulus_grows, lemma_modulus_of_widths, lemma_unsigned_range,
    modulus, signed_value, unsigned_value, window,
};

verus! {

/// Whether the `width` bytes that begin at `start` all lie inside `data`. The
/// sum of `start` and `width` is never formed, so it cannot overflow.
pub fn in_bounds(data: &[u8], start: usize, width: usize) -> (inside: bool)
    ensures
        inside <==> start + width <= data.len(),
{
    start <= data.len() && width <= data.len() - start
}

/// Reads the `width` bytes of `data` that begin at `start` as one unsigned
/// number: least significant byte first if `low_first` holds, most significant
/// byte first otherwise. No byte outside that window is looked at.
pub fn read_unsigned(data: &[u8], start: usize, width: usize, low_first: bool) -> (n: u64)
    requires
        width <= 8,
        start + width <= data.len(),
    ensures
        n as nat == unsigned_value(window(data@, start as int, width as int), low_first),
{
    let ghost bytes = window(data@, start as int, width as int);
    let mut n: u64 = 0;
    let mut taken: usize = 0;
    while taken < width
        invariant
            taken <= width <= 8,
            start + width <= data.len(),
            bytes == window(data@, start as int, width as int),
            n < modulus(taken as nat),
            low_first ==> n as nat == le_value(bytes.subrange(width - taken, width as int)),
            !low_first ==> n as nat == be_value(bytes.subrange(0, taken as int)),
        decreases width - taken,
    {
        let at: usize = if low_first {
            start + (width - 1 - taken)
        } else {
            start + taken
        };
        let byte: u8 = data[at];
        proof {
            // At most seven bytes are in `n`, so there is room for one more.
            lemma_modulus_grows(taken as nat, 7);
            lemma_modulus_grows(7, 8);
            lemma_modulus_of_widths();
            // The new byte is the least significant one of the longer run.
            if low_first {
                let longer = bytes.subrange(width - taken - 1, width as int);
                assert(longer.drop_first() == bytes.subrange(width - taken, width as int));
                assert(longer.first() == byte);
            } else {
                let longer = bytes.subrange(0, taken + 1);
                assert(longer.drop_last() == bytes.subrange(0, taken as int));
                assert(longer.last() == byte);
            }
        }
        n = n * 256 + byte as u64;
        taken = taken + 1;
    }
    proof {
        assert(bytes.subrange(0, width as int) == bytes);
    }
    n
}

/// Half the modulus of `width` bytes: the least unsigned number that stands
/// for a negative one.
fn half_modulus(width: usize) -> (half: u64)
    requires
        1 <= width <= 8,
    ensures
        2 * half == modulus(width as nat),
{
    let mut half: u64 = 128;
    let mut bytes: usize = 1;
    proof {
        reveal_with_fuel(modulus, 2);
    }
    while bytes < width
        invariant
            1 <= bytes <= width <= 8,
            2 * half == modulus(bytes as nat),
        decreases width - bytes,
    {
        proof {
            // The modulus of at most seven bytes is far below that of eight.
            lemma_modulus_grows(bytes as nat, 7);
            lemma_modulus_grows(7, 8);
            lemma_modulus_of_widths();
        }
        half = half * 256;
        bytes = bytes + 1;
    }
    half
}

/// Reads the `width` bytes of `data` that begin at `start` as one signed
/// number in two's complement: least significant byte first if `low_first`
/// holds, most significant byte first otherwise. No byte outside that window
/// is looked at.
pub fn read_signed(data: &[u8], start: usize, width: usize, low_first: bool) -> (v: i64)
    requires
        1 <= width <= 8,
        start + width <= data.len(),
    ensures
        v as int == signed_value(window(data@, start as int, width as int), low_first),
{
    let n = read_unsigned(data, start, width, low_first);
    let half = half_modulus(width);
    proof {
        lemma_unsigned_range(window(data@, start as int, width as int), low_first);
        lemma_modulus_grows(width as nat, 8);
        lemma_modulus_of_widths();
    }
    if n < half {
        n as i64
    } else {
        // `n` less the modulus, formed without leaving the range of `i64`.
        (n - half) as i64 - (half - 1) as i64 - 1
    }
}

} // verus!
