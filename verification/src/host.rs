//! The byte order of the machine that runs the code.

use vstd::prelude::*;

use crate::endian::Endian;
use crate::value::{be_value, le_value};

verus! {

/// Calls `u16::from_ne_bytes`, which reads two bytes as a `u16` in the byte
/// order of the host. A host keeps the bytes of an integer either from the
/// least significant to the most significant or the other way round, so the
/// result is one of the two readings of `bytes`. Which of them it is differs
/// from host to host and is not stated.
#[verifier::external_body]
fn native_u16(bytes: [u8; 2]) -> (n: u16)
    ensures
        n as nat == le_value(bytes@) || n as nat == be_value(bytes@),
{
    u16::from_ne_bytes(bytes)
}

/// Whether bytes are read least significant first under `order` on this host.
/// For the host's own order the answer is found by reading the bytes 1, 0 in
/// that order: they spell 1 least significant byte first and 256 the other way
/// round, so the number read tells the two orders apart.
pub(crate) fn low_first(order: Endian) -> (low: bool)
    ensures
        order == Endian::LE ==> low,
        order == Endian::BE ==> !low,
{
    match order {
        Endian::LE => true,
        Endian::BE => false,
        Endian::NE => {
            let probe = native_u16([1u8, 0u8]);
            assert(probe == 1 || probe == 256) by {
                reveal_with_fuel(le_value, 3);
                reveal_with_fuel(be_value, 3);
            }
            probe == 1
        },
    }
}

} // verus!
