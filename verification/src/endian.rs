//! Byte orders, and the marker types that select one at a call site.

use vstd::prelude::*;

use crate::value::{signed_value, unsigned_value};

verus! {

/// The order in which the bytes of an integer follow one another.
#[derive(Clone, Copy, Debug, PartialEq, Eq, Structural)]
pub enum Endian {
    /// Little-endian: the byte at index 0 is the least significant one.
    LE,
    /// Big-endian: the byte at index 0 is the most significant one.
    BE,
    /// The order of the host, which is one of the two above.
    NE,
}

impl Endian {
    /// Whether `n` is what `bytes` spell as an unsigned number in this order.
    /// Under `LE` and under `BE` exactly one number is. Under `NE` the host
    /// decides between the two, so either of them may be.
    pub open spec fn reads_unsigned(self, bytes: Seq<u8>, n: nat) -> bool {
        match self {
            Endian::LE => n == unsigned_value(bytes, true),
            Endian::BE => n == unsigned_value(bytes, false),
            Endian::NE => n == unsigned_value(bytes, true) || n == unsigned_value(bytes, false),
        }
    }

    /// Whether `v` is what `bytes` spell as a signed number, in two's
    /// complement, in this order.
    pub open spec fn reads_signed(self, bytes: Seq<u8>, v: int) -> bool {
        match self {
            Endian::LE => v == signed_value(bytes, true),
            Endian::BE => v == signed_value(bytes, false),
            Endian::NE => v == signed_value(bytes, true) || v == signed_value(bytes, false),
        }
    }
}

/// Selects little-endian order.
pub struct Little;

/// Selects big-endian order.
pub struct Big;

/// Selects the order of the host.
pub struct Native;

} // verus!
