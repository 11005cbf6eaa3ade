//! What a run of bytes means as a number, in either byte order, and which
//! bytes spell a given number.

use vstd::prelude::*;

verus! {

/// How many numbers `width` bytes can tell apart: 256 to the power `width`.
pub open spec fn modulus(width: nat) -> nat
    decreases width,
{
    if width == 0 {
        1
    } else {
        256 * modulus((width - 1) as nat)
    }
}

/// The `width` bytes of `buffer` that begin at index `start`.
pub open spec fn window(buffer: Seq<u8>, start: int, width: int) -> Seq<u8> {
    buffer.subrange(start, start + width)
}

/// The number that `bytes` spell with the least significant byte first.
pub open spec fn le_value(bytes: Seq<u8>) -> nat
    decreases bytes.len(),
{
    if bytes.len() == 0 {
        0
    } else {
        bytes.first() as nat + 256 * le_value(bytes.drop_first())
    }
}

/// The number that `bytes` spell with the most significant byte first.
pub open spec fn be_value(bytes: Seq<u8>) -> nat
    decreases bytes.len(),
{
    if bytes.len() == 0 {
        0
    } else {
        256 * be_value(bytes.drop_last()) + bytes.last() as nat
    }
}

/// The unsigned number that `bytes` spell: least significant byte first if
/// `low_first` holds, most significant byte first otherwise.
pub open spec fn unsigned_value(bytes: Seq<u8>, low_first: bool) -> nat {
    if low_first {
        le_value(bytes)
    } else {
        be_value(bytes)
    }
}

/// The signed number that the unsigned number `n` stands for in two's
/// complement, where `count` numbers can be told apart: the upper half of the
/// unsigned range stands for the negative numbers.
pub open spec fn twos_complement(n: nat, count: nat) -> int {
    if 2 * n < count {
        n as int
    } else {
        n - count
    }
}

/// The signed number that `bytes` spell in two's complement.
pub open spec fn signed_value(bytes: Seq<u8>, low_first: bool) -> int {
    twos_complement(unsigned_value(bytes, low_first), modulus(bytes.len()))
}

/// The `width` bytes that spell `n` with the least significant byte first,
/// for `n` below the modulus of `width`.
pub open spec fn le_bytes(n: nat, width: nat) -> Seq<u8>
    decreases width,
{
    if width == 0 {
        Seq::empty()
    } else {
        seq![(n % 256) as u8] + le_bytes(n / 256, (width - 1) as nat)
    }
}

/// The `width` bytes that spell `n` with the most significant byte first, for
/// `n` below the modulus of `width`.
pub open spec fn be_bytes(n: nat, width: nat) -> Seq<u8>
    decreases width,
{
    if width == 0 {
        Seq::empty()
    } else {
        be_bytes(n / 256, (width - 1) as nat).push((n % 256) as u8)
    }
}

/// The `width` bytes that spell the unsigned number `n` in the given order.
pub open spec fn unsigned_bytes(n: nat, width: nat, low_first: bool) -> Seq<u8> {
    if low_first {
        le_bytes(n, width)
    } else {
        be_bytes(n, width)
    }
}

/// The `width` bytes that spell the signed number `v` in two's complement in
/// the given order: those of `v` itself where it is not negative, and those of
/// `v` plus the modulus where it is.
pub open spec fn signed_bytes(v: int, width: nat, low_first: bool) -> Seq<u8> {
    let n = if v < 0 {
        v + modulus(width)
    } else {
        v
    };
    unsigned_bytes(n as nat, width, low_first)
}

/// The moduli of the three widths that the library reads.
pub proof fn lemma_modulus_of_widths()
    ensures
        modulus(2) == 0x1_0000,
        modulus(4) == 0x1_0000_0000,
        modulus(8) == 0x1_0000_0000_0000_0000,
{
    reveal_with_fuel(modulus, 9);
}

/// A modulus grows with the width.
pub proof fn lemma_modulus_grows(narrow: nat, wide: nat)
    requires
        narrow <= wide,
    ensures
        1 <= modulus(narrow) <= modulus(wide),
    decreases wide,
{
    if wide == 0 {
    } else if narrow == wide {
        lemma_modulus_grows((narrow - 1) as nat, (wide - 1) as nat);
    } else {
        lemma_modulus_grows(narrow, (wide - 1) as nat);
    }
}

/// The unsigned reading of `bytes` is below the modulus of their number.
pub proof fn lemma_unsigned_range(bytes: Seq<u8>, low_first: bool)
    ensures
        unsigned_value(bytes, low_first) < modulus(bytes.len()),
    decreases bytes.len(),
{
    if bytes.len() > 0 {
        if low_first {
            lemma_unsigned_range(bytes.drop_first(), low_first);
        } else {
            lemma_unsigned_range(bytes.drop_last(), low_first);
        }
    }
}

/// The signed reading of at least one byte lies in the two's-complement range
/// of that many bytes: from minus half the modulus up to, but not including,
/// half the modulus.
pub proof fn lemma_signed_range(bytes: Seq<u8>, low_first: bool)
    requires
        bytes.len() >= 1,
    ensures
        -(modulus(bytes.len()) / 2) <= signed_value(bytes, low_first) < modulus(bytes.len()) / 2,
{
    lemma_unsigned_range(bytes, low_first);
}

} // verus!
