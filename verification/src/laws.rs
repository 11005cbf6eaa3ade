//! Laws of the readings: what they depend on, how the two byte orders mirror
//! each other, what the extreme byte patterns spell, and that every number in
//! range is spelled by exactly one run of bytes.

use vstd::prelude::*;

use crate::endian::Endian;
use crate::value::{
    be_value, le_value, lemma_modulus_of_widths, modulus, signed_bytes, signed_value,
    unsigned_bytes, unsigned_value, window,
};

verus! {

/// A reading depends on the bytes of its window and on nothing else: two
/// buffers that agree on the `width` bytes from `start` on give the same
/// window there, hence the same unsigned and signed numbers in either order,
/// however they differ elsewhere, in content or in length.
pub proof fn lemma_only_the_window_counts(
    a: Seq<u8>,
    b: Seq<u8>,
    start: int,
    width: int,
    low_first: bool,
)
    requires
        0 <= start,
        0 <= width,
        start + width <= a.len(),
        start + width <= b.len(),
        forall|i: int| start <= i < start + width ==> a[i] == b[i],
    ensures
        window(a, start, width) == window(b, start, width),
        unsigned_value(window(a, start, width), low_first) == unsigned_value(
            window(b, start, width),
            low_first,
        ),
        signed_value(window(a, start, width), low_first) == signed_value(
            window(b, start, width),
            low_first,
        ),
        forall|order: Endian, n: nat|
            order.reads_unsigned(window(a, start, width), n) == order.reads_unsigned(
                window(b, start, width),
                n,
            ),
        forall|order: Endian, v: int|
            order.reads_signed(window(a, start, width), v) == order.reads_signed(
                window(b, start, width),
                v,
            ),
{
    assert(window(a, start, width) =~= window(b, start, width));
}

/// Little-endian and big-endian mirror each other: bytes read least
/// significant first spell what the same bytes in reverse spell when read most
/// significant first.
pub proof fn lemma_le_is_be_of_reverse(bytes: Seq<u8>)
    ensures
        le_value(bytes) == be_value(bytes.reverse()),
    decreases bytes.len(),
{
    if bytes.len() > 0 {
        let mirrored = bytes.reverse();
        assert(mirrored.last() == bytes.first());
        assert(mirrored.drop_last() =~= bytes.drop_first().reverse());
        lemma_le_is_be_of_reverse(bytes.drop_first());
    }
}

/// Order symmetry: reading a run of bytes in one order gives the number that
/// reading the reversed run in the other order gives, unsigned and signed.
pub proof fn lemma_order_symmetry(bytes: Seq<u8>, low_first: bool)
    ensures
        unsigned_value(bytes, low_first) == unsigned_value(bytes.reverse(), !low_first),
        signed_value(bytes, low_first) == signed_value(bytes.reverse(), !low_first),
{
    if low_first {
        lemma_le_is_be_of_reverse(bytes);
    } else {
        assert(bytes.reverse().reverse() =~= bytes);
        lemma_le_is_be_of_reverse(bytes.reverse());
    }
}

/// Order symmetry of the reads: what a little-endian read of a run of bytes
/// may give is what a big-endian read of the reversed run may give, and the
/// other way round.
pub proof fn lemma_reads_mirror(bytes: Seq<u8>, n: nat, v: int)
    ensures
        Endian::LE.reads_unsigned(bytes, n) <==> Endian::BE.reads_unsigned(bytes.reverse(), n),
        Endian::BE.reads_unsigned(bytes, n) <==> Endian::LE.reads_unsigned(bytes.reverse(), n),
        Endian::LE.reads_signed(bytes, v) <==> Endian::BE.reads_signed(bytes.reverse(), v),
        Endian::BE.reads_signed(bytes, v) <==> Endian::LE.reads_signed(bytes.reverse(), v),
{
    lemma_order_symmetry(bytes, true);
    lemma_order_symmetry(bytes, false);
}

/// Bytes that are all `0x00` spell 0, unsigned and signed, in either order.
pub proof fn lemma_all_zero_bytes(bytes: Seq<u8>, low_first: bool)
    requires
        forall|i: int| 0 <= i < bytes.len() ==> bytes[i] == 0x00,
    ensures
        unsigned_value(bytes, low_first) == 0,
        signed_value(bytes, low_first) == 0,
    decreases bytes.len(),
{
    if bytes.len() > 0 {
        if low_first {
            lemma_all_zero_bytes(bytes.drop_first(), low_first);
        } else {
            lemma_all_zero_bytes(bytes.drop_last(), low_first);
        }
    }
}

/// Bytes that are all `0xFF` spell the greatest unsigned number of their
/// width, which for two, four and eight bytes is the maximum of `u16`, `u32`
/// and `u64`, and, where there is at least one byte, the signed number -1.
pub proof fn lemma_all_ff_bytes(bytes: Seq<u8>, low_first: bool)
    requires
        forall|i: int| 0 <= i < bytes.len() ==> bytes[i] == 0xFF,
    ensures
        unsigned_value(bytes, low_first) == modulus(bytes.len()) - 1,
        bytes.len() >= 1 ==> signed_value(bytes, low_first) == -1,
        bytes.len() == 2 ==> unsigned_value(bytes, low_first) == u16::MAX,
        bytes.len() == 4 ==> unsigned_value(bytes, low_first) == u32::MAX,
        bytes.len() == 8 ==> unsigned_value(bytes, low_first) == u64::MAX,
    decreases bytes.len(),
{
    lemma_modulus_of_widths();
    if bytes.len() > 0 {
        if low_first {
            lemma_all_ff_bytes(bytes.drop_first(), low_first);
        } else {
            lemma_all_ff_bytes(bytes.drop_last(), low_first);
        }
    }
}

/// On the two extreme byte patterns the byte order makes no difference, so a
/// read in any order, the host's included, has one possible result: 0 where
/// all bytes are `0x00`; where all are `0xFF`, the modulus less 1 if unsigned
/// and -1 if signed.
pub proof fn lemma_extreme_patterns_read_alike(bytes: Seq<u8>, order: Endian, n: nat, v: int)
    requires
        bytes.len() >= 1,
    ensures
        (forall|i: int| 0 <= i < bytes.len() ==> bytes[i] == 0x00) ==> (order.reads_unsigned(
            bytes,
            n,
        ) <==> n == 0) && (order.reads_signed(bytes, v) <==> v == 0),
        (forall|i: int| 0 <= i < bytes.len() ==> bytes[i] == 0xFF) ==> (order.reads_unsigned(
            bytes,
            n,
        ) <==> n == modulus(bytes.len()) - 1) && (order.reads_signed(bytes, v) <==> v == -1),
{
    if forall|i: int| 0 <= i < bytes.len() ==> bytes[i] == 0x00 {
        lemma_all_zero_bytes(bytes, true);
        lemma_all_zero_bytes(bytes, false);
    }
    if forall|i: int| 0 <= i < bytes.len() ==> bytes[i] == 0xFF {
        lemma_all_ff_bytes(bytes, true);
        lemma_all_ff_bytes(bytes, false);
    }
}

/// Every unsigned number below the modulus of `width` is spelled by a run of
/// `width` bytes: reading the bytes that spell it gives the number back.
pub proof fn lemma_read_of_unsigned_bytes(n: nat, width: nat, low_first: bool)
    requires
        n < modulus(width),
    ensures
        unsigned_bytes(n, width, low_first).len() == width,
        unsigned_value(unsigned_bytes(n, width, low_first), low_first) == n,
    decreases width,
{
    if width > 0 {
        let shorter = unsigned_bytes(n / 256, (width - 1) as nat, low_first);
        lemma_read_of_unsigned_bytes(n / 256, (width - 1) as nat, low_first);
        let bytes = unsigned_bytes(n, width, low_first);
        if low_first {
            assert(bytes.drop_first() =~= shorter);
        } else {
            assert(bytes.drop_last() =~= shorter);
        }
    }
}

/// Every signed number in the two's-complement range of `width` bytes is
/// spelled by a run of `width` bytes: reading the bytes that spell it gives
/// the number back.
pub proof fn lemma_read_of_signed_bytes(v: int, width: nat, low_first: bool)
    requires
        width >= 1,
        -(modulus(width) / 2) <= v < modulus(width) / 2,
    ensures
        signed_bytes(v, width, low_first).len() == width,
        signed_value(signed_bytes(v, width, low_first), low_first) == v,
{
    let n = if v < 0 {
        v + modulus(width)
    } else {
        v
    };
    lemma_read_of_unsigned_bytes(n as nat, width, low_first);
}

/// No two runs of bytes of one length spell the same number: the bytes that
/// spell the number read from `bytes` are `bytes` themselves.
pub proof fn lemma_bytes_of_unsigned_read(bytes: Seq<u8>, low_first: bool)
    ensures
        unsigned_bytes(unsigned_value(bytes, low_first), bytes.len(), low_first) == bytes,
    decreases bytes.len(),
{
    if bytes.len() > 0 {
        if low_first {
            lemma_bytes_of_unsigned_read(bytes.drop_first(), low_first);
            assert(seq![bytes.first()] + bytes.drop_first() =~= bytes);
        } else {
            lemma_bytes_of_unsigned_read(bytes.drop_last(), low_first);
            assert(bytes.drop_last().push(bytes.last()) =~= bytes);
        }
    } else {
        assert(bytes =~= Seq::<u8>::empty());
    }
}

} // verus!
