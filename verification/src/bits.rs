//! Facts about single bytes read as seven day bits, proved by bit blasting.
//!
//! Day `d` (Monday = 0 … Sunday = 6) is the bit `0b100_0000 >> d`.

use vstd::prelude::*;

verus! {

/// Masking a byte to seven bits leaves at most `0b111_1111`.
pub proof fn lemma_mask_bounded(x: u8)
    by (bit_vector)
    ensures
        x & 0b111_1111 <= 0b111_1111,
        x <= 0b111_1111 ==> x & 0b111_1111 == x,
{
}

/// The bitwise operations never set the eighth bit of seven-bit operands.
pub proof fn lemma_algebra_bounded(a: u8, b: u8)
    by (bit_vector)
    requires
        a <= 0b111_1111,
        b <= 0b111_1111,
    ensures
        a | b <= 0b111_1111,
        a & b <= 0b111_1111,
        a ^ b <= 0b111_1111,
        a & !b <= 0b111_1111,
        !a & 0b111_1111 <= 0b111_1111,
{
}

/// What each bitwise operation does to the bit of a single day.
pub proof fn lemma_algebra_day(a: u8, b: u8, d: u8)
    by (bit_vector)
    requires
        d < 7,
    ensures
        ((a | b) & (0b100_0000u8 >> d) != 0) == (a & (0b100_0000u8 >> d) != 0 || b & (0b100_0000u8
            >> d) != 0),
        ((a & b) & (0b100_0000u8 >> d) != 0) == (a & (0b100_0000u8 >> d) != 0 && b & (0b100_0000u8
            >> d) != 0),
        ((a ^ b) & (0b100_0000u8 >> d) != 0) == ((a & (0b100_0000u8 >> d) != 0) != (b & (
        0b100_0000u8 >> d) != 0)),
        ((a & !b) & (0b100_0000u8 >> d) != 0) == (a & (0b100_0000u8 >> d) != 0 && !(b & (
        0b100_0000u8 >> d) != 0)),
        ((!a & 0b111_1111) & (0b100_0000u8 >> d) != 0) == !(a & (0b100_0000u8 >> d) != 0),
        ((a & 0b111_1111) & (0b100_0000u8 >> d) != 0) == (a & (0b100_0000u8 >> d) != 0),
{
}

/// A byte that holds all the bits of another holds each of its days.
pub proof fn lemma_superset_day(a: u8, b: u8, d: u8)
    by (bit_vector)
    requires
        d < 7,
        a & b == b,
        b & (0b100_0000u8 >> d) != 0,
    ensures
        a & (0b100_0000u8 >> d) != 0,
{
}

/// A byte that holds each day of a seven-bit byte holds all of its bits.
pub proof fn lemma_superset_from_days(a: u8, b: u8)
    by (bit_vector)
    requires
        b <= 0b111_1111,
        b & (0b100_0000u8 >> 0u8) != 0 ==> a & (0b100_0000u8 >> 0u8) != 0,
        b & (0b100_0000u8 >> 1u8) != 0 ==> a & (0b100_0000u8 >> 1u8) != 0,
        b & (0b100_0000u8 >> 2u8) != 0 ==> a & (0b100_0000u8 >> 2u8) != 0,
        b & (0b100_0000u8 >> 3u8) != 0 ==> a & (0b100_0000u8 >> 3u8) != 0,
        b & (0b100_0000u8 >> 4u8) != 0 ==> a & (0b100_0000u8 >> 4u8) != 0,
        b & (0b100_0000u8 >> 5u8) != 0 ==> a & (0b100_0000u8 >> 5u8) != 0,
        b & (0b100_0000u8 >> 6u8) != 0 ==> a & (0b100_0000u8 >> 6u8) != 0,
    ensures
        a & b == b,
{
}

/// Two seven-bit bytes with the same days are the same byte.
pub proof fn lemma_equal_from_days(a: u8, b: u8)
    by (bit_vector)
    requires
        a <= 0b111_1111,
        b <= 0b111_1111,
        (a & (0b100_0000u8 >> 0u8) != 0) == (b & (0b100_0000u8 >> 0u8) != 0),
        (a & (0b100_0000u8 >> 1u8) != 0) == (b & (0b100_0000u8 >> 1u8) != 0),
        (a & (0b100_0000u8 >> 2u8) != 0) == (b & (0b100_0000u8 >> 2u8) != 0),
        (a & (0b100_0000u8 >> 3u8) != 0) == (b & (0b100_0000u8 >> 3u8) != 0),
        (a & (0b100_0000u8 >> 4u8) != 0) == (b & (0b100_0000u8 >> 4u8) != 0),
        (a & (0b100_0000u8 >> 5u8) != 0) == (b & (0b100_0000u8 >> 5u8) != 0),
        (a & (0b100_0000u8 >> 6u8) != 0) == (b & (0b100_0000u8 >> 6u8) != 0),
    ensures
        a == b,
{
}

/// The weekend mask covers Saturday and Sunday, the weekday mask Monday to Friday.
pub proof fn lemma_week_parts(a: u8)
    by (bit_vector)
    ensures
        (a & 0b000_0011 == 0) == (a & (0b100_0000u8 >> 5u8) == 0 && a & (0b100_0000u8 >> 6u8)
            == 0),
        (a & 0b111_1100 == 0) == (a & (0b100_0000u8 >> 0u8) == 0 && a & (0b100_0000u8 >> 1u8)
            == 0 && a & (0b100_0000u8 >> 2u8) == 0 && a & (0b100_0000u8 >> 3u8) == 0 && a & (
        0b100_0000u8 >> 4u8) == 0),
{
}

/// The bit of one day is a seven-bit byte that holds that day and no other.
pub proof fn lemma_single_day(d: u8, e: u8)
    by (bit_vector)
    requires
        d < 7,
        e < 7,
    ensures
        0b100_0000u8 >> d <= 0b111_1111,
        0b100_0000u8 >> d != 0,
        ((0b100_0000u8 >> d) & (0b100_0000u8 >> e) != 0) == (d == e),
{
}

/// The days that the named bit patterns hold.
pub proof fn lemma_named_patterns(d: u8)
    by (bit_vector)
    requires
        d < 7,
    ensures
        (0b111_1100u8 & (0b100_0000u8 >> d) != 0) == (d < 5),
        (0b000_0011u8 & (0b100_0000u8 >> d) != 0) == (d >= 5),
        0b111_1111u8 & (0b100_0000u8 >> d) != 0,
        0b000_0000u8 & (0b100_0000u8 >> d) == 0,
{
}

/// The bit of each day, written out.
pub proof fn lemma_day_bits()
    by (bit_vector)
    ensures
        0b100_0000u8 >> 0u8 == 0b100_0000,
        0b100_0000u8 >> 1u8 == 0b010_0000,
        0b100_0000u8 >> 2u8 == 0b001_0000,
        0b100_0000u8 >> 3u8 == 0b000_1000,
        0b100_0000u8 >> 4u8 == 0b000_0100,
        0b100_0000u8 >> 5u8 == 0b000_0010,
        0b100_0000u8 >> 6u8 == 0b000_0001,
{
}

/// Testing for all the bits of one day is testing for any of them.
pub proof fn lemma_single_day_test(a: u8, d: u8)
    by (bit_vector)
    requires
        d < 7,
    ensures
        (a & (0b100_0000u8 >> d) == 0b100_0000u8 >> d) == (a & (0b100_0000u8 >> d) != 0),
{
}

/// Identities of the bitwise operations on seven-bit bytes.
pub proof fn lemma_algebra_identities(a: u8, b: u8)
    by (bit_vector)
    requires
        a <= 0b111_1111,
        b <= 0b111_1111,
    ensures
        a & 0 == 0,
        a & a == a,
        (a | b) & a == a,
        (a | b) & b == b,
        a & b == b & a,
        a ^ a == 0,
        a & !a == 0,
        !(!a & 0b111_1111) & 0b111_1111 == a,
{
}

/// How the week's two parts and the named patterns meet.
pub proof fn lemma_week_part_patterns()
    by (bit_vector)
    ensures
        0b111_1100u8 & 0b000_0011u8 == 0,
        0b000_0011u8 & 0b111_1100u8 == 0,
        0b111_1100u8 & 0b111_1100u8 != 0,
        0b000_0011u8 & 0b000_0011u8 != 0,
        0b000_0000u8 & 0b000_0011u8 == 0,
        0b000_0000u8 & 0b111_1100u8 == 0,
{
}

} // verus!
