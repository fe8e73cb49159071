//! The model: a byte read as a set of day numbers.
//!
//! Day `d` (Monday = 0 … Sunday = 6) is the bit `0b100_0000 >> d` of the byte.
//! The eighth bit stands for no day.

use crate::bits::{
    lemma_algebra_day, lemma_day_bits, lemma_equal_from_days, lemma_named_patterns,
    lemma_single_day, lemma_superset_day, lemma_superset_from_days,
};
use vstd::prelude::*;

verus! {

/// The seven bits that stand for days.
pub const ALL_DAYS_MASK: u8 = 0b111_1111;

/// Bit pattern of Monday.
pub const MONDAY: u8 = 0b100_0000;

/// Bit pattern of Tuesday.
pub const TUESDAY: u8 = 0b010_0000;

/// Bit pattern of Wednesday.
pub const WEDNESDAY: u8 = 0b001_0000;

/// Bit pattern of Thursday.
pub const THURSDAY: u8 = 0b000_1000;

/// Bit pattern of Friday.
pub const FRIDAY: u8 = 0b000_0100;

/// Bit pattern of Saturday.
pub const SATURDAY: u8 = 0b000_0010;

/// Bit pattern of Sunday.
pub const SUNDAY: u8 = 0b000_0001;

/// Bit pattern of Monday to Friday.
pub const WEEKDAYS: u8 = 0b111_1100;

/// Bit pattern of Saturday and Sunday.
pub const WEEKENDS: u8 = 0b000_0011;

/// Bit pattern of the whole week.
pub const ALL_DAYS: u8 = 0b111_1111;

/// Bit pattern of the empty set.
pub const NONE: u8 = 0b000_0000;

/// The bit that stands for day `d`, counting from Monday = 0.
pub open spec fn day_bit(d: int) -> u8 {
    0b100_0000u8 >> (d as u8)
}

/// Whether day `d` (Monday = 0 … Sunday = 6) is set in the byte `bits`.
pub open spec fn has_day(bits: u8, d: int) -> bool {
    0 <= d < 7 && bits & day_bit(d) != 0
}

/// The set of day numbers that the byte `bits` stands for.
pub open spec fn day_set(bits: u8) -> Set<int> {
    Set::new(|d: int| has_day(bits, d))
}

/// The day numbers of the whole week.
pub open spec fn week() -> Set<int> {
    Set::new(|d: int| 0 <= d < 7)
}

/// How many of the days before day `k` are set in `bits`.
pub open spec fn count_days(bits: u8, k: int) -> nat
    decreases k,
{
    if k <= 0 {
        0
    } else {
        count_days(bits, k - 1) + if has_day(bits, k - 1) {
            1nat
        } else {
            0nat
        }
    }
}

/// The days of `bits` before day `k` are finitely many, and `count_days` counts them.
pub proof fn lemma_count_days(bits: u8, k: int)
    requires
        0 <= k <= 7,
    ensures
        day_set(bits).filter(|d: int| d < k).finite(),
        day_set(bits).filter(|d: int| d < k).len() == count_days(bits, k),
        count_days(bits, k) <= k,
    decreases k,
{
    let below = |d: int| d < k;
    if k == 0 {
        assert(day_set(bits).filter(below) =~= Set::<int>::empty());
    } else {
        lemma_count_days(bits, k - 1);
        let before = day_set(bits).filter(|d: int| d < k - 1);
        if has_day(bits, k - 1) {
            assert(day_set(bits).filter(below) =~= before.insert(k - 1));
        } else {
            assert(day_set(bits).filter(below) =~= before);
        }
    }
}

/// A byte holds exactly the days of itself masked to seven bits.
pub proof fn lemma_masked_days(bits: u8)
    ensures
        day_set(bits & ALL_DAYS_MASK) == day_set(bits),
{
    assert forall|d: int| has_day(bits & ALL_DAYS_MASK, d) == has_day(bits, d) by {
        if 0 <= d < 7 {
            lemma_algebra_day(bits, bits, d as u8);
        }
    }
    assert(day_set(bits & ALL_DAYS_MASK) =~= day_set(bits));
}

/// The days of the bitwise combinations of two bytes.
pub proof fn lemma_algebra_days(a: u8, b: u8)
    ensures
        day_set(a | b) == day_set(a).union(day_set(b)),
        day_set(a & b) == day_set(a).intersect(day_set(b)),
        day_set(a ^ b) == day_set(a).difference(day_set(b)).union(
            day_set(b).difference(day_set(a)),
        ),
        day_set(a & !b) == day_set(a).difference(day_set(b)),
        day_set(!a & ALL_DAYS_MASK) == week().difference(day_set(a)),
{
    assert forall|d: int|
        {
            &&& has_day(a | b, d) == (has_day(a, d) || has_day(b, d))
            &&& has_day(a & b, d) == (has_day(a, d) && has_day(b, d))
            &&& has_day(a ^ b, d) == (has_day(a, d) != has_day(b, d))
            &&& has_day(a & !b, d) == (has_day(a, d) && !has_day(b, d))
            &&& has_day(!a & ALL_DAYS_MASK, d) == (0 <= d < 7 && !has_day(a, d))
        } by {
        if 0 <= d < 7 {
            lemma_algebra_day(a, b, d as u8);
        }
    }
    assert(day_set(a | b) =~= day_set(a).union(day_set(b)));
    assert(day_set(a & b) =~= day_set(a).intersect(day_set(b)));
    assert(day_set(a ^ b) =~= day_set(a).difference(day_set(b)).union(
        day_set(b).difference(day_set(a)),
    ));
    assert(day_set(a & !b) =~= day_set(a).difference(day_set(b)));
    assert(day_set(!a & ALL_DAYS_MASK) =~= week().difference(day_set(a)));
}

/// The bit of one day stands for that day alone.
pub proof fn lemma_single_day_set(d: int)
    requires
        0 <= d < 7,
    ensures
        day_bit(d) <= ALL_DAYS_MASK,
        day_set(day_bit(d)) == set![d],
{
    lemma_single_day(d as u8, d as u8);
    assert forall|e: int| has_day(day_bit(d), e) == (e == d) by {
        if 0 <= e < 7 {
            lemma_single_day(d as u8, e as u8);
        }
    }
    assert(day_set(day_bit(d)) =~= set![d]);
}

/// One seven-bit byte holds all the bits of another exactly when it holds all its days.
pub proof fn lemma_subset_days(a: u8, b: u8)
    requires
        b <= ALL_DAYS_MASK,
    ensures
        (a & b == b) == day_set(b).subset_of(day_set(a)),
{
    if a & b == b {
        assert forall|d: int| day_set(b).contains(d) implies day_set(a).contains(d) by {
            lemma_superset_day(a, b, d as u8);
        }
    }
    if day_set(b).subset_of(day_set(a)) {
        assert(day_set(b).contains(0) ==> day_set(a).contains(0));
        assert(day_set(b).contains(1) ==> day_set(a).contains(1));
        assert(day_set(b).contains(2) ==> day_set(a).contains(2));
        assert(day_set(b).contains(3) ==> day_set(a).contains(3));
        assert(day_set(b).contains(4) ==> day_set(a).contains(4));
        assert(day_set(b).contains(5) ==> day_set(a).contains(5));
        assert(day_set(b).contains(6) ==> day_set(a).contains(6));
        lemma_superset_from_days(a, b);
    }
}

/// Two seven-bit bytes that stand for the same days are equal.
pub proof fn lemma_days_determine_bits(a: u8, b: u8)
    requires
        a <= ALL_DAYS_MASK,
        b <= ALL_DAYS_MASK,
        day_set(a) == day_set(b),
    ensures
        a == b,
{
    assert forall|d: int| has_day(a, d) == has_day(b, d) by {
        assert(day_set(a).contains(d) == has_day(a, d));
        assert(day_set(b).contains(d) == has_day(b, d));
    }
    assert(has_day(a, 0) == has_day(b, 0));
    assert(has_day(a, 1) == has_day(b, 1));
    assert(has_day(a, 2) == has_day(b, 2));
    assert(has_day(a, 3) == has_day(b, 3));
    assert(has_day(a, 4) == has_day(b, 4));
    assert(has_day(a, 5) == has_day(b, 5));
    assert(has_day(a, 6) == has_day(b, 6));
    lemma_equal_from_days(a, b);
}

/// The days of the named bit patterns.
pub proof fn lemma_named_days()
    ensures
        day_set(MONDAY) == set![0int],
        day_set(TUESDAY) == set![1int],
        day_set(WEDNESDAY) == set![2int],
        day_set(THURSDAY) == set![3int],
        day_set(FRIDAY) == set![4int],
        day_set(SATURDAY) == set![5int],
        day_set(SUNDAY) == set![6int],
        day_set(WEEKDAYS) == set![0int, 1, 2, 3, 4],
        day_set(WEEKENDS) == set![5int, 6],
        day_set(ALL_DAYS) == week(),
        day_set(NONE) == Set::<int>::empty(),
{
    lemma_day_bits();
    lemma_single_day_set(0);
    lemma_single_day_set(1);
    lemma_single_day_set(2);
    lemma_single_day_set(3);
    lemma_single_day_set(4);
    lemma_single_day_set(5);
    lemma_single_day_set(6);
    assert forall|d: int|
        {
            &&& has_day(WEEKDAYS, d) == (0 <= d < 5)
            &&& has_day(WEEKENDS, d) == (5 <= d < 7)
            &&& has_day(ALL_DAYS, d) == (0 <= d < 7)
            &&& !has_day(NONE, d)
        } by {
        if 0 <= d < 7 {
            lemma_named_patterns(d as u8);
        }
    }
    assert(day_set(WEEKDAYS) =~= set![0int, 1, 2, 3, 4]);
    assert(day_set(WEEKENDS) =~= set![5int, 6]);
    assert(day_set(ALL_DAYS) =~= week());
    assert(day_set(NONE) =~= Set::<int>::empty());
}

} // verus!
