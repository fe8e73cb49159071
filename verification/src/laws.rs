//! What holds of the sets and their operations, whatever the values.
//!
//! Each law is stated over the operations as they are called. A set that is
//! named in a law is any value that executable code can reach.

use crate::bits::{
    lemma_algebra_bounded, lemma_algebra_identities, lemma_mask_bounded, lemma_named_patterns,
    lemma_single_day, lemma_week_part_patterns,
};
use crate::calendar::{weekday_number, weekday_of};
use crate::iter::{day_numbers, lemma_day_numbers, lemma_single_day_value, single_day};
use crate::days::{
    count_days, day_bit, has_day, week, ALL_DAYS, ALL_DAYS_MASK, NONE, WEEKDAYS, WEEKENDS,
};
use crate::weekdays::Weekdays;
use chrono::Weekday;
use vstd::prelude::*;
use vstd::std_specs::convert::FromSpec;

verus! {

/// A set made from a byte holds the byte's low seven bits and nothing else,
/// whatever the eighth bit was.
pub proof fn law_new_masks(days: u8)
    ensures
        Weekdays::new(days).bits() == days & ALL_DAYS_MASK,
        Weekdays::new(days).bits() <= ALL_DAYS_MASK,
        Weekdays::new(days).wf(),
{
    Weekdays::lemma_representation(Weekdays::new(days), Weekdays::new(days), days);
}

/// Every set contains the empty set, and every set contains itself.
pub proof fn law_contains_none_and_self(a: Weekdays)
    requires
        a.wf(),
    ensures
        a.contains(Weekdays::new(NONE)),
        a.contains(a),
{
    Weekdays::lemma_representation(a, a, NONE);
    lemma_algebra_identities(a.bits(), 0);
    lemma_mask_bounded(0);
}

/// The union of two sets contains both of them.
pub proof fn law_union_contains_both(a: Weekdays, b: Weekdays)
    requires
        a.wf(),
        b.wf(),
    ensures
        a.union(b).contains(a),
        a.union(b).contains(b),
{
    Weekdays::lemma_representation(a, b, a.bits() | b.bits());
    lemma_algebra_bounded(a.bits(), b.bits());
    lemma_mask_bounded(a.bits() | b.bits());
    lemma_algebra_identities(a.bits(), b.bits());
}

/// Union does not depend on the order of its operands, and a set united with
/// itself is that set.
pub proof fn law_union_commutes_and_is_idempotent(a: Weekdays, b: Weekdays)
    requires
        a.wf(),
        b.wf(),
    ensures
        a.union(b) == b.union(a),
        a.union(a) == a,
{
    Weekdays::lemma_representation(a, a, a.bits() | a.bits());
    Weekdays::lemma_representation(a.union(a), a, a.bits() | a.bits());
    let x = a.bits();
    let y = b.bits();
    assert(x | y == y | x && x | x == x) by (bit_vector);
}

/// Intersection does not depend on the order of its operands.
pub proof fn law_intersect_commutes(a: Weekdays, b: Weekdays)
    ensures
        a.intersect(b) == b.intersect(a),
{
    let x = a.bits();
    let y = b.bits();
    assert(x & y == y & x) by (bit_vector);
}

/// The symmetric difference of a set with itself is empty.
pub proof fn law_symmetric_difference_with_self(a: Weekdays)
    ensures
        a.symmetric_difference(a) == Weekdays::new(NONE),
{
    let x = a.bits();
    assert(x ^ x == 0) by (bit_vector);
}

/// The difference of a set with itself is empty.
pub proof fn law_difference_with_self(a: Weekdays)
    ensures
        a.difference(a) == Weekdays::new(NONE),
{
    let x = a.bits();
    assert(x & !x == 0) by (bit_vector);
}

/// Removing days that are not in a set leaves it as it was.
pub proof fn law_difference_of_absent_days(a: Weekdays, b: Weekdays)
    requires
        a.wf(),
        a.intersect(b) == Weekdays::new(NONE),
    ensures
        a.difference(b) == a,
{
    let x = a.bits();
    let y = b.bits();
    Weekdays::lemma_representation(a.intersect(b), Weekdays::new(NONE), x & y);
    Weekdays::lemma_representation(a.difference(b), a, x & !y);
    Weekdays::lemma_representation(a, a, NONE);
    assert((x & y) & 0b111_1111 == 0 & 0b111_1111 && x <= 0b111_1111 ==> (x & !y) & 0b111_1111
        == x) by (bit_vector);
}

/// The complement of the complement of a set is the set.
pub proof fn law_double_complement(a: Weekdays)
    requires
        a.wf(),
    ensures
        a.complement().complement() == a,
{
    let x = a.bits();
    Weekdays::lemma_representation(a, a, !x);
    Weekdays::lemma_representation(a.complement().complement(), a, !a.complement().bits());
    assert(x <= 0b111_1111 ==> !(!x & 0b111_1111) & 0b111_1111 == x) by (bit_vector);
}

/// The complement of a set holds none of its days, and the two make the week.
pub proof fn law_complement_parts_the_week(a: Weekdays)
    requires
        a.wf(),
    ensures
        a.intersect(a.complement()) == Weekdays::new(NONE),
        a.union(a.complement()) == Weekdays::new(ALL_DAYS),
{
    let x = a.bits();
    Weekdays::lemma_representation(a, a, !x);
    assert(x <= 0b111_1111 ==> x & (!x & 0b111_1111) == 0 && x | (!x & 0b111_1111)
        == 0b111_1111) by (bit_vector);
}

/// The empty set holds no day and the whole week holds seven.
pub proof fn law_days_of_none_and_all()
    ensures
        Weekdays::new(NONE).spec_days() == 0,
        Weekdays::new(ALL_DAYS).spec_days() == 7,
{
    Weekdays::lemma_representation(Weekdays::new(NONE), Weekdays::new(ALL_DAYS), NONE);
    Weekdays::lemma_representation(Weekdays::new(NONE), Weekdays::new(ALL_DAYS), ALL_DAYS);
    lemma_mask_bounded(NONE);
    lemma_mask_bounded(ALL_DAYS);
    lemma_named_patterns(0);
    lemma_named_patterns(1);
    lemma_named_patterns(2);
    lemma_named_patterns(3);
    lemma_named_patterns(4);
    lemma_named_patterns(5);
    lemma_named_patterns(6);
    reveal_with_fuel(count_days, 8);
}

/// Monday to Friday are weekdays and no weekend; Saturday and Sunday are a
/// weekend and no weekdays; the empty set is both.
pub proof fn law_week_parts()
    ensures
        Weekdays::new(WEEKDAYS).is_weekday(),
        !Weekdays::new(WEEKDAYS).is_weekend(),
        Weekdays::new(WEEKENDS).is_weekend(),
        !Weekdays::new(WEEKENDS).is_weekday(),
        Weekdays::new(NONE).is_weekday(),
        Weekdays::new(NONE).is_weekend(),
{
    Weekdays::lemma_representation(Weekdays::new(NONE), Weekdays::new(NONE), WEEKDAYS);
    Weekdays::lemma_representation(Weekdays::new(NONE), Weekdays::new(NONE), WEEKENDS);
    Weekdays::lemma_representation(Weekdays::new(NONE), Weekdays::new(NONE), NONE);
    lemma_mask_bounded(WEEKDAYS);
    lemma_mask_bounded(WEEKENDS);
    lemma_mask_bounded(NONE);
    lemma_week_part_patterns();
}

/// Walking a set gives each of its days once, each as a set of that day alone,
/// in the order of the week from Monday to Sunday, and as many as `days` counts.
pub proof fn law_walk_is_canonical(a: Weekdays)
    ensures
        a.spec_to_vec().len() == a.spec_days(),
        forall|i: int|
            0 <= i < a.spec_to_vec().len() ==> {
                let d = day_numbers(a.bits(), 0)[i];
                &&& 0 <= d < 7
                &&& a@.contains(d)
                &&& #[trigger] a.spec_to_vec()[i] == single_day(d)
                &&& a.spec_to_vec()[i]@ == set![d]
                &&& a.contains(a.spec_to_vec()[i])
            },
        forall|i: int, j: int|
            0 <= i < j < a.spec_to_vec().len() ==> #[trigger] day_numbers(a.bits(), 0)[i]
                < #[trigger] day_numbers(a.bits(), 0)[j],
        forall|d: int| a@.contains(d) ==> day_numbers(a.bits(), 0).contains(d),
{
    lemma_day_numbers(a.bits(), 0);
    assert forall|i: int| 0 <= i < a.spec_to_vec().len() implies {
        let d = day_numbers(a.bits(), 0)[i];
        &&& 0 <= d < 7
        &&& a@.contains(d)
        &&& #[trigger] a.spec_to_vec()[i] == single_day(d)
        &&& a.spec_to_vec()[i]@ == set![d]
        &&& a.contains(a.spec_to_vec()[i])
    } by {
        lemma_single_day_value(day_numbers(a.bits(), 0)[i], a);
    }
    assert forall|d: int| a@.contains(d) implies day_numbers(a.bits(), 0).contains(d) by {
        assert(has_day(a.bits(), d));
    }
}

/// A set that is stored in a bit-string column and read back is the same set;
/// a column without bytes reads as the empty set.
pub proof fn law_bit_field_round_trip(a: Weekdays)
    requires
        a.wf(),
    ensures
        Weekdays::spec_from_bit_field(seq![a.bits()]) == a,
        Weekdays::spec_from_bit_field(Seq::<u8>::empty()) == Weekdays::new(NONE),
{
    Weekdays::lemma_representation(a, a, a.bits());
}

/// A set that is serialised and deserialised is the same set, and whatever
/// byte is deserialised, the set holds its low seven bits.
pub proof fn law_byte_round_trip(a: Weekdays, byte: u8)
    requires
        a.wf(),
    ensures
        Weekdays::from_byte(a.to_byte()) == a,
        Weekdays::from_byte(byte).to_byte() == byte & ALL_DAYS_MASK,
{
    Weekdays::lemma_representation(a, a, byte);
}

/// Two sets are equal exactly when they hold the same days, and then their
/// bytes are equal too.
pub proof fn law_equality_is_by_days(a: Weekdays, b: Weekdays)
    requires
        a.wf(),
        b.wf(),
    ensures
        (a == b) == (a@ == b@),
        (a == b) == (a.bits() == b.bits()),
        a@.subset_of(week()),
{
    Weekdays::lemma_representation(a, b, 0);
    if a@ == b@ {
        Weekdays::lemma_view_determines(a, b);
    }
}

/// The day numbers of the bit of day `d`, from day `from` on: `d` alone, as
/// long as it is still to come.
proof fn lemma_day_numbers_of_single_day(d: int, from: int)
    requires
        0 <= d < 7,
        0 <= from <= 7,
    ensures
        day_numbers(day_bit(d), from) == if from <= d {
            seq![d]
        } else {
            Seq::<int>::empty()
        },
    decreases 7 - from,
{
    if from < 7 {
        lemma_day_numbers_of_single_day(d, from + 1);
        lemma_single_day(d as u8, from as u8);
        if from == d {
            assert(day_numbers(day_bit(d), from) =~= seq![d]);
        }
    }
}

/// A calendar day and its number stand for each other; the set made from a
/// calendar day holds that day alone, and its calendar days are that one day.
pub proof fn law_calendar_day_round_trip(day: Weekday)
    ensures
        0 <= weekday_number(day) < 7,
        weekday_of(weekday_number(day)) == day,
        <Weekdays as FromSpec<Weekday>>::from_spec(day)@ == set![weekday_number(day)],
        <Weekdays as FromSpec<Weekday>>::from_spec(day).spec_to_chrono_vec() == seq![day],
{
    let d = weekday_number(day);
    let set = <Weekdays as FromSpec<Weekday>>::from_spec(day);
    lemma_single_day_value(d, set);
    lemma_day_numbers_of_single_day(d, 0);
    assert(set.spec_to_chrono_vec() =~= seq![day]);
}

/// Every number of a day of the week is the number of its calendar day.
pub proof fn law_calendar_day_numbers(d: int)
    requires
        0 <= d < 7,
    ensures
        weekday_number(weekday_of(d)) == d,
{
}

} // verus!
