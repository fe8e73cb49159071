//! The set type, its named sets, its constructor, its queries and its algebra.

use crate::bits::{lemma_algebra_bounded, lemma_mask_bounded, lemma_week_parts};
use crate::days::{
    count_days, day_set, lemma_algebra_days, lemma_count_days, lemma_days_determine_bits,
    lemma_masked_days, lemma_named_days, lemma_subset_days, week, ALL_DAYS, ALL_DAYS_MASK, FRIDAY,
    MONDAY, NONE, SATURDAY, SUNDAY, THURSDAY, TUESDAY, WEDNESDAY, WEEKDAYS, WEEKENDS,
};
use vstd::prelude::*;

verus! {

/// A set of days of the week, one bit per day.
///
/// Monday is the highest of the seven bits and Sunday the lowest. The view of
/// a value is the set of its day numbers, counting from Monday = 0.
///
/// Two sets are equal when their bytes are, and the set with the smaller byte
/// sorts first. `{:?}` prints the byte as a number, as in `Weekdays(65)` for
/// Monday and Sunday; [`Weekdays::to_debug_string`] prints it in binary.
#[derive(Clone, Copy, Debug, Eq, Hash, Ord, PartialEq, Structural)]
pub struct Weekdays(u8);

impl View for Weekdays {
    type V = Set<int>;

    open spec fn view(&self) -> Set<int> {
        day_set(self.spec_bits())
    }
}

impl Weekdays {
    /// The byte behind the set.
    pub closed spec fn spec_bits(&self) -> u8 {
        self.0
    }

    /// Holds of every value that executable code can reach: the eighth bit is clear.
    #[verifier::type_invariant]
    pub closed spec fn wf(self) -> bool {
        self.0 <= ALL_DAYS_MASK
    }

    /// The set that a byte stands for once its eighth bit is dropped.
    pub closed spec fn spec_new(days: u8) -> Self {
        Weekdays(days & ALL_DAYS_MASK)
    }

    /// What `wf` and `spec_new` mean over the byte, and that the byte is all there is.
    pub proof fn lemma_representation(a: Self, b: Self, days: u8)
        ensures
            a.wf() == (a.spec_bits() <= ALL_DAYS_MASK),
            b.wf() == (b.spec_bits() <= ALL_DAYS_MASK),
            Self::spec_new(days).spec_bits() == days & ALL_DAYS_MASK,
            Self::spec_new(days).wf(),
            a.spec_bits() == b.spec_bits() ==> a == b,
            a.wf() ==> Self::spec_new(a.spec_bits()) == a,
    {
        lemma_mask_bounded(days);
        lemma_mask_bounded(a.0);
    }

    /// Two well-formed sets with the same days are the same value.
    pub proof fn lemma_view_determines(a: Self, b: Self)
        requires
            a.wf(),
            b.wf(),
            a@ == b@,
        ensures
            a == b,
    {
        lemma_days_determine_bits(a.0, b.0);
    }

    /// Makes a set from a byte, dropping the eighth bit.
    #[verifier::when_used_as_spec(spec_new)]
    pub fn new(days: u8) -> (r: Self)
        ensures
            r == Self::spec_new(days),
            r.spec_bits() == days & ALL_DAYS_MASK,
            r@ == day_set(days),
    {
        proof {
            lemma_mask_bounded(days);
            lemma_masked_days(days);
        }
        Self(days & ALL_DAYS_MASK)
    }

    /// The byte behind the set; its eighth bit is clear.
    #[verifier::when_used_as_spec(spec_bits)]
    pub fn bits(&self) -> (r: u8)
        ensures
            r == self.spec_bits(),
            r <= ALL_DAYS_MASK,
            self.wf(),
    {
        proof {
            use_type_invariant(self);
        }
        self.0
    }

    /// Monday alone.
    pub fn monday() -> (r: Self)
        ensures
            r.spec_bits() == MONDAY,
            r@ == set![0int],
    {
        proof {
            lemma_named_days();
        }
        Self(MONDAY)
    }

    /// Tuesday alone.
    pub fn tuesday() -> (r: Self)
        ensures
            r.spec_bits() == TUESDAY,
            r@ == set![1int],
    {
        proof {
            lemma_named_days();
        }
        Self(TUESDAY)
    }

    /// Wednesday alone.
    pub fn wednesday() -> (r: Self)
        ensures
            r.spec_bits() == WEDNESDAY,
            r@ == set![2int],
    {
        proof {
            lemma_named_days();
        }
        Self(WEDNESDAY)
    }

    /// Thursday alone.
    pub fn thursday() -> (r: Self)
        ensures
            r.spec_bits() == THURSDAY,
            r@ == set![3int],
    {
        proof {
            lemma_named_days();
        }
        Self(THURSDAY)
    }

    /// Friday alone.
    pub fn friday() -> (r: Self)
        ensures
            r.spec_bits() == FRIDAY,
            r@ == set![4int],
    {
        proof {
            lemma_named_days();
        }
        Self(FRIDAY)
    }

    /// Saturday alone.
    pub fn saturday() -> (r: Self)
        ensures
            r.spec_bits() == SATURDAY,
            r@ == set![5int],
    {
        proof {
            lemma_named_days();
        }
        Self(SATURDAY)
    }

    /// Sunday alone.
    pub fn sunday() -> (r: Self)
        ensures
            r.spec_bits() == SUNDAY,
            r@ == set![6int],
    {
        proof {
            lemma_named_days();
        }
        Self(SUNDAY)
    }

    /// Monday to Friday.
    pub fn weekdays() -> (r: Self)
        ensures
            r.spec_bits() == WEEKDAYS,
            r@ == set![0int, 1, 2, 3, 4],
    {
        proof {
            lemma_named_days();
        }
        Self(WEEKDAYS)
    }

    /// Saturday and Sunday.
    pub fn weekends() -> (r: Self)
        ensures
            r.spec_bits() == WEEKENDS,
            r@ == set![5int, 6],
    {
        proof {
            lemma_named_days();
        }
        Self(WEEKENDS)
    }

    /// The whole week.
    pub fn all_days() -> (r: Self)
        ensures
            r.spec_bits() == ALL_DAYS,
            r@ == week(),
    {
        proof {
            lemma_named_days();
        }
        Self(ALL_DAYS)
    }

    /// The empty set.
    pub fn none() -> (r: Self)
        ensures
            r.spec_bits() == NONE,
            r@ == Set::<int>::empty(),
    {
        proof {
            lemma_named_days();
        }
        Self(NONE)
    }

    /// Whether every bit of `day` is set in `self`.
    pub open spec fn spec_contains(&self, day: Self) -> bool {
        self.spec_bits() & day.spec_bits() == day.spec_bits()
    }

    /// Whether every day of `day` is also in `self`. The empty set is in every set.
    #[verifier::when_used_as_spec(spec_contains)]
    pub fn contains(&self, day: Self) -> (r: bool)
        ensures
            r == self.spec_contains(day),
            r == day@.subset_of(self@),
    {
        proof {
            use_type_invariant(&day);
            lemma_subset_days(self.0, day.0);
        }
        self.0 & day.0 == day.0
    }

    /// How many days are in the set.
    pub open spec fn spec_days(&self) -> nat {
        count_days(self.spec_bits(), 7)
    }

    /// That `spec_days` is the size of the set of days, which is at most seven.
    pub proof fn lemma_days_is_len(self)
        ensures
            self@.finite(),
            self@.len() == self.spec_days(),
            self.spec_days() <= 7,
    {
        lemma_count_days(self.spec_bits(), 7);
        assert(self@ =~= day_set(self.spec_bits()).filter(|d: int| d < 7));
    }

    /// How many days are in the set: the number of bits that are set.
    pub fn days(&self) -> (n: u8)
        ensures
            n == self.spec_days(),
            n == self@.len(),
            n <= 7,
    {
        let mut n: u8 = 0;
        let mut pos: u8 = 0;
        while pos < 7
            invariant
                pos <= 7,
                n == count_days(self.spec_bits(), pos as int),
                n <= pos,
            decreases 7 - pos,
        {
            if self.0 & (0b100_0000u8 >> pos) != 0 {
                n = n + 1;
            }
            pos = pos + 1;
        }
        proof {
            self.lemma_days_is_len();
        }
        n
    }

    /// Whether the byte is zero.
    pub open spec fn spec_is_empty(&self) -> bool {
        self.spec_bits() == 0
    }

    /// Whether no day is in the set.
    #[verifier::when_used_as_spec(spec_is_empty)]
    pub fn is_empty(&self) -> (r: bool)
        ensures
            r == self.spec_is_empty(),
            r == (self@ == Set::<int>::empty()),
    {
        proof {
            use_type_invariant(self);
            lemma_named_days();
            if self@ == Set::<int>::empty() {
                lemma_days_determine_bits(self.0, NONE);
            }
        }
        self.0 == 0
    }

    /// Whether no weekend bit is set.
    pub open spec fn spec_is_weekday(&self) -> bool {
        self.spec_bits() & WEEKENDS == 0
    }

    /// Whether neither Saturday nor Sunday is in the set. True of the empty set.
    #[verifier::when_used_as_spec(spec_is_weekday)]
    pub fn is_weekday(&self) -> (r: bool)
        ensures
            r == self.spec_is_weekday(),
            r == (!self@.contains(5) && !self@.contains(6)),
    {
        proof {
            lemma_week_parts(self.0);
        }
        self.0 & WEEKENDS == 0
    }

    /// Whether no weekday bit is set.
    pub open spec fn spec_is_weekend(&self) -> bool {
        self.spec_bits() & WEEKDAYS == 0
    }

    /// Whether none of Monday to Friday is in the set. True of the empty set.
    #[verifier::when_used_as_spec(spec_is_weekend)]
    pub fn is_weekend(&self) -> (r: bool)
        ensures
            r == self.spec_is_weekend(),
            r == (forall|d: int| 0 <= d < 5 ==> !self@.contains(d)),
    {
        proof {
            lemma_week_parts(self.0);
            if self.0 & WEEKDAYS != 0 {
                assert(self@.contains(0) || self@.contains(1) || self@.contains(2)
                    || self@.contains(3) || self@.contains(4));
            }
        }
        self.0 & WEEKDAYS == 0
    }

    /// The set whose byte is the bitwise OR of the two bytes.
    pub open spec fn spec_union(self, rhs: Self) -> Self {
        Self::spec_new(self.spec_bits() | rhs.spec_bits())
    }

    /// The days that are in either set.
    #[verifier::when_used_as_spec(spec_union)]
    pub fn union(self, rhs: Self) -> (r: Self)
        ensures
            r == self.spec_union(rhs),
            r.spec_bits() == self.spec_bits() | rhs.spec_bits(),
            r@ == self@.union(rhs@),
    {
        proof {
            use_type_invariant(&self);
            use_type_invariant(&rhs);
            lemma_algebra_bounded(self.0, rhs.0);
            lemma_mask_bounded(self.0 | rhs.0);
            lemma_algebra_days(self.0, rhs.0);
        }
        Self(self.0 | rhs.0)
    }

    /// The set whose byte is the bitwise AND of the two bytes.
    pub open spec fn spec_intersect(self, rhs: Self) -> Self {
        Self::spec_new(self.spec_bits() & rhs.spec_bits())
    }

    /// The days that are in both sets.
    #[verifier::when_used_as_spec(spec_intersect)]
    pub fn intersect(self, rhs: Self) -> (r: Self)
        ensures
            r == self.spec_intersect(rhs),
            r.spec_bits() == self.spec_bits() & rhs.spec_bits(),
            r@ == self@.intersect(rhs@),
    {
        proof {
            use_type_invariant(&self);
            use_type_invariant(&rhs);
            lemma_algebra_bounded(self.0, rhs.0);
            lemma_mask_bounded(self.0 & rhs.0);
            lemma_algebra_days(self.0, rhs.0);
        }
        Self(self.0 & rhs.0)
    }

    /// The set whose byte is the bitwise XOR of the two bytes.
    pub open spec fn spec_symmetric_difference(self, rhs: Self) -> Self {
        Self::spec_new(self.spec_bits() ^ rhs.spec_bits())
    }

    /// The days that are in exactly one of the two sets.
    #[verifier::when_used_as_spec(spec_symmetric_difference)]
    pub fn symmetric_difference(self, rhs: Self) -> (r: Self)
        ensures
            r == self.spec_symmetric_difference(rhs),
            r.spec_bits() == self.spec_bits() ^ rhs.spec_bits(),
            r@ == self@.difference(rhs@).union(rhs@.difference(self@)),
    {
        proof {
            use_type_invariant(&self);
            use_type_invariant(&rhs);
            lemma_algebra_bounded(self.0, rhs.0);
            lemma_mask_bounded(self.0 ^ rhs.0);
            lemma_algebra_days(self.0, rhs.0);
        }
        Self(self.0 ^ rhs.0)
    }

    /// The set whose byte is that of `self` with the bits of `rhs` cleared.
    pub open spec fn spec_difference(self, rhs: Self) -> Self {
        Self::spec_new(self.spec_bits() & !rhs.spec_bits())
    }

    /// The days of `self` that are not in `rhs`.
    #[verifier::when_used_as_spec(spec_difference)]
    pub fn difference(self, rhs: Self) -> (r: Self)
        ensures
            r == self.spec_difference(rhs),
            r.spec_bits() == self.spec_bits() & !rhs.spec_bits(),
            r@ == self@.difference(rhs@),
    {
        proof {
            use_type_invariant(&self);
            use_type_invariant(&rhs);
            lemma_algebra_bounded(self.0, rhs.0);
            lemma_mask_bounded(self.0 & !rhs.0);
            lemma_algebra_days(self.0, rhs.0);
        }
        Self(self.0 & !rhs.0)
    }

    /// The set whose byte is the bitwise NOT of the byte, masked to seven bits.
    pub open spec fn spec_complement(self) -> Self {
        Self::spec_new(!self.spec_bits())
    }

    /// The days of the week that are not in the set.
    #[verifier::when_used_as_spec(spec_complement)]
    pub fn complement(self) -> (r: Self)
        ensures
            r == self.spec_complement(),
            r.spec_bits() == !self.spec_bits() & ALL_DAYS_MASK,
            r@ == week().difference(self@),
    {
        proof {
            lemma_mask_bounded(!self.0);
            lemma_algebra_days(self.0, self.0);
        }
        Self(!self.0 & ALL_DAYS_MASK)
    }
}

impl Default for Weekdays {
    /// The empty set.
    fn default() -> (r: Self)
        ensures
            r.spec_bits() == NONE,
            r@ == Set::<int>::empty(),
    {
        Weekdays::none()
    }
}

} // verus!
