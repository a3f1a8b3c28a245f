use vstd::prelude::*;

verus! {

/// A calendar day, held as the signed count of days in the proleptic
/// Gregorian calendar in which the first of January of the year one is
/// day one. Later days have larger counts, so ranges and cutoffs are
/// plain integer comparisons.
#[derive(Debug, Clone, Copy, PartialEq, Eq, PartialOrd, Ord, Hash, Structural)]
pub struct Day(pub i32);

impl Day {
    /// The day count as a mathematical integer.
    pub open spec fn number(self) -> int {
        self.0 as int
    }

    /// The day count.
    #[verifier::when_used_as_spec(spec_num_days_from_ce)]
    pub fn num_days_from_ce(self) -> (days: i32)
        ensures
            days == self.0,
    {
        self.0
    }

    pub open spec fn spec_num_days_from_ce(self) -> i32 {
        self.0
    }

    /// The day that lies `days` after this one (before it, where `days` is
    /// negative), or `None` where its count does not fit the representation.
    pub fn plus_days(self, days: i32) -> (moved: Option<Day>)
        ensures
            moved == if i32::MIN <= self.number() + days <= i32::MAX {
                Some(Day((self.number() + days) as i32))
            } else {
                None::<Day>
            },
    {
        match self.0.checked_add(days) {
            Some(n) => Some(Day(n)),
            None => None,
        }
    }

    /// How many days this day lies after `earlier`; negative where it lies
    /// before.
    pub fn days_since(self, earlier: Day) -> (span: i64)
        ensures
            span == self.number() - earlier.number(),
    {
        self.0 as i64 - earlier.0 as i64
    }
}

} // verus!
