use vstd::prelude::*;

use crate::visits::{Visit, VisitStatus};

verus! {

/// How many of the first `n` rows are checked in.
pub open spec fn checked_in_among(rows: Seq<Visit>, n: int) -> nat
    decreases n,
{
    if n <= 0 {
        0
    } else {
        checked_in_among(rows, n - 1) + if rows[n - 1].status == VisitStatus::CheckedIn {
            1nat
        } else {
            0nat
        }
    }
}

/// The number of people who are checked in, among the visits of one day.
pub fn checked_in_count(visits: &Vec<Visit>) -> (count: usize)
    ensures
        count == checked_in_among(visits@, visits.len() as int),
{
    let mut count: usize = 0;
    let mut i: usize = 0;
    while i < visits.len()
        invariant
            i <= visits.len(),
            count == checked_in_among(visits@, i as int),
            count <= i,
        decreases visits.len() - i,
    {
        if visits[i].status == VisitStatus::CheckedIn {
            count += 1;
        }
        i += 1;
    }
    count
}

} // verus!
