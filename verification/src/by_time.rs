//! Sorting a history by the time of its messages.

use crate::sorting::{arranged, stable_order};
use crate::user::UserHistoryMsg;
use itertools::Itertools;
use std::cmp::Ordering;
use vstd::prelude::*;

verus! {

/// The times of the entries of a history.
pub open spec fn times_of(items: Seq<UserHistoryMsg>) -> Seq<i64> {
    items.map_values(|entry: UserHistoryMsg| entry.time)
}

/// Which of two entries is the earlier.
pub fn compare_times(a: &UserHistoryMsg, b: &UserHistoryMsg) -> (order: Ordering)
    ensures
        order == if a.time < b.time {
            Ordering::Less
        } else if a.time > b.time {
            Ordering::Greater
        } else {
            Ordering::Equal
        },
{
    if a.time < b.time {
        Ordering::Less
    } else if a.time > b.time {
        Ordering::Greater
    } else {
        Ordering::Equal
    }
}

/// `itertools::Itertools::sorted_by`: the entries sorted, earliest first,
/// by a sort that keeps entries of equal time in the order they came in;
/// the crate collects the entries and hands them to the stable sort of
/// `std`. The result holds the very entries that were handed in.
#[verifier::external_body]
pub(crate) fn sorted_by_time(items: Vec<UserHistoryMsg>) -> (sorted: Vec<UserHistoryMsg>)
    ensures
        sorted@ == arranged(items@, stable_order(times_of(items@), false)),
{
    items.into_iter().sorted_by(|a, b| compare_times(a, b)).collect()
}

} // verus!
