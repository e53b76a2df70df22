//! Pairing the rows of a table with a column of values.
//!
//! A table has one row for each label. Every other column is a list of its
//! own, paired with the labels by position, and may be shorter than they
//! are: a row beyond its end shows nothing for a column of text and zero
//! for a column of numbers. A column longer than the labels is cut off.

use vstd::prelude::*;

verus! {

/// A column of machine integers as a column of numbers.
pub open spec fn ints(values: Seq<i32>) -> Seq<int> {
    values.map_values(|v: i32| v as int)
}

/// What the column holds for row `i`, if it reaches that far.
pub open spec fn entry_at<T>(values: Seq<T>, i: int) -> Option<T> {
    if 0 <= i < values.len() {
        Some(values[i])
    } else {
        None
    }
}

/// The number that row `i` shows for a column of numbers: the one at that
/// position, or zero where the column has run out.
pub open spec fn value_at(values: Seq<int>, i: int) -> int {
    match entry_at(values, i) {
        Some(v) => v,
        None => 0,
    }
}

/// A column that is no longer than the table shows its own numbers in its
/// own rows and zero in every row below them.
pub proof fn lemma_short_column_is_padded(values: Seq<int>, rows: nat)
    requires
        values.len() <= rows,
    ensures
        forall|i: int| 0 <= i < values.len() ==> #[trigger] value_at(values, i) == values[i],
        forall|i: int| values.len() <= i < rows ==> #[trigger] value_at(values, i) == 0,
        forall|i: int| values.len() <= i < rows ==> (#[trigger] entry_at(values, i)) is None,
{
}

/// The number that row `i` shows for a column of numbers.
pub fn value_or_zero(values: &Vec<i32>, i: usize) -> (v: i32)
    ensures
        v == value_at(ints(values@), i as int),
        i >= values.len() ==> v == 0,
        i < values.len() ==> v == values[i as int],
{
    if i < values.len() {
        values[i]
    } else {
        0
    }
}

} // verus!
