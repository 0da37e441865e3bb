//! Aggregation of the two axis results into a single classification, and the
//! running totals that the reporting layer keeps per classification.

use vstd::prelude::*;

verus! {

use vstd::string::StringExecFns;

use crate::symmetry::Symmetry;

/// The four ways a flag can come out of the symmetry check.
#[derive(Clone, Copy, Debug, PartialEq, Eq, Structural)]
pub enum Category {
    Full,
    VerticalOnly,
    HorizontalOnly,
    Neither,
}

/// The classification of a symmetry result: both axes, exactly one, or
/// neither. Total over all four boolean combinations.
pub open spec fn classification(s: Symmetry) -> Category {
    if s.vertical && s.horizontal {
        Category::Full
    } else if s.vertical {
        Category::VerticalOnly
    } else if s.horizontal {
        Category::HorizontalOnly
    } else {
        Category::Neither
    }
}

/// Maps a symmetry result to its [`Category`].
pub fn classify(s: &Symmetry) -> (c: Category)
    ensures
        c == classification(*s),
{
    if s.vertical && s.horizontal {
        Category::Full
    } else if s.vertical {
        Category::VerticalOnly
    } else if s.horizontal {
        Category::HorizontalOnly
    } else {
        Category::Neither
    }
}

/// A running total for one classification: how many flags fell under it, and
/// the concatenation of their emoji.
#[derive(Debug)]
pub struct ReportingValue(pub i64, pub String);

/// Counts one more flag under a total and appends the flag's emoji (the
/// second component of `name`) to the total's roster.
pub fn update_table_total_value(table_total: &mut ReportingValue, name: &(String, String))
    requires
        old(table_total).0 < i64::MAX,
    ensures
        final(table_total).0 == old(table_total).0 + 1,
        final(table_total).1@ == old(table_total).1@ + name.1@,
{
    table_total.0 = table_total.0 + 1;
    table_total.1.append(name.1.as_str());
}

} // verus!
