//! Stanza id filters.
use vstd::prelude::*;

use crate::filter::Filter;

verus! {

/// Extracts the stanza id as text; rejects a stanza without one.
pub fn param() -> (r: Filter)
    ensures
        r == Filter::IdParam,
{
    Filter::IdParam
}

/// Matches stanzas whose id is `expected`.
pub fn id(expected: String) -> (r: Filter)
    ensures
        r == Filter::IdIs(expected),
{
    Filter::IdIs(expected)
}

} // verus!
