//! Extraction of whole message stanzas.
use vstd::prelude::*;

use crate::filter::Filter;

verus! {

/// Extracts the incoming stanza if it is a message stanza; rejects other stanzas.
pub fn param() -> (r: Filter)
    ensures
        r == Filter::MessageParam,
{
    Filter::MessageParam
}

} // verus!
