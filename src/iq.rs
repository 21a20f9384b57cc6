//! Extraction of whole IQ stanzas.
use vstd::prelude::*;

use crate::filter::Filter;

verus! {

/// Extracts the incoming stanza if it is a IQ stanza; rejects other stanzas.
pub fn param() -> (r: Filter)
    ensures
        r == Filter::IqParam,
{
    Filter::IqParam
}

} // verus!
