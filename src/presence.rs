//! Extraction of whole presence stanzas.
use vstd::prelude::*;

use crate::filter::Filter;

verus! {

/// Extracts the incoming stanza if it is a presence stanza; rejects other stanzas.
pub fn param() -> (r: Filter)
    ensures
        r == Filter::PresenceParam,
{
    Filter::PresenceParam
}

} // verus!
