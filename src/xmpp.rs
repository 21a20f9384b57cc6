//! IQ requests narrowed to one shape.
use vstd::prelude::*;

use crate::reject::{item_not_found, item_not_found_spec, Rejection};
use crate::stanza::{Iq, IqType};

verus! {

/// An IQ request of type `get`.
#[derive(Debug)]
pub struct IqGet {
    pub from: Option<String>,
    pub to: Option<String>,
    pub payload: Option<String>,
    pub id: String,
}

/// An IQ request of type `set`.
#[derive(Debug)]
pub struct IqSet {
    pub from: Option<String>,
    pub to: Option<String>,
    pub payload: Option<String>,
    pub id: String,
}

impl IqGet {
    /// Narrows `iq` to a `get` request; rejects with `item-not-found` an IQ
    /// of another type.
    pub fn try_from_iq(iq: Iq) -> (r: Result<IqGet, Rejection>)
        ensures
            iq.type_ == IqType::GetRequest <==> r is Ok,
            r matches Ok(g) ==> g.from == iq.from && g.to == iq.to && g.payload == iq.payload
                && g.id == iq.id,
            r matches Err(e) ==> e == item_not_found_spec(),
    {
        if iq.type_ == IqType::GetRequest {
            Ok(IqGet { from: iq.from, to: iq.to, payload: iq.payload, id: iq.id })
        } else {
            Err(item_not_found())
        }
    }
}

impl IqSet {
    /// Narrows `iq` to a `set` request; rejects with `item-not-found` an IQ
    /// of another type.
    pub fn try_from_iq(iq: Iq) -> (r: Result<IqSet, Rejection>)
        ensures
            iq.type_ == IqType::SetRequest <==> r is Ok,
            r matches Ok(g) ==> g.from == iq.from && g.to == iq.to && g.payload == iq.payload
                && g.id == iq.id,
            r matches Err(e) ==> e == item_not_found_spec(),
    {
        if iq.type_ == IqType::SetRequest {
            Ok(IqSet { from: iq.from, to: iq.to, payload: iq.payload, id: iq.id })
        } else {
            Err(item_not_found())
        }
    }
}

} // verus!
