//! The stanza under evaluation.
//!
//! One evaluation of a filter chain owns one slot. The stanza is installed
//! when the evaluation starts and released when it ends, on every path;
//! installing a second stanza while one is installed is ruled out by the
//! contracts, so evaluations never nest.
use vstd::prelude::*;

use crate::stanza::{Stanza, StanzaModel};

verus! {

/// A slot that holds the stanza being evaluated, or nothing.
#[derive(Debug)]
pub struct StanzaScope {
    slot: Option<Stanza>,
}

impl StanzaScope {
    /// The stanza installed, if any.
    pub closed spec fn installed(&self) -> Option<StanzaModel> {
        match self.slot {
            Some(s) => Some(s@),
            None => None,
        }
    }

    /// An empty slot.
    pub fn new() -> (r: StanzaScope)
        ensures
            r.installed() is None,
    {
        StanzaScope { slot: None }
    }

    /// Whether a stanza is installed.
    pub fn is_set(&self) -> (r: bool)
        ensures
            r == self.installed() is Some,
    {
        self.slot.is_some()
    }

    /// Installs `stanza`; the slot must be empty.
    pub fn set(&mut self, stanza: Stanza)
        requires
            old(self).installed() is None,
        ensures
            final(self).installed() == Some(stanza@),
    {
        self.slot = Some(stanza);
    }

    /// The installed stanza.
    pub fn current(&self) -> (r: &Stanza)
        requires
            self.installed() is Some,
        ensures
            self.installed() == Some(r@),
    {
        self.slot.as_ref().unwrap()
    }

    /// Removes and returns the installed stanza, leaving the slot empty.
    pub fn release(&mut self) -> (r: Stanza)
        requires
            old(self).installed() is Some,
        ensures
            old(self).installed() == Some(r@),
            final(self).installed() is None,
    {
        self.slot.take().unwrap()
    }
}

} // verus!
