//! The decisions of the server run loop.
//!
//! The loop itself (waiting on the transport and on the outbound queue,
//! writing stanzas out) runs outside this library; for each inbound stanza
//! it asks [`Standard::on_inbound`] what to do.
use vstd::prelude::*;

use crate::correlation::{CorrelationContext, GetStanzaId};
use crate::scope::StanzaScope;
use crate::filter::Value;
use crate::reject::Rejection;
use crate::service::{answers, opt_stanza_view, Answer, FilteredService};
use crate::stanza::Stanza;

verus! {

/// What the run loop does with an inbound stanza.
#[derive(Debug)]
pub enum Action {
    /// Write the reply, if any, to the transport; the rejection, if any, is
    /// for local logs.
    Respond(Answer),
    /// Hand the stanza to the request waiting under the ticket.
    Deliver(u64, Stanza),
}

/// The standard run loop policy.
///
/// With `correlate_responses` off, every inbound stanza runs through the
/// filter chain, including responses to pending requests, which the chain
/// may reject. With it on, a stanza whose id is pending is handed to the
/// waiting request instead.
#[derive(Clone, Copy, Debug)]
pub struct Standard {
    pub correlate_responses: bool,
}

impl Standard {
    /// Decides what to do with the inbound `stanza`.
    pub fn on_inbound<L, M, T, O, R>(
        &self,
        svc: &FilteredService<L, M, T, O, R>,
        ctx: &mut CorrelationContext,
        scope: &mut StanzaScope,
        stanza: Stanza,
    ) -> (r: Action) where
        L: Fn(u64, Stanza) -> Result<Vec<Value>, Rejection>,
        M: Fn(u64, Vec<Value>) -> Vec<Value>,
        T: Fn(u64, Vec<Value>) -> Result<Vec<Value>, Rejection>,
        O: Fn(u64, Rejection) -> Result<Vec<Value>, Rejection>,
        R: Fn(u64, Rejection) -> Vec<Value>,

        requires
            old(scope).installed() is None,
            svc.functions.total(),
        ensures
            final(scope).installed() is None,
            final(ctx).queued() == old(ctx).queued(),
            final(ctx).ticket() == old(ctx).ticket(),
            ({
                let pending_id = match stanza.stanza_id() {
                    Some(id) => self.correlate_responses && old(ctx).pending().contains_key(id),
                    None => false,
                };
                if pending_id {
                    let id = stanza.stanza_id()->Some_0;
                    &&& r matches Action::Deliver(t, s) && t == old(ctx).pending()[id] && s@ == stanza@
                    &&& final(ctx).pending() == old(ctx).pending().remove(id)
                } else {
                    &&& final(ctx).pending() == old(ctx).pending()
                    &&& match r {
                        Action::Respond(a) => answers(
                            svc.filter,
                            stanza@,
                            svc.functions,
                            opt_stanza_view(a.reply),
                            a.rejection,
                        ),
                        Action::Deliver(..) => false,
                    }
                }
            }),
    {
        if self.correlate_responses {
            let pending = match stanza.get_stanza_id() {
                Some(id) => ctx.take_pending(id.as_str()),
                None => None,
            };
            if let Some(ticket) = pending {
                return Action::Deliver(ticket, stanza);
            }
        }
        Action::Respond(svc.call_stanza(scope, stanza))
    }
}

} // verus!
