//! Correlation of outbound requests with their inbound responses.
//!
//! A request that expects a response is registered under its stanza id and
//! receives a ticket. When a stanza with that id comes in, taking the
//! pending entry hands the ticket back exactly once. Stanzas to send from
//! inside a filter chain are queued in order for the run loop.
use vstd::prelude::*;

use dashmap::DashMap;

use crate::filter::opt_view;
use crate::stanza::{Stanza, StanzaModel};

verus! {

/// Declares dashmap::DashMap, which holds the pending requests; Verus sees
/// its contents only through `pending_entries`.
#[verifier::external_type_specification]
#[verifier::external_body]
#[verifier::reject_recursive_types(K)]
#[verifier::reject_recursive_types(V)]
#[verifier::reject_recursive_types(S)]
pub struct ExDashMap<K, V, S>(DashMap<K, V, S>);

/// The table of pending requests.
pub type PendingTable = DashMap<String, u64>;

/// The entries of a pending table: stanza id to ticket.
pub uninterp spec fn pending_entries(t: PendingTable) -> Map<Seq<char>, u64>;

/// Relies on dashmap::DashMap::new: a new map is empty.
#[verifier::external_body]
fn table_new() -> (r: PendingTable)
    ensures
        pending_entries(r) =~= Map::empty(),
{
    DashMap::new()
}

/// Relies on dashmap::DashMap::insert: afterwards `key` maps to `value`,
/// and the other entries are unchanged.
#[verifier::external_body]
fn table_insert(t: &mut PendingTable, key: String, value: u64)
    ensures
        pending_entries(*final(t)) == pending_entries(*old(t)).insert(key@, value),
{
    t.insert(key, value);
}

/// Relies on dashmap::DashMap::remove: the entry of `key` is removed and its
/// value returned, if there was one; the other entries are unchanged.
#[verifier::external_body]
fn table_remove(t: &mut PendingTable, key: &str) -> (r: Option<u64>)
    ensures
        pending_entries(*old(t)).contains_key(key@) ==> r == Some(pending_entries(*old(t))[key@]),
        !pending_entries(*old(t)).contains_key(key@) ==> r is None,
        pending_entries(*final(t)) == pending_entries(*old(t)).remove(key@),
{
    t.remove(key).map(|(_, v)| v)
}

/// The id attribute of a stanza, used to correlate requests and responses.
#[derive(Debug)]
pub struct StanzaId {
    id: String,
}

impl View for StanzaId {
    type V = Seq<char>;

    closed spec fn view(&self) -> Seq<char> {
        self.id@
    }
}

impl StanzaId {
    /// The id as text.
    pub fn as_str(&self) -> (r: &str)
        ensures
            r@ == self@,
    {
        self.id.as_str()
    }

    /// An owned copy of this id.
    pub fn to_owned(&self) -> (r: StanzaId)
        ensures
            r@ == self@,
    {
        StanzaId { id: self.id.clone() }
    }
}

/// Extraction of the stanza id.
pub trait GetStanzaId {
    /// The id, if the stanza has one.
    spec fn stanza_id(&self) -> Option<Seq<char>>;

    fn get_stanza_id(&self) -> (r: Option<StanzaId>)
        ensures
            match r {
                Some(i) => self.stanza_id() == Some(i@),
                None => self.stanza_id() is None,
            },
    ;
}

impl GetStanzaId for Stanza {
    open spec fn stanza_id(&self) -> Option<Seq<char>> {
        opt_view(self@.id())
    }

    fn get_stanza_id(&self) -> (r: Option<StanzaId>) {
        match self.id() {
            Some(id) => Some(StanzaId { id: id.clone() }),
            None => None,
        }
    }
}

/// The models of a sequence of stanzas.
pub open spec fn stanza_views(s: Seq<Stanza>) -> Seq<StanzaModel> {
    s.map_values(|x: Stanza| x@)
}

/// The ticket that follows `t`, wrapping around.
pub open spec fn next_after(t: u64) -> u64 {
    if t == u64::MAX {
        0
    } else {
        (t + 1) as u64
    }
}

/// Pending requests and queued outbound stanzas of one running server.
#[derive(Debug)]
pub struct CorrelationContext {
    pending: PendingTable,
    next_ticket: u64,
    outbound: Vec<Stanza>,
}

impl CorrelationContext {
    /// The pending requests: stanza id to ticket.
    pub closed spec fn pending(&self) -> Map<Seq<char>, u64> {
        pending_entries(self.pending)
    }

    /// The ticket that the next registration receives.
    pub closed spec fn ticket(&self) -> u64 {
        self.next_ticket
    }

    /// The stanzas queued for sending, oldest first.
    pub closed spec fn queued(&self) -> Seq<StanzaModel> {
        stanza_views(self.outbound@)
    }

    /// A context with nothing pending and nothing queued.
    pub fn new() -> (r: CorrelationContext)
        ensures
            r.pending() == Map::<Seq<char>, u64>::empty(),
            r.queued() == Seq::<StanzaModel>::empty(),
            r.ticket() == 0,
    {
        let r = CorrelationContext { pending: table_new(), next_ticket: 0, outbound: Vec::new() };
        assert(r.queued() =~= Seq::<StanzaModel>::empty());
        r
    }

    /// Registers a request that awaits a response with id `id`; returns the
    /// ticket under which the response will be handed over.
    pub fn register(&mut self, id: StanzaId) -> (r: u64)
        ensures
            r == old(self).ticket(),
            final(self).pending() == old(self).pending().insert(id@, r),
            final(self).ticket() == next_after(r),
            final(self).queued() == old(self).queued(),
    {
        let ticket = self.next_ticket;
        table_insert(&mut self.pending, id.id, ticket);
        self.next_ticket = if ticket == u64::MAX {
            0
        } else {
            ticket + 1
        };
        ticket
    }

    /// Removes the pending entry for `id` and returns its ticket, if any.
    pub fn take_pending(&mut self, id: &str) -> (r: Option<u64>)
        ensures
            old(self).pending().contains_key(id@) ==> r == Some(old(self).pending()[id@]),
            !old(self).pending().contains_key(id@) ==> r is None,
            final(self).pending() == old(self).pending().remove(id@),
            final(self).ticket() == old(self).ticket(),
            final(self).queued() == old(self).queued(),
    {
        table_remove(&mut self.pending, id)
    }

    /// Removes the pending entry for the id of `stanza` and returns its
    /// ticket, if the stanza has an id and an entry is pending for it.
    pub fn try_take_pending(&mut self, stanza: &Stanza) -> (r: Option<u64>)
        ensures
            match stanza.stanza_id() {
                Some(id) => {
                    &&& old(self).pending().contains_key(id) ==> r == Some(old(self).pending()[id])
                    &&& !old(self).pending().contains_key(id) ==> r is None
                    &&& final(self).pending() == old(self).pending().remove(id)
                },
                None => r is None && final(self).pending() == old(self).pending(),
            },
            final(self).ticket() == old(self).ticket(),
            final(self).queued() == old(self).queued(),
    {
        match stanza.get_stanza_id() {
            Some(id) => self.take_pending(id.as_str()),
            None => None,
        }
    }

    /// Queues `stanza` for sending.
    pub fn send(&mut self, stanza: Stanza)
        ensures
            final(self).queued() == old(self).queued().push(stanza@),
            final(self).pending() == old(self).pending(),
            final(self).ticket() == old(self).ticket(),
    {
        self.outbound.push(stanza);
        assert(stanza_views(self.outbound@) =~= old(self).queued().push(stanza@));
    }

    /// Takes the queued stanzas, oldest first, leaving the queue empty.
    pub fn take_outbound(&mut self) -> (r: Vec<Stanza>)
        ensures
            stanza_views(r@) == old(self).queued(),
            final(self).queued() == Seq::<StanzaModel>::empty(),
            final(self).pending() == old(self).pending(),
            final(self).ticket() == old(self).ticket(),
    {
        let mut out: Vec<Stanza> = Vec::new();
        std::mem::swap(&mut out, &mut self.outbound);
        assert(stanza_views(self.outbound@) =~= Seq::<StanzaModel>::empty());
        out
    }
}

/// Taking a pending entry is at most once: after `take_pending(id)` has
/// turned `before` into `between`, a second `take_pending(id)` on `between`
/// returns nothing.
pub proof fn take_pending_is_at_most_once(
    before: CorrelationContext,
    between: CorrelationContext,
    second: Option<u64>,
    id: Seq<char>,
)
    requires
        between.pending() == before.pending().remove(id),
        between.pending().contains_key(id) ==> second == Some(between.pending()[id]),
        !between.pending().contains_key(id) ==> second is None,
    ensures
        second is None,
{
}

} // verus!
