//! Running a filter on one stanza: the reply to send, or the error reply
//! that a rejection turns into.
use vstd::prelude::*;

use crate::filter::{Filter, Functions, Value, ValueModel};
use crate::reject::{Rejection, StanzaError};
use crate::scope::StanzaScope;
use crate::stanza::{
    clone_text, Iq, IqType, Message, MessageModel, MessageType, Presence, PresenceType, Stanza,
    StanzaModel,
};

verus! {

/// An optional stanza as its model.
pub open spec fn opt_stanza_view(o: Option<Stanza>) -> Option<StanzaModel> {
    match o {
        Some(s) => Some(s@),
        None => None,
    }
}

/// The error reply to `original` carrying `error`.
///
/// An IQ always gets one: an IQ of type error, addressed back, with the
/// same id. A message or a presence gets one only if it is not itself an
/// error and has an id.
pub open spec fn error_reply(original: StanzaModel, error: StanzaError) -> Option<StanzaModel> {
    match original {
        StanzaModel::Iq(iq) => Some(
            StanzaModel::Iq(
                Iq {
                    from: iq.to,
                    to: iq.from,
                    id: iq.id,
                    type_: IqType::Error,
                    payload: None,
                    error: Some(error),
                },
            ),
        ),
        StanzaModel::Message(m) => if m.type_ == MessageType::Error || m.id is None {
            None
        } else {
            Some(
                StanzaModel::Message(
                    MessageModel {
                        from: m.to,
                        to: m.from,
                        id: m.id,
                        type_: MessageType::Error,
                        bodies: Seq::empty(),
                        error: Some(error),
                    },
                ),
            )
        },
        StanzaModel::Presence(p) => if p.type_ == PresenceType::Error || p.id is None {
            None
        } else {
            Some(
                StanzaModel::Presence(
                    Presence {
                        from: p.to,
                        to: p.from,
                        id: p.id,
                        type_: PresenceType::Error,
                        error: Some(error),
                    },
                ),
            )
        },
    }
}

/// Builds the error reply to `original` carrying `error`.
pub fn make_error_stanza(original: &Stanza, error: StanzaError) -> (r: Option<Stanza>)
    ensures
        opt_stanza_view(r) == error_reply(original@, error),
{
    match original {
        Stanza::Iq(iq) => Some(
            Stanza::Iq(
                Iq {
                    from: clone_text(&iq.to),
                    to: clone_text(&iq.from),
                    id: iq.id.clone(),
                    type_: IqType::Error,
                    payload: None,
                    error: Some(error),
                },
            ),
        ),
        Stanza::Message(msg) => {
            if msg.type_ == MessageType::Error || msg.id.is_none() {
                return None;
            }
            let m = Message {
                from: clone_text(&msg.to),
                to: clone_text(&msg.from),
                id: clone_text(&msg.id),
                type_: MessageType::Error,
                bodies: Vec::new(),
                error: Some(error),
            };
            assert(m@.bodies =~= Seq::<(Seq<char>, Seq<char>)>::empty());
            Some(Stanza::Message(m))
        },
        Stanza::Presence(pres) => {
            if pres.type_ == PresenceType::Error || pres.id.is_none() {
                return None;
            }
            Some(
                Stanza::Presence(
                    Presence {
                        from: clone_text(&pres.to),
                        to: clone_text(&pres.from),
                        id: clone_text(&pres.id),
                        type_: PresenceType::Error,
                        error: Some(error),
                    },
                ),
            )
        },
    }
}

/// The stanza that an extraction sends: a single extracted stanza is sent;
/// anything else, the sink included, sends nothing.
pub open spec fn reply_of(ext: Seq<ValueModel>) -> Option<StanzaModel> {
    if ext.len() == 1 {
        match ext[0] {
            ValueModel::Stanza(s) => Some(s),
            _ => None,
        }
    } else {
        None
    }
}

/// Converts a successful extraction into the stanza to send, if any.
pub fn into_response(ext: Vec<Value>) -> (r: Option<Stanza>)
    ensures
        opt_stanza_view(r) == reply_of(crate::filter::views(ext@)),
{
    let mut ext = ext;
    if ext.len() != 1 {
        return None;
    }
    let ghost e0 = ext@;
    let last = ext.pop();
    assert(crate::filter::views(e0)[0] == e0[0]@);
    match last {
        Some(Value::Stanza(s)) => Some(s),
        _ => None,
    }
}

/// Whether `reply` is what stanza `s` gets for outcome `o`: the reply of a
/// successful extraction, or else the error reply for the rejection.
pub open spec fn responds(s: StanzaModel, o: Result<Seq<ValueModel>, Rejection>, reply: Option<StanzaModel>) -> bool {
    match o {
        Ok(ext) => reply == reply_of(ext),
        Err(e) => exists|err: StanzaError| err@ == e.error() && reply == #[trigger] error_reply(s, err),
    }
}

/// The rejection of an outcome, if it is one.
pub open spec fn rejection_of(o: Result<Seq<ValueModel>, Rejection>) -> Option<Rejection> {
    match o {
        Ok(_) => None,
        Err(e) => Some(e),
    }
}

/// Whether `reply` and `rejection` answer stanza `s` as filter `f`, with
/// the application's functions `app`, requires: for some outcome that the
/// evaluation may give, the reply or error reply for it, and its rejection.
pub open spec fn answers<L, M, T, O, R>(
    f: Filter,
    s: StanzaModel,
    app: Functions<L, M, T, O, R>,
    reply: Option<StanzaModel>,
    rejection: Option<Rejection>,
) -> bool where
    L: Fn(u64, Stanza) -> Result<Vec<Value>, Rejection>,
        M: Fn(u64, Vec<Value>) -> Vec<Value>,
        T: Fn(u64, Vec<Value>) -> Result<Vec<Value>, Rejection>,
        O: Fn(u64, Rejection) -> Result<Vec<Value>, Rejection>,
        R: Fn(u64, Rejection) -> Vec<Value>,
 {
    exists|o: Result<Seq<ValueModel>, Rejection>|
        #[trigger] f.produces(s, app, o) && responds(s, o, reply) && rejection == rejection_of(o)
}

/// What a stanza gets: the stanza to send back, if any, and the rejection
/// it answers, if the filter rejected (for local logs: a custom cause is
/// not told to the peer).
#[derive(Debug)]
pub struct Answer {
    pub reply: Option<Stanza>,
    pub rejection: Option<Rejection>,
}

/// A filter, with the application's functions, ready to answer stanzas.
pub struct FilteredService<L, M, T, O, R> {
    pub filter: Filter,
    pub functions: Functions<L, M, T, O, R>,
}

/// Wraps a filter and the application's functions into a service that
/// answers stanzas.
pub fn service<L, M, T, O, R>(filter: Filter, functions: Functions<L, M, T, O, R>) -> (r: FilteredService<L, M, T, O, R>)
    ensures
        r.filter == filter,
        r.functions == functions,
{
    FilteredService { filter, functions }
}

impl<L, M, T, O, R> FilteredService<L, M, T, O, R> where
    L: Fn(u64, Stanza) -> Result<Vec<Value>, Rejection>,
        M: Fn(u64, Vec<Value>) -> Vec<Value>,
        T: Fn(u64, Vec<Value>) -> Result<Vec<Value>, Rejection>,
        O: Fn(u64, Rejection) -> Result<Vec<Value>, Rejection>,
        R: Fn(u64, Rejection) -> Vec<Value>,
 {
    /// Answers one stanza: evaluates the filter with `stanza` installed in
    /// `scope`, and releases it before returning.
    pub fn call_stanza(&self, scope: &mut StanzaScope, stanza: Stanza) -> (r: Answer)
        requires
            old(scope).installed() is None,
            self.functions.total(),
        ensures
            final(scope).installed() is None,
            answers(self.filter, stanza@, self.functions, opt_stanza_view(r.reply), r.rejection),
    {
        scope.set(stanza);
        let outcome = self.filter.filter(scope.current(), &self.functions);
        let stanza = scope.release();
        match outcome {
            Ok(ext) => {
                let ghost o = crate::filter::result_view(Ok(ext));
                let reply = into_response(ext);
                assert(self.filter.produces(stanza@, self.functions, o));
                Answer { reply, rejection: None }
            },
            Err(rejection) => {
                let err = rejection.into_stanza_error();
                let reply = make_error_stanza(&stanza, err);
                assert(err@ == rejection.error() && opt_stanza_view(reply) == error_reply(stanza@, err));
                assert(self.filter.produces(stanza@, self.functions, Err(rejection)));
                Answer { reply, rejection: Some(rejection) }
            },
        }
    }

    /// Answers one stanza with a scope of its own; the stanza to send back.
    pub fn call(&self, stanza: Stanza) -> (r: Option<Stanza>)
        requires
            self.functions.total(),
        ensures
            exists|rejection: Option<Rejection>|
                answers(self.filter, stanza@, self.functions, opt_stanza_view(r), rejection),
    {
        let mut scope = StanzaScope::new();
        let a = self.call_stanza(&mut scope, stanza);
        assert(answers(self.filter, stanza@, self.functions, opt_stanza_view(a.reply), a.rejection));
        a.reply
    }
}

/// An IQ get request that the filter can only reject is answered by an IQ
/// of type error with the same id, whose sender and recipient are the
/// request's recipient and sender.
pub proof fn rejected_iq_request_round_trip<L, M, T, O, R>(
    f: Filter,
    app: Functions<L, M, T, O, R>,
    iq: Iq,
    reply: Option<StanzaModel>,
    rejection: Option<Rejection>,
) where
    L: Fn(u64, Stanza) -> Result<Vec<Value>, Rejection>,
        M: Fn(u64, Vec<Value>) -> Vec<Value>,
        T: Fn(u64, Vec<Value>) -> Result<Vec<Value>, Rejection>,
        O: Fn(u64, Rejection) -> Result<Vec<Value>, Rejection>,
        R: Fn(u64, Rejection) -> Vec<Value>,

    requires
        iq.type_ == IqType::GetRequest,
        forall|o: Result<Seq<ValueModel>, Rejection>|
            #[trigger] f.produces(StanzaModel::Iq(iq), app, o) ==> o is Err,
        answers(f, StanzaModel::Iq(iq), app, reply, rejection),
    ensures
        reply matches Some(StanzaModel::Iq(e)) && e.type_ == IqType::Error && e.id == iq.id
            && e.from == iq.to && e.to == iq.from,
        rejection is Some,
{
}

} // verus!
