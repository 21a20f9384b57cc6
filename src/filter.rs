//! The filter engine.
//!
//! A [`Filter`] is a cloneable description of a pipeline step. Evaluated
//! against a stanza, it either extracts an ordered list of values or
//! rejects the stanza with a [`Rejection`]. Combinators build larger
//! filters from smaller ones: `and` concatenates extractions (a filter
//! that extracts nothing adds nothing), `or` tries an alternative on the
//! same stanza and merges both rejections when both sides fail. `map`,
//! `and_then`, `or_else`, `recover` and application leaf filters call the
//! application's [`Functions`], handing them the extraction, the rejection
//! or the stanza. Since those functions are the application's, what an
//! evaluation gives is stated as the set of outcomes it may give.
use vstd::prelude::*;

use crate::body::{best_body, best_body_of, text_views};
use crate::reject::{item_not_found, item_not_found_spec, Rejection};
use crate::stanza::{
    body_views, clone_text, IqType, Message, MessageModel, MessageType, Stanza, StanzaModel,
};

verus! {

/// One extracted value.
#[derive(Debug)]
pub enum Value {
    Text(String),
    Flag(bool),
    Number(u64),
    Jid(String),
    MaybeJid(Option<String>),
    /// A body as (language, text).
    Body(String, String),
    Stanza(Stanza),
    /// The reply that sends nothing.
    Sink,
}

/// The model of an extracted value.
pub enum ValueModel {
    Text(Seq<char>),
    Flag(bool),
    Number(u64),
    Jid(Seq<char>),
    MaybeJid(Option<Seq<char>>),
    Body(Seq<char>, Seq<char>),
    Stanza(StanzaModel),
    Sink,
}

/// An optional string as optional text.
pub open spec fn opt_view(o: Option<String>) -> Option<Seq<char>> {
    match o {
        Some(s) => Some(s@),
        None => None,
    }
}

impl View for Value {
    type V = ValueModel;

    open spec fn view(&self) -> ValueModel {
        match self {
            Value::Text(s) => ValueModel::Text(s@),
            Value::Flag(b) => ValueModel::Flag(*b),
            Value::Number(n) => ValueModel::Number(*n),
            Value::Jid(j) => ValueModel::Jid(j@),
            Value::MaybeJid(j) => ValueModel::MaybeJid(opt_view(*j)),
            Value::Body(l, t) => ValueModel::Body(l@, t@),
            Value::Stanza(s) => ValueModel::Stanza(s@),
            Value::Sink => ValueModel::Sink,
        }
    }
}

impl Clone for Value {
    fn clone(&self) -> (r: Self)
        ensures
            r@ == self@,
    {
        match self {
            Value::Text(s) => Value::Text(s.clone()),
            Value::Flag(b) => Value::Flag(*b),
            Value::Number(n) => Value::Number(*n),
            Value::Jid(j) => Value::Jid(j.clone()),
            Value::MaybeJid(j) => Value::MaybeJid(
                match j {
                    Some(x) => Some(x.clone()),
                    None => None,
                },
            ),
            Value::Body(l, t) => Value::Body(l.clone(), t.clone()),
            Value::Stanza(s) => Value::Stanza(s.clone()),
            Value::Sink => Value::Sink,
        }
    }
}

/// The models of a list of values.
pub open spec fn views(s: Seq<Value>) -> Seq<ValueModel> {
    s.map_values(|v: Value| v@)
}

/// The model of an evaluation result.
pub open spec fn result_view(r: Result<Vec<Value>, Rejection>) -> Result<Seq<ValueModel>, Rejection> {
    match r {
        Ok(v) => Ok(views(v@)),
        Err(e) => Err(e),
    }
}

/// Copies a list of values.
pub(crate) fn clone_values(vals: &Vec<Value>) -> (r: Vec<Value>)
    ensures
        views(r@) == views(vals@),
{
    let mut r: Vec<Value> = Vec::new();
    let mut i: usize = 0;
    while i < vals.len()
        invariant
            i <= vals@.len(),
            r@.len() == i,
            forall|k: int| 0 <= k < i ==> (#[trigger] r@[k])@ == vals@[k]@,
        decreases vals@.len() - i,
    {
        let v = vals[i].clone();
        r.push(v);
        i = i + 1;
    }
    assert(views(r@) =~= views(vals@));
    r
}

/// A description of one pipeline step.
#[derive(Debug)]
pub enum Filter {
    /// Matches every stanza and extracts nothing.
    Any,
    /// Matches every stanza and extracts the value.
    Just(Value),
    /// Rejects every stanza with the rejection.
    Fail(Rejection),
    /// Matches message stanzas.
    IsMessage,
    /// Matches IQ stanzas.
    IsIq,
    /// Matches presence stanzas.
    IsPresence,
    /// Matches IQ stanzas of type `get`.
    IqGet,
    /// Matches IQ stanzas of type `set`.
    IqSet,
    /// Extracts the optional sender address.
    From,
    /// Extracts the optional recipient address.
    To,
    /// Extracts the sender address; rejects a stanza without one.
    RequireFrom,
    /// Extracts the recipient address; rejects a stanza without one.
    RequireTo,
    /// Extracts the stanza id; rejects a stanza without one.
    IdParam,
    /// Matches stanzas whose id is the given one.
    IdIs(String),
    /// Extracts an IQ stanza.
    IqParam,
    /// Extracts a message stanza.
    MessageParam,
    /// Extracts a presence stanza.
    PresenceParam,
    /// Extracts the best body text of a message for the preferred languages.
    Body(Vec<String>),
    /// Extracts the best body of a message as (language, text).
    BodyWithLang(Vec<String>),
    /// Extracts a chat message with the given body, addressed back to the
    /// sender of the stanza.
    ReplyWith(String),
    /// Extracts a chat message that repeats the body of a message stanza
    /// back to its sender.
    Echo,
    /// Both filters in turn; the extractions are concatenated.
    And(Box<Filter>, Box<Filter>),
    /// The first filter, or else the second on the same stanza.
    Or(Box<Filter>, Box<Filter>),
    /// The filter, with its extraction replaced by the values.
    MapTo(Box<Filter>, Vec<Value>),
    /// The first filter, or else the outcome of the second.
    OrElse(Box<Filter>, Box<Filter>),
    /// The filter, or else the values.
    Recover(Box<Filter>, Vec<Value>),
    /// The application's leaf filter `func`, called with the stanza.
    Leaf(u64),
    /// The filter, with its extraction transformed by the application's
    /// map function `func`; cannot reject by itself.
    MapWith(Box<Filter>, u64),
    /// The filter, then the application's function `func` on its extraction,
    /// which may reject.
    AndThen(Box<Filter>, u64),
    /// The filter, or else the outcome of the application's function `func`
    /// called with the rejection.
    OrElseWith(Box<Filter>, u64),
    /// The filter, or else the extraction that the application's recovery
    /// function `func` makes from the rejection; never rejects.
    RecoverWith(Box<Filter>, u64),
}

impl Filter {
    /// Whether `self` and `other` describe the same pipeline: the same
    /// shape, with values and texts that have the same models.
    pub open spec fn equivalent(self, other: Filter) -> bool
        decreases self,
    {
        match (self, other) {
            (Filter::Just(v), Filter::Just(w)) => v@ == w@,
            (Filter::Body(l), Filter::Body(m)) => text_views(l@) == text_views(m@),
            (Filter::BodyWithLang(l), Filter::BodyWithLang(m)) => text_views(l@) == text_views(m@),
            (Filter::And(a1, b1), Filter::And(a2, b2)) => a1.equivalent(*a2) && b1.equivalent(*b2),
            (Filter::Or(a1, b1), Filter::Or(a2, b2)) => a1.equivalent(*a2) && b1.equivalent(*b2),
            (Filter::OrElse(a1, b1), Filter::OrElse(a2, b2)) => a1.equivalent(*a2) && b1.equivalent(*b2),
            (Filter::MapTo(a1, v1), Filter::MapTo(a2, v2)) => a1.equivalent(*a2) && views(v1@) == views(v2@),
            (Filter::Recover(a1, v1), Filter::Recover(a2, v2)) => a1.equivalent(*a2) && views(v1@) == views(
                v2@,
            ),
            (Filter::MapWith(a1, f1), Filter::MapWith(a2, f2)) => a1.equivalent(*a2) && f1 == f2,
            (Filter::AndThen(a1, f1), Filter::AndThen(a2, f2)) => a1.equivalent(*a2) && f1 == f2,
            (Filter::OrElseWith(a1, f1), Filter::OrElseWith(a2, f2)) => a1.equivalent(*a2) && f1 == f2,
            (Filter::RecoverWith(a1, f1), Filter::RecoverWith(a2, f2)) => a1.equivalent(*a2) && f1 == f2,
            _ => self == other,
        }
    }
}

fn clone_texts(v: &Vec<String>) -> (r: Vec<String>)
    ensures
        text_views(r@) == text_views(v@),
{
    let mut r: Vec<String> = Vec::new();
    let mut i: usize = 0;
    while i < v.len()
        invariant
            i <= v@.len(),
            r@.len() == i,
            forall|k: int| 0 <= k < i ==> #[trigger] r@[k] == v@[k],
        decreases v@.len() - i,
    {
        r.push(v[i].clone());
        i = i + 1;
    }
    assert(r@ =~= v@);
    r
}

impl Clone for Filter {
    fn clone(&self) -> (r: Self)
        ensures
            r.equivalent(*self),
        decreases self,
    {
        match self {
            Filter::Any => Filter::Any,
            Filter::Just(v) => Filter::Just(v.clone()),
            Filter::Fail(e) => Filter::Fail(e.clone()),
            Filter::IsMessage => Filter::IsMessage,
            Filter::IsIq => Filter::IsIq,
            Filter::IsPresence => Filter::IsPresence,
            Filter::IqGet => Filter::IqGet,
            Filter::IqSet => Filter::IqSet,
            Filter::From => Filter::From,
            Filter::To => Filter::To,
            Filter::RequireFrom => Filter::RequireFrom,
            Filter::RequireTo => Filter::RequireTo,
            Filter::IdParam => Filter::IdParam,
            Filter::IdIs(id) => Filter::IdIs(id.clone()),
            Filter::IqParam => Filter::IqParam,
            Filter::MessageParam => Filter::MessageParam,
            Filter::PresenceParam => Filter::PresenceParam,
            Filter::Body(langs) => Filter::Body(clone_texts(langs)),
            Filter::BodyWithLang(langs) => Filter::BodyWithLang(clone_texts(langs)),
            Filter::ReplyWith(body) => Filter::ReplyWith(body.clone()),
            Filter::Echo => Filter::Echo,
            Filter::And(a, b) => Filter::And(Box::new((**a).clone()), Box::new((**b).clone())),
            Filter::Or(a, b) => Filter::Or(Box::new((**a).clone()), Box::new((**b).clone())),
            Filter::MapTo(a, vals) => Filter::MapTo(Box::new((**a).clone()), clone_values(vals)),
            Filter::OrElse(a, b) => Filter::OrElse(Box::new((**a).clone()), Box::new((**b).clone())),
            Filter::Recover(a, vals) => Filter::Recover(Box::new((**a).clone()), clone_values(vals)),
            Filter::Leaf(func) => Filter::Leaf(*func),
            Filter::MapWith(a, func) => Filter::MapWith(Box::new((**a).clone()), *func),
            Filter::AndThen(a, func) => Filter::AndThen(Box::new((**a).clone()), *func),
            Filter::OrElseWith(a, func) => Filter::OrElseWith(Box::new((**a).clone()), *func),
            Filter::RecoverWith(a, func) => Filter::RecoverWith(Box::new((**a).clone()), *func),
        }
    }
}

/// A chat message from `from` to `to` with one body in no language.
pub open spec fn chat_reply(from: Option<String>, to: Option<String>, body: Seq<char>) -> StanzaModel {
    StanzaModel::Message(
        MessageModel {
            from: from,
            to: to,
            id: None,
            type_: MessageType::Chat,
            bodies: seq![(Seq::<char>::empty(), body)],
            error: None,
        },
    )
}

/// The default rejection as an outcome.
pub open spec fn not_found() -> Result<Seq<ValueModel>, Rejection> {
    Err(item_not_found_spec())
}

impl Filter {
    /// What a filter that calls no application function gives on stanza
    /// `s`; combinators and application filters are covered by `produces`.
    pub open spec fn leaf_outcome(self, s: StanzaModel) -> Result<Seq<ValueModel>, Rejection> {
        match self {
            Filter::Any => Ok(Seq::empty()),
            Filter::Just(v) => Ok(seq![v@]),
            Filter::Fail(e) => Err(e),
            Filter::IsMessage => if s is Message {
                Ok(Seq::empty())
            } else {
                not_found()
            },
            Filter::IsIq => if s is Iq {
                Ok(Seq::empty())
            } else {
                not_found()
            },
            Filter::IsPresence => if s is Presence {
                Ok(Seq::empty())
            } else {
                not_found()
            },
            Filter::IqGet => if s matches StanzaModel::Iq(iq) && iq.type_ == IqType::GetRequest {
                Ok(Seq::empty())
            } else {
                not_found()
            },
            Filter::IqSet => if s matches StanzaModel::Iq(iq) && iq.type_ == IqType::SetRequest {
                Ok(Seq::empty())
            } else {
                not_found()
            },
            Filter::From => Ok(seq![ValueModel::MaybeJid(opt_view(s.from()))]),
            Filter::To => Ok(seq![ValueModel::MaybeJid(opt_view(s.to()))]),
            Filter::RequireFrom => match s.from() {
                Some(j) => Ok(seq![ValueModel::Jid(j@)]),
                None => not_found(),
            },
            Filter::RequireTo => match s.to() {
                Some(j) => Ok(seq![ValueModel::Jid(j@)]),
                None => not_found(),
            },
            Filter::IdParam => match s.id() {
                Some(id) => Ok(seq![ValueModel::Text(id@)]),
                None => not_found(),
            },
            Filter::IdIs(expected) => match s.id() {
                Some(id) => if id@ == expected@ {
                    Ok(Seq::empty())
                } else {
                    not_found()
                },
                None => not_found(),
            },
            Filter::IqParam => if s is Iq {
                Ok(seq![ValueModel::Stanza(s)])
            } else {
                not_found()
            },
            Filter::MessageParam => if s is Message {
                Ok(seq![ValueModel::Stanza(s)])
            } else {
                not_found()
            },
            Filter::PresenceParam => if s is Presence {
                Ok(seq![ValueModel::Stanza(s)])
            } else {
                not_found()
            },
            Filter::Body(langs) => match s {
                StanzaModel::Message(m) => match best_body_of(m.bodies, text_views(langs@)) {
                    Some(b) => Ok(seq![ValueModel::Text(b.1)]),
                    None => not_found(),
                },
                _ => not_found(),
            },
            Filter::BodyWithLang(langs) => match s {
                StanzaModel::Message(m) => match best_body_of(m.bodies, text_views(langs@)) {
                    Some(b) => Ok(seq![ValueModel::Body(b.0, b.1)]),
                    None => not_found(),
                },
                _ => not_found(),
            },
            Filter::ReplyWith(body) => Ok(seq![ValueModel::Stanza(chat_reply(s.to(), s.from(), body@))]),
            Filter::Echo => match s {
                StanzaModel::Message(m) => match best_body_of(m.bodies, Seq::empty()) {
                    Some(b) => Ok(seq![ValueModel::Stanza(chat_reply(s.to(), s.from(), b.1))]),
                    None => not_found(),
                },
                _ => not_found(),
            },
            _ => not_found(),
        }
    }

    /// Whether this filter neither combines filters nor calls the application.
    pub open spec fn is_leaf(self) -> bool {
        !(self is And || self is Or || self is MapTo || self is OrElse || self is Recover
            || self is Leaf || self is MapWith || self is AndThen || self is OrElseWith
            || self is RecoverWith)
    }

    /// Whether this filter cannot reject, as its shape shows.
    pub open spec fn infallible(self) -> bool
        decreases self,
    {
        match self {
            Filter::Any | Filter::Just(_) | Filter::From | Filter::To | Filter::ReplyWith(_)
            | Filter::Recover(..) | Filter::RecoverWith(..) => true,
            Filter::MapWith(a, _) => a.infallible(),
            Filter::And(a, b) => a.infallible() && b.infallible(),
            Filter::Or(a, b) => a.infallible() || b.infallible(),
            Filter::MapTo(a, _) => a.infallible(),
            Filter::OrElse(a, b) => a.infallible() || b.infallible(),
            _ => false,
        }
    }
}


fn matched(ok: bool) -> (r: Result<Vec<Value>, Rejection>)
    ensures
        result_view(r) == if ok {
            Ok(Seq::<ValueModel>::empty())
        } else {
            not_found()
        },
{
    if ok {
        let v: Vec<Value> = Vec::new();
        assert(views(v@) =~= Seq::<ValueModel>::empty());
        Ok(v)
    } else {
        Err(item_not_found())
    }
}

fn one(v: Value) -> (r: Result<Vec<Value>, Rejection>)
    ensures
        result_view(r) == Ok::<Seq<ValueModel>, Rejection>(seq![v@]),
{
    let r: Vec<Value> = vec![v];
    assert(views(r@) =~= seq![v@]);
    Ok(r)
}

fn opt_string(o: Option<&String>) -> (r: Option<String>)
    ensures
        match o {
            Some(s) => r == Some(*s),
            None => r is None,
        },
{
    match o {
        Some(s) => Some(s.clone()),
        None => None,
    }
}

/// A chat message from `from` to `to` with one body in no language.
fn make_chat_reply(from: Option<String>, to: Option<String>, body: String) -> (r: Stanza)
    ensures
        r@ == chat_reply(from, to, body@),
{
    let lang = String::new();
    let bodies: Vec<(String, String)> = vec![(lang, body)];
    let m = Message { from, to, id: None, type_: MessageType::Chat, bodies, error: None };
    assert(body_views(m.bodies@) =~= seq![(Seq::<char>::empty(), body@)]);
    Stanza::Message(m)
}

impl Filter {
    /// Evaluates a filter that calls no application function.
    fn eval_leaf(&self, s: &Stanza) -> (r: Result<Vec<Value>, Rejection>)
        requires
            self.is_leaf(),
        ensures
            result_view(r) == self.leaf_outcome(s@),
    {
        match self {
            Filter::Any => matched(true),
            Filter::Just(v) => one(v.clone()),
            Filter::Fail(e) => Err(e.clone()),
            Filter::IsMessage => matched(matches!(s, Stanza::Message(_))),
            Filter::IsIq => matched(matches!(s, Stanza::Iq(_))),
            Filter::IsPresence => matched(matches!(s, Stanza::Presence(_))),
            Filter::IqGet => matched(
                match s {
                    Stanza::Iq(iq) => iq.type_ == IqType::GetRequest,
                    _ => false,
                },
            ),
            Filter::IqSet => matched(
                match s {
                    Stanza::Iq(iq) => iq.type_ == IqType::SetRequest,
                    _ => false,
                },
            ),
            Filter::From => one(Value::MaybeJid(opt_string(s.from()))),
            Filter::To => one(Value::MaybeJid(opt_string(s.to()))),
            Filter::RequireFrom => match s.from() {
                Some(j) => one(Value::Jid(j.clone())),
                None => Err(item_not_found()),
            },
            Filter::RequireTo => match s.to() {
                Some(j) => one(Value::Jid(j.clone())),
                None => Err(item_not_found()),
            },
            Filter::IdParam => match s.id() {
                Some(id) => one(Value::Text(id.clone())),
                None => Err(item_not_found()),
            },
            Filter::IdIs(expected) => match s.id() {
                Some(id) => matched(*id == *expected),
                None => Err(item_not_found()),
            },
            Filter::IqParam => match s {
                Stanza::Iq(_) => one(Value::Stanza(s.clone())),
                _ => Err(item_not_found()),
            },
            Filter::MessageParam => match s {
                Stanza::Message(_) => one(Value::Stanza(s.clone())),
                _ => Err(item_not_found()),
            },
            Filter::PresenceParam => match s {
                Stanza::Presence(_) => one(Value::Stanza(s.clone())),
                _ => Err(item_not_found()),
            },
            Filter::Body(langs) => match s {
                Stanza::Message(m) => match best_body(&m.bodies, langs) {
                    Some(b) => one(Value::Text(b.1)),
                    None => Err(item_not_found()),
                },
                _ => Err(item_not_found()),
            },
            Filter::BodyWithLang(langs) => match s {
                Stanza::Message(m) => match best_body(&m.bodies, langs) {
                    Some(b) => one(Value::Body(b.0, b.1)),
                    None => Err(item_not_found()),
                },
                _ => Err(item_not_found()),
            },
            Filter::ReplyWith(body) => one(
                Value::Stanza(make_chat_reply(opt_string(s.to()), opt_string(s.from()), body.clone())),
            ),
            Filter::Echo => match s {
                Stanza::Message(m) => {
                    let no_langs: Vec<String> = Vec::new();
                    assert(text_views(no_langs@) =~= Seq::<Seq<char>>::empty());
                    match best_body(&m.bodies, &no_langs) {
                        Some(b) => one(
                            Value::Stanza(
                                make_chat_reply(opt_string(s.to()), opt_string(s.from()), b.1),
                            ),
                        ),
                        None => Err(item_not_found()),
                    }
                },
                _ => Err(item_not_found()),
            },
            _ => Err(item_not_found()),
        }
    }
}

/// The application's functions that filters call, each told by the
/// number that the filter names (`func`) which of its operations is meant.
///
/// `leaf` is a leaf filter on the stanza; `map` transforms an extraction and
/// cannot fail; `and_then` transforms an extraction and may reject;
/// `or_else` handles a rejection and may reject again; `recover` turns a
/// rejection into an extraction.
pub struct Functions<L, M, T, O, R> {
    pub leaf: L,
    pub map: M,
    pub and_then: T,
    pub or_else: O,
    pub recover: R,
}

impl<L, M, T, O, R> Functions<L, M, T, O, R> where
    L: Fn(u64, Stanza) -> Result<Vec<Value>, Rejection>,
    M: Fn(u64, Vec<Value>) -> Vec<Value>,
    T: Fn(u64, Vec<Value>) -> Result<Vec<Value>, Rejection>,
    O: Fn(u64, Rejection) -> Result<Vec<Value>, Rejection>,
    R: Fn(u64, Rejection) -> Vec<Value>,
 {
    /// Bundles the application's functions.
    pub fn new(leaf: L, map: M, and_then: T, or_else: O, recover: R) -> (r: Self)
        ensures
            r.leaf == leaf && r.map == map && r.and_then == and_then && r.or_else == or_else
                && r.recover == recover,
    {
        Functions { leaf, map, and_then, or_else, recover }
    }

    /// Every function accepts every argument.
    pub open spec fn total(self) -> bool {
        &&& forall|f: u64, s: Stanza| #[trigger] self.leaf.requires((f, s))
        &&& forall|f: u64, x: Vec<Value>| #[trigger] self.map.requires((f, x))
        &&& forall|f: u64, x: Vec<Value>| #[trigger] self.and_then.requires((f, x))
        &&& forall|f: u64, e: Rejection| #[trigger] self.or_else.requires((f, e))
        &&& forall|f: u64, e: Rejection| #[trigger] self.recover.requires((f, e))
    }

    /// The leaf filter `func` may give `r` on stanza `s`.
    pub open spec fn leaf_gives(self, func: u64, s: StanzaModel, r: Result<Seq<ValueModel>, Rejection>) -> bool {
        exists|st: Stanza, out: Result<Vec<Value>, Rejection>|
            st@ == s && result_view(out) == r && #[trigger] call_ensures(self.leaf, (func, st), out)
    }

}

impl Filter {
    /// Whether evaluating this filter against stanza `s`, with the
    /// application's functions `app`, may give `r`.
    ///
    /// `and` evaluates its second filter only when the first succeeds, and
    /// concatenates the extractions; `or` evaluates its second filter on the
    /// same stanza only when the first rejects, and combines both rejections
    /// when both reject. The application's handlers receive the extraction
    /// or the rejection itself.
    pub open spec fn produces<L, M, T, O, R>(
        self,
        s: StanzaModel,
        app: Functions<L, M, T, O, R>,
        r: Result<Seq<ValueModel>, Rejection>,
    ) -> bool where
        L: Fn(u64, Stanza) -> Result<Vec<Value>, Rejection>,
        M: Fn(u64, Vec<Value>) -> Vec<Value>,
        T: Fn(u64, Vec<Value>) -> Result<Vec<Value>, Rejection>,
        O: Fn(u64, Rejection) -> Result<Vec<Value>, Rejection>,
        R: Fn(u64, Rejection) -> Vec<Value>,
    {
        self.outcomes(s, app).contains(r)
    }

    /// The outcomes that evaluating this filter against stanza `s`, with
    /// the application's functions `app`, may give.
    pub open spec fn outcomes<L, M, T, O, R>(self, s: StanzaModel, app: Functions<L, M, T, O, R>) -> Set<
        Result<Seq<ValueModel>, Rejection>,
    > where
        L: Fn(u64, Stanza) -> Result<Vec<Value>, Rejection>,
        M: Fn(u64, Vec<Value>) -> Vec<Value>,
        T: Fn(u64, Vec<Value>) -> Result<Vec<Value>, Rejection>,
        O: Fn(u64, Rejection) -> Result<Vec<Value>, Rejection>,
        R: Fn(u64, Rejection) -> Vec<Value>,
        decreases self,
    {
        match self {
            Filter::And(a, b) => {
                let oa = a.outcomes(s, app);
                let ob = b.outcomes(s, app);
                Set::new(
                    |r: Result<Seq<ValueModel>, Rejection>|
                        {
                            ||| (r is Err && oa.contains(r))
                            ||| exists|x: Seq<ValueModel>|
                                #[trigger] oa.contains(Ok(x)) && r is Err && ob.contains(r)
                            ||| exists|x: Seq<ValueModel>, y: Seq<ValueModel>|
                                #![trigger oa.contains(Ok(x)), ob.contains(Ok(y))]
                                oa.contains(Ok(x)) && ob.contains(Ok(y)) && r == Ok::<
                                    Seq<ValueModel>,
                                    Rejection,
                                >(x + y)
                        },
                )
            },
            Filter::Or(a, b) => {
                let oa = a.outcomes(s, app);
                let ob = b.outcomes(s, app);
                Set::new(
                    |r: Result<Seq<ValueModel>, Rejection>|
                        {
                            ||| (r is Ok && oa.contains(r))
                            ||| exists|ea: Rejection|
                                #[trigger] oa.contains(Err(ea)) && r is Ok && ob.contains(r)
                            ||| exists|ea: Rejection, eb: Rejection|
                                #![trigger oa.contains(Err(ea)), ob.contains(Err(eb))]
                                oa.contains(Err(ea)) && ob.contains(Err(eb)) && r == Err::<
                                    Seq<ValueModel>,
                                    Rejection,
                                >(ea.combined(eb))
                        },
                )
            },
            Filter::MapTo(a, vals) => {
                let oa = a.outcomes(s, app);
                Set::new(
                    |r: Result<Seq<ValueModel>, Rejection>|
                        (r is Err && oa.contains(r)) || (r == Ok::<Seq<ValueModel>, Rejection>(
                            views(vals@),
                        ) && exists|x: Seq<ValueModel>| #[trigger] oa.contains(Ok(x))),
                )
            },
            Filter::OrElse(a, b) => {
                let oa = a.outcomes(s, app);
                let ob = b.outcomes(s, app);
                Set::new(
                    |r: Result<Seq<ValueModel>, Rejection>|
                        (r is Ok && oa.contains(r)) || ((exists|e: Rejection|
                            #[trigger] oa.contains(Err(e))) && ob.contains(r)),
                )
            },
            Filter::Recover(a, vals) => {
                let oa = a.outcomes(s, app);
                Set::new(
                    |r: Result<Seq<ValueModel>, Rejection>|
                        (r is Ok && oa.contains(r)) || (r == Ok::<Seq<ValueModel>, Rejection>(
                            views(vals@),
                        ) && exists|e: Rejection| #[trigger] oa.contains(Err(e))),
                )
            },
            Filter::Leaf(func) => Set::new(
                |r: Result<Seq<ValueModel>, Rejection>| app.leaf_gives(func, s, r),
            ),
            Filter::MapWith(a, func) => {
                let oa = a.outcomes(s, app);
                Set::new(
                    |r: Result<Seq<ValueModel>, Rejection>|
                        (r is Err && oa.contains(r)) || exists|x: Vec<Value>, y: Vec<Value>|
                            #![trigger call_ensures(app.map, (func, x), y)]
                            oa.contains(Ok(views(x@))) && call_ensures(app.map, (func, x), y) && r
                                == Ok::<Seq<ValueModel>, Rejection>(views(y@)),
                )
            },
            Filter::AndThen(a, func) => {
                let oa = a.outcomes(s, app);
                Set::new(
                    |r: Result<Seq<ValueModel>, Rejection>|
                        (r is Err && oa.contains(r)) || exists|
                            x: Vec<Value>,
                            out: Result<Vec<Value>, Rejection>,
                        |
                            #![trigger call_ensures(app.and_then, (func, x), out)]
                            oa.contains(Ok(views(x@))) && call_ensures(app.and_then, (func, x), out)
                                && r == result_view(out),
                )
            },
            Filter::OrElseWith(a, func) => {
                let oa = a.outcomes(s, app);
                Set::new(
                    |r: Result<Seq<ValueModel>, Rejection>|
                        (r is Ok && oa.contains(r)) || exists|
                            e: Rejection,
                            out: Result<Vec<Value>, Rejection>,
                        |
                            #![trigger call_ensures(app.or_else, (func, e), out)]
                            oa.contains(Err(e)) && call_ensures(app.or_else, (func, e), out) && r
                                == result_view(out),
                )
            },
            Filter::RecoverWith(a, func) => {
                let oa = a.outcomes(s, app);
                Set::new(
                    |r: Result<Seq<ValueModel>, Rejection>|
                        (r is Ok && oa.contains(r)) || exists|e: Rejection, y: Vec<Value>|
                            #![trigger call_ensures(app.recover, (func, e), y)]
                            oa.contains(Err(e)) && call_ensures(app.recover, (func, e), y) && r
                                == Ok::<Seq<ValueModel>, Rejection>(views(y@)),
                )
            },
            _ => set![self.leaf_outcome(s)],
        }
    }

    /// Evaluates this filter against stanza `s`, calling the application's
    /// functions `app` where the filter names them.
    pub fn filter<L, M, T, O, R>(&self, s: &Stanza, app: &Functions<L, M, T, O, R>) -> (r: Result<Vec<Value>, Rejection>) where
        L: Fn(u64, Stanza) -> Result<Vec<Value>, Rejection>,
    M: Fn(u64, Vec<Value>) -> Vec<Value>,
    T: Fn(u64, Vec<Value>) -> Result<Vec<Value>, Rejection>,
    O: Fn(u64, Rejection) -> Result<Vec<Value>, Rejection>,
    R: Fn(u64, Rejection) -> Vec<Value>,
        requires
            app.total(),
        ensures
            self.produces(s@, *app, result_view(r)),
        decreases self,
    {
        match self {
            Filter::And(a, b) => match a.filter(s, app) {
                Ok(x) => match b.filter(s, app) {
                    Ok(y) => {
                        let mut x = x;
                        let mut y = y;
                        let ghost x0 = x@;
                        let ghost y0 = y@;
                        x.append(&mut y);
                        assert(views(x@) =~= views(x0) + views(y0));
                        assert(b.produces(s@, *app, Ok(views(y0))));
                        assert(a.produces(s@, *app, Ok(views(x0))));
                        assert(self.produces(s@, *app, result_view(Ok(x))));
                        Ok(x)
                    },
                    Err(e) => {
                        assert(a.produces(s@, *app, Ok(views(x@))));
                        assert(self.produces(s@, *app, result_view(Err(e))));
                        Err(e)
                    },
                },
                Err(e) => Err(e),
            },
            Filter::Or(a, b) => match a.filter(s, app) {
                Ok(x) => Ok(x),
                Err(ea) => {
                    assert(a.produces(s@, *app, Err(ea)));
                    match b.filter(s, app) {
                        Ok(y) => Ok(y),
                        Err(eb) => {
                            assert(b.produces(s@, *app, Err(eb)));
                            let c = ea.combine(eb);
                            assert(self.produces(s@, *app, result_view(Err(c))));
                            Err(c)
                        },
                    }
                },
            },
            Filter::MapTo(a, vals) => match a.filter(s, app) {
                Ok(x) => {
                    assert(a.produces(s@, *app, Ok(views(x@))));
                    Ok(clone_values(vals))
                },
                Err(e) => Err(e),
            },
            Filter::OrElse(a, b) => match a.filter(s, app) {
                Ok(x) => Ok(x),
                Err(e) => {
                    assert(a.produces(s@, *app, Err(e)));
                    b.filter(s, app)
                },
            },
            Filter::Recover(a, vals) => match a.filter(s, app) {
                Ok(x) => Ok(x),
                Err(e) => {
                    assert(a.produces(s@, *app, Err(e)));
                    Ok(clone_values(vals))
                },
            },
            Filter::Leaf(func) => {
                let st = s.clone();
                let ghost st0 = st;
                let out = (app.leaf)(*func, st);
                assert(call_ensures(app.leaf, (*func, st0), out));
                assert(app.leaf_gives(*func, s@, result_view(out)));
                out
            },
            Filter::MapWith(a, func) => match a.filter(s, app) {
                Ok(x) => {
                    let ghost x0 = x;
                    assert(a.produces(s@, *app, Ok(views(x@))));
                    let y = (app.map)(*func, x);
                    assert(call_ensures(app.map, (*func, x0), y));
                    assert(self.produces(s@, *app, result_view(Ok(y))));
                    Ok(y)
                },
                Err(e) => Err(e),
            },
            Filter::AndThen(a, func) => match a.filter(s, app) {
                Ok(x) => {
                    let ghost x0 = x;
                    assert(a.produces(s@, *app, Ok(views(x@))));
                    let out = (app.and_then)(*func, x);
                    assert(call_ensures(app.and_then, (*func, x0), out));
                    assert(self.produces(s@, *app, result_view(out)));
                    out
                },
                Err(e) => Err(e),
            },
            Filter::OrElseWith(a, func) => match a.filter(s, app) {
                Ok(x) => Ok(x),
                Err(e) => {
                    let ghost e0 = e;
                    assert(a.produces(s@, *app, Err(e)));
                    let out = (app.or_else)(*func, e);
                    assert(call_ensures(app.or_else, (*func, e0), out));
                    assert(self.produces(s@, *app, result_view(out)));
                    out
                },
            },
            Filter::RecoverWith(a, func) => match a.filter(s, app) {
                Ok(x) => Ok(x),
                Err(e) => {
                    let ghost e0 = e;
                    assert(a.produces(s@, *app, Err(e)));
                    let y = (app.recover)(*func, e);
                    assert(call_ensures(app.recover, (*func, e0), y));
                    assert(self.produces(s@, *app, result_view(Ok(y))));
                    Ok(y)
                },
            },
            _ => {
                let r = self.eval_leaf(s);
                assert(self.produces(s@, *app, result_view(r)));
                r
            },
        }
    }
}

/// A filter that matches every stanza and extracts nothing.
pub fn any() -> (r: Filter)
    ensures
        r == Filter::Any,
{
    Filter::Any
}

/// An application leaf filter: the application's function `func`, called
/// with the stanza.
pub fn leaf(func: u64) -> (r: Filter)
    ensures
        r == Filter::Leaf(func),
{
    Filter::Leaf(func)
}

impl Filter {
    /// Sequential composition: this filter, then `other` on the same
    /// stanza; the extractions are concatenated.
    pub fn and(self, other: Filter) -> (r: Filter)
        ensures
            r == Filter::And(Box::new(self), Box::new(other)),
    {
        Filter::And(Box::new(self), Box::new(other))
    }

    /// Alternative composition: this filter, or else `other` on the same
    /// stanza; when both reject, the rejections are combined.
    pub fn or(self, other: Filter) -> (r: Filter)
        ensures
            r == Filter::Or(Box::new(self), Box::new(other)),
    {
        Filter::Or(Box::new(self), Box::new(other))
    }

    /// Transforms a successful extraction with the application's map
    /// function `func`.
    pub fn map(self, func: u64) -> (r: Filter)
        ensures
            r == Filter::MapWith(Box::new(self), func),
    {
        Filter::MapWith(Box::new(self), func)
    }

    /// Transforms a successful extraction with the application's function
    /// `func`, which may reject.
    pub fn and_then(self, func: u64) -> (r: Filter)
        ensures
            r == Filter::AndThen(Box::new(self), func),
    {
        Filter::AndThen(Box::new(self), func)
    }

    /// On rejection, the outcome of the application's handler `func` called
    /// with the rejection.
    pub fn or_else(self, func: u64) -> (r: Filter)
        ensures
            r == Filter::OrElseWith(Box::new(self), func),
    {
        Filter::OrElseWith(Box::new(self), func)
    }

    /// On rejection, the extraction that the application's recovery function
    /// `func` makes from the rejection: the result never rejects.
    pub fn recover(self, func: u64) -> (r: Filter)
        ensures
            r == Filter::RecoverWith(Box::new(self), func),
            r.infallible(),
    {
        Filter::RecoverWith(Box::new(self), func)
    }

    /// Replaces a successful extraction by `vals`.
    pub fn map_to(self, vals: Vec<Value>) -> (r: Filter)
        ensures
            r == Filter::MapTo(Box::new(self), vals),
    {
        Filter::MapTo(Box::new(self), vals)
    }

    /// On rejection, the outcome of `fallback` on the same stanza instead.
    pub fn or_fallback(self, fallback: Filter) -> (r: Filter)
        ensures
            r == Filter::OrElse(Box::new(self), Box::new(fallback)),
    {
        Filter::OrElse(Box::new(self), Box::new(fallback))
    }

    /// On rejection, the extraction `vals` instead: the result never rejects.
    pub fn recover_to(self, vals: Vec<Value>) -> (r: Filter)
        ensures
            r == Filter::Recover(Box::new(self), vals),
            r.infallible(),
    {
        Filter::Recover(Box::new(self), vals)
    }
}

/// A filter whose shape shows that it cannot reject never rejects,
/// whatever the application's functions do.
pub proof fn infallible_never_rejects<L, M, T, O, R>(f: Filter, s: StanzaModel, app: Functions<L, M, T, O, R>) where
    L: Fn(u64, Stanza) -> Result<Vec<Value>, Rejection>,
    M: Fn(u64, Vec<Value>) -> Vec<Value>,
    T: Fn(u64, Vec<Value>) -> Result<Vec<Value>, Rejection>,
    O: Fn(u64, Rejection) -> Result<Vec<Value>, Rejection>,
    R: Fn(u64, Rejection) -> Vec<Value>,
    requires
        f.infallible(),
    ensures
        forall|e: Rejection| !#[trigger] f.produces(s, app, Err(e)),
    decreases f,
{
    assert forall|e: Rejection| !#[trigger] f.produces(s, app, Err(e)) by {
        let oe = Err::<Seq<ValueModel>, Rejection>(e);
        match f {
            Filter::And(a, b) => {
                infallible_never_rejects(*a, s, app);
                infallible_never_rejects(*b, s, app);
                assert(!a.produces(s, app, oe) && !b.produces(s, app, oe));
            },
            Filter::Or(a, b) => {
                if a.infallible() {
                    infallible_never_rejects(*a, s, app);
                } else {
                    infallible_never_rejects(*b, s, app);
                }
                if f.produces(s, app, oe) {
                    let (ea, eb) = choose|ea: Rejection, eb: Rejection|
                        a.outcomes(s, app).contains(Err(ea)) && b.outcomes(s, app).contains(Err(eb))
                            && oe == Err::<Seq<ValueModel>, Rejection>(ea.combined(eb));
                    assert(a.produces(s, app, Err(ea)) && b.produces(s, app, Err(eb)));
                }
            },
            Filter::OrElse(a, b) => {
                if a.infallible() {
                    infallible_never_rejects(*a, s, app);
                } else {
                    infallible_never_rejects(*b, s, app);
                    assert(!b.produces(s, app, oe));
                }
                if f.produces(s, app, oe) {
                    let ea = choose|ea: Rejection| a.outcomes(s, app).contains(Err(ea));
                    assert(a.produces(s, app, Err(ea)) && b.produces(s, app, oe));
                }
            },
            Filter::MapTo(a, _) => {
                infallible_never_rejects(*a, s, app);
                assert(!a.produces(s, app, oe));
            },
            Filter::MapWith(a, _) => {
                infallible_never_rejects(*a, s, app);
                assert(!a.produces(s, app, oe));
            },
            Filter::Any | Filter::Just(_) | Filter::From | Filter::To | Filter::ReplyWith(_) => {
                assert(f.leaf_outcome(s) is Ok);
            },
            _ => {},
        }
    }
}

/// `a.and(b).and(c)` and `a.and(b.and(c))` may give the same outcomes on
/// every stanza: the same extractions and the same rejections.
pub proof fn and_is_associative<L, M, T, O, R>(
    a: Filter,
    b: Filter,
    c: Filter,
    s: StanzaModel,
    app: Functions<L, M, T, O, R>,
) where
    L: Fn(u64, Stanza) -> Result<Vec<Value>, Rejection>,
    M: Fn(u64, Vec<Value>) -> Vec<Value>,
    T: Fn(u64, Vec<Value>) -> Result<Vec<Value>, Rejection>,
    O: Fn(u64, Rejection) -> Result<Vec<Value>, Rejection>,
    R: Fn(u64, Rejection) -> Vec<Value>,
    ensures
        Filter::And(Box::new(Filter::And(Box::new(a), Box::new(b))), Box::new(c)).outcomes(s, app)
            == Filter::And(Box::new(a), Box::new(Filter::And(Box::new(b), Box::new(c)))).outcomes(s, app),
{
    let ab = Filter::And(Box::new(a), Box::new(b));
    let bc = Filter::And(Box::new(b), Box::new(c));
    let lhs = Filter::And(Box::new(ab), Box::new(c));
    let rhs = Filter::And(Box::new(a), Box::new(bc));
    let oa = a.outcomes(s, app);
    let ob = b.outcomes(s, app);
    let oc = c.outcomes(s, app);
    let oab = ab.outcomes(s, app);
    let obc = bc.outcomes(s, app);
    assert forall|r: Result<Seq<ValueModel>, Rejection>| lhs.outcomes(s, app).contains(r) implies rhs.outcomes(s, app).contains(r) by {
        if r is Err {
            if oab.contains(r) {
                if !oa.contains(r) {
                    let x = choose|x: Seq<ValueModel>| oa.contains(Ok(x)) && ob.contains(r);
                    assert(obc.contains(r));
                    assert(oa.contains(Ok(x)));
                }
            } else {
                let xy = choose|xy: Seq<ValueModel>| oab.contains(Ok(xy)) && oc.contains(r);
                let (x, y) = choose|x: Seq<ValueModel>, y: Seq<ValueModel>|
                    oa.contains(Ok(x)) && ob.contains(Ok(y)) && Ok::<Seq<ValueModel>, Rejection>(xy)
                        == Ok::<Seq<ValueModel>, Rejection>(x + y);
                assert(ob.contains(Ok(y)) && oc.contains(r));
                assert(obc.contains(r));
                assert(oa.contains(Ok(x)));
            }
        } else {
            let (xy, z) = choose|xy: Seq<ValueModel>, z: Seq<ValueModel>|
                oab.contains(Ok(xy)) && oc.contains(Ok(z)) && r == Ok::<Seq<ValueModel>, Rejection>(xy + z);
            let (x, y) = choose|x: Seq<ValueModel>, y: Seq<ValueModel>|
                oa.contains(Ok(x)) && ob.contains(Ok(y)) && Ok::<Seq<ValueModel>, Rejection>(xy)
                    == Ok::<Seq<ValueModel>, Rejection>(x + y);
            assert(ob.contains(Ok(y)) && oc.contains(Ok(z)));
            assert(obc.contains(Ok(y + z)));
            assert((x + y) + z =~= x + (y + z));
            assert(oa.contains(Ok(x)));
        }
    }
    assert forall|r: Result<Seq<ValueModel>, Rejection>| rhs.outcomes(s, app).contains(r) implies lhs.outcomes(s, app).contains(r) by {
        if r is Err {
            if !oa.contains(r) {
                let x = choose|x: Seq<ValueModel>| oa.contains(Ok(x)) && obc.contains(r);
                assert(oa.contains(Ok(x)));
                if ob.contains(r) {
                    assert(oab.contains(r));
                } else {
                    let y = choose|y: Seq<ValueModel>| ob.contains(Ok(y)) && oc.contains(r);
                    assert(oa.contains(Ok(x)) && ob.contains(Ok(y)));
                    assert(oab.contains(Ok(x + y)));
                }
            } else {
                assert(oab.contains(r));
            }
        } else {
            let (x, yz) = choose|x: Seq<ValueModel>, yz: Seq<ValueModel>|
                oa.contains(Ok(x)) && obc.contains(Ok(yz)) && r == Ok::<Seq<ValueModel>, Rejection>(x + yz);
            let (y, z) = choose|y: Seq<ValueModel>, z: Seq<ValueModel>|
                ob.contains(Ok(y)) && oc.contains(Ok(z)) && Ok::<Seq<ValueModel>, Rejection>(yz)
                    == Ok::<Seq<ValueModel>, Rejection>(y + z);
            assert(oa.contains(Ok(x)) && ob.contains(Ok(y)));
            assert(oab.contains(Ok(x + y)));
            assert(oc.contains(Ok(z)));
            assert((x + y) + z =~= x + (y + z));
        }
    }
    assert(lhs.outcomes(s, app) =~= rhs.outcomes(s, app));
}

/// A filter that extracts nothing adds nothing: `any().and(a)` and
/// `a.and(any())` may give the outcomes of `a`.
pub proof fn and_unit_identity<L, M, T, O, R>(a: Filter, s: StanzaModel, app: Functions<L, M, T, O, R>) where
    L: Fn(u64, Stanza) -> Result<Vec<Value>, Rejection>,
    M: Fn(u64, Vec<Value>) -> Vec<Value>,
    T: Fn(u64, Vec<Value>) -> Result<Vec<Value>, Rejection>,
    O: Fn(u64, Rejection) -> Result<Vec<Value>, Rejection>,
    R: Fn(u64, Rejection) -> Vec<Value>,
    ensures
        Filter::And(Box::new(Filter::Any), Box::new(a)).outcomes(s, app) == a.outcomes(s, app),
        Filter::And(Box::new(a), Box::new(Filter::Any)).outcomes(s, app) == a.outcomes(s, app),
{
    let oa = a.outcomes(s, app);
    let ou = Filter::Any.outcomes(s, app);
    let e = Seq::<ValueModel>::empty();
    assert(ou.contains(Ok(e)));
    let left = Filter::And(Box::new(Filter::Any), Box::new(a));
    let right = Filter::And(Box::new(a), Box::new(Filter::Any));
    assert forall|r: Result<Seq<ValueModel>, Rejection>| left.outcomes(s, app).contains(r) == oa.contains(r) by {
        if let Ok(x) = r {
            assert(e + x =~= x);
        }
    }
    assert forall|r: Result<Seq<ValueModel>, Rejection>| right.outcomes(s, app).contains(r) == oa.contains(r) by {
        if let Ok(x) = r {
            assert(x + e =~= x);
            if right.outcomes(s, app).contains(r) {
                let (x1, y1) = choose|x1: Seq<ValueModel>, y1: Seq<ValueModel>|
                    oa.contains(Ok(x1)) && ou.contains(Ok(y1)) && r == Ok::<Seq<ValueModel>, Rejection>(x1 + y1);
                assert(y1 == e);
                assert(x1 + e =~= x1);
            }
        }
    }
    assert(left.outcomes(s, app) =~= oa);
    assert(right.outcomes(s, app) =~= oa);
}

/// When `a` cannot reject, `a.and(b)` rejects only with a rejection of `b`,
/// and every rejection of `b` after a success of `a` is one of `a.and(b)`.
pub proof fn and_infallible_rejects_as_right<L, M, T, O, R>(
    a: Filter,
    b: Filter,
    s: StanzaModel,
    app: Functions<L, M, T, O, R>,
    e: Rejection,
) where
    L: Fn(u64, Stanza) -> Result<Vec<Value>, Rejection>,
    M: Fn(u64, Vec<Value>) -> Vec<Value>,
    T: Fn(u64, Vec<Value>) -> Result<Vec<Value>, Rejection>,
    O: Fn(u64, Rejection) -> Result<Vec<Value>, Rejection>,
    R: Fn(u64, Rejection) -> Vec<Value>,
    requires
        a.infallible(),
    ensures
        Filter::And(Box::new(a), Box::new(b)).produces(s, app, Err(e)) ==> b.produces(s, app, Err(e)),
        (exists|x: Seq<ValueModel>| #[trigger] a.produces(s, app, Ok(x))) && b.produces(s, app, Err(e))
            ==> Filter::And(Box::new(a), Box::new(b)).produces(s, app, Err(e)),
{
    infallible_never_rejects(a, s, app);
    assert(!a.produces(s, app, Err(e)));
}

/// When `a` rejects, `a.or_else(func)` gives exactly what the application's
/// handler `func` gives when called with a rejection of `a`.
pub proof fn or_else_hands_over_the_rejection<L, M, T, O, R>(
    a: Filter,
    func: u64,
    s: StanzaModel,
    app: Functions<L, M, T, O, R>,
    r: Result<Seq<ValueModel>, Rejection>,
) where
    L: Fn(u64, Stanza) -> Result<Vec<Value>, Rejection>,
    M: Fn(u64, Vec<Value>) -> Vec<Value>,
    T: Fn(u64, Vec<Value>) -> Result<Vec<Value>, Rejection>,
    O: Fn(u64, Rejection) -> Result<Vec<Value>, Rejection>,
    R: Fn(u64, Rejection) -> Vec<Value>,
    requires
        forall|o: Result<Seq<ValueModel>, Rejection>| #[trigger] a.produces(s, app, o) ==> o is Err,
    ensures
        Filter::OrElseWith(Box::new(a), func).produces(s, app, r) <==> exists|
            e: Rejection,
            out: Result<Vec<Value>, Rejection>,
        |
            #![trigger call_ensures(app.or_else, (func, e), out)]
            a.produces(s, app, Err(e)) && call_ensures(app.or_else, (func, e), out) && r
                == result_view(out),
{
    assert(a.produces(s, app, r) ==> r is Err);
}

/// Equivalent filters, such as a filter and its clone, may give the same
/// outcomes on every stanza.
pub proof fn equivalent_filters_agree<L, M, T, O, R>(
    f: Filter,
    g: Filter,
    s: StanzaModel,
    app: Functions<L, M, T, O, R>,
) where
    L: Fn(u64, Stanza) -> Result<Vec<Value>, Rejection>,
    M: Fn(u64, Vec<Value>) -> Vec<Value>,
    T: Fn(u64, Vec<Value>) -> Result<Vec<Value>, Rejection>,
    O: Fn(u64, Rejection) -> Result<Vec<Value>, Rejection>,
    R: Fn(u64, Rejection) -> Vec<Value>,
    requires
        g.equivalent(f),
    ensures
        g.outcomes(s, app) == f.outcomes(s, app),
    decreases f,
{
    match (f, g) {
        (Filter::And(a1, b1), Filter::And(a2, b2)) | (Filter::Or(a1, b1), Filter::Or(a2, b2)) | (
            Filter::OrElse(a1, b1),
            Filter::OrElse(a2, b2),
        ) => {
            equivalent_filters_agree(*a1, *a2, s, app);
            equivalent_filters_agree(*b1, *b2, s, app);
        },
        (Filter::MapTo(a1, _), Filter::MapTo(a2, _)) | (Filter::Recover(a1, _), Filter::Recover(a2, _))
        | (Filter::MapWith(a1, _), Filter::MapWith(a2, _)) | (
            Filter::AndThen(a1, _),
            Filter::AndThen(a2, _),
        ) | (Filter::OrElseWith(a1, _), Filter::OrElseWith(a2, _)) | (
            Filter::RecoverWith(a1, _),
            Filter::RecoverWith(a2, _),
        ) => {
            equivalent_filters_agree(*a1, *a2, s, app);
        },
        _ => {},
    }
}

} // verus!
