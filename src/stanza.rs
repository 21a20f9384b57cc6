//! The stanzas that flow through filters: IQ, message and presence.
//!
//! Addresses (JIDs) are held in their textual form. Payloads that the
//! routing logic never reads are held as serialised XML text.
use vstd::prelude::*;

use crate::reject::StanzaError;

verus! {

/// The type of an IQ stanza.
#[derive(Clone, Copy, Debug, PartialEq, Eq, Structural)]
pub enum IqType {
    /// A `get` request.
    GetRequest,
    /// A `set` request.
    SetRequest,
    Result,
    Error,
}

/// The type of a message stanza.
#[derive(Clone, Copy, Debug, PartialEq, Eq, Structural)]
pub enum MessageType {
    Chat,
    Error,
    Groupchat,
    Headline,
    Normal,
}

/// The type of a presence stanza; `Available` is a presence without a type.
#[derive(Clone, Copy, Debug, PartialEq, Eq, Structural)]
pub enum PresenceType {
    Available,
    Error,
    Probe,
    Subscribe,
    Subscribed,
    Unavailable,
    Unsubscribe,
    Unsubscribed,
}

/// An IQ stanza. Its id is mandatory.
#[derive(Debug)]
pub struct Iq {
    pub from: Option<String>,
    pub to: Option<String>,
    pub id: String,
    pub type_: IqType,
    pub payload: Option<String>,
    pub error: Option<StanzaError>,
}

/// A message stanza. `bodies` holds (language, text) pairs; the language
/// of a body without one is the empty string.
#[derive(Debug)]
pub struct Message {
    pub from: Option<String>,
    pub to: Option<String>,
    pub id: Option<String>,
    pub type_: MessageType,
    pub bodies: Vec<(String, String)>,
    pub error: Option<StanzaError>,
}

/// A presence stanza.
#[derive(Debug)]
pub struct Presence {
    pub from: Option<String>,
    pub to: Option<String>,
    pub id: Option<String>,
    pub type_: PresenceType,
    pub error: Option<StanzaError>,
}

/// One top-level unit of XMPP communication.
#[derive(Debug)]
pub enum Stanza {
    Iq(Iq),
    Message(Message),
    Presence(Presence),
}

/// The model of a message: its bodies as a sequence.
pub struct MessageModel {
    pub from: Option<String>,
    pub to: Option<String>,
    pub id: Option<String>,
    pub type_: MessageType,
    pub bodies: Seq<(Seq<char>, Seq<char>)>,
    pub error: Option<StanzaError>,
}

/// The model of a stanza.
pub enum StanzaModel {
    Iq(Iq),
    Message(MessageModel),
    Presence(Presence),
}

/// The (language, text) pairs as text.
pub open spec fn body_views(bodies: Seq<(String, String)>) -> Seq<(Seq<char>, Seq<char>)> {
    bodies.map_values(|p: (String, String)| (p.0@, p.1@))
}

impl View for Message {
    type V = MessageModel;

    open spec fn view(&self) -> MessageModel {
        MessageModel {
            from: self.from,
            to: self.to,
            id: self.id,
            type_: self.type_,
            bodies: body_views(self.bodies@),
            error: self.error,
        }
    }
}

impl View for Stanza {
    type V = StanzaModel;

    open spec fn view(&self) -> StanzaModel {
        match self {
            Stanza::Iq(iq) => StanzaModel::Iq(*iq),
            Stanza::Message(m) => StanzaModel::Message(m@),
            Stanza::Presence(p) => StanzaModel::Presence(*p),
        }
    }
}

pub(crate) fn clone_text(s: &Option<String>) -> (r: Option<String>)
    ensures
        r == *s,
{
    match s {
        Some(t) => Some(t.clone()),
        None => None,
    }
}

fn clone_error(e: &Option<StanzaError>) -> (r: Option<StanzaError>)
    ensures
        r == *e,
{
    match e {
        Some(x) => Some(x.clone()),
        None => None,
    }
}

impl Clone for Iq {
    fn clone(&self) -> (r: Self)
        ensures
            r == *self,
    {
        Iq {
            from: clone_text(&self.from),
            to: clone_text(&self.to),
            id: self.id.clone(),
            type_: self.type_,
            payload: clone_text(&self.payload),
            error: clone_error(&self.error),
        }
    }
}

impl Clone for Presence {
    fn clone(&self) -> (r: Self)
        ensures
            r == *self,
    {
        Presence {
            from: clone_text(&self.from),
            to: clone_text(&self.to),
            id: clone_text(&self.id),
            type_: self.type_,
            error: clone_error(&self.error),
        }
    }
}

/// Copies (language, text) pairs one by one.
fn clone_bodies(bodies: &Vec<(String, String)>) -> (r: Vec<(String, String)>)
    ensures
        body_views(r@) == body_views(bodies@),
{
    let mut r: Vec<(String, String)> = Vec::new();
    let mut i: usize = 0;
    while i < bodies.len()
        invariant
            i <= bodies@.len(),
            r@.len() == i,
            forall|k: int| 0 <= k < i ==> #[trigger] r@[k] == bodies@[k],
        decreases bodies@.len() - i,
    {
        let lang = bodies[i].0.clone();
        let text = bodies[i].1.clone();
        r.push((lang, text));
        i = i + 1;
    }
    assert(r@ =~= bodies@);
    r
}

impl Clone for Message {
    fn clone(&self) -> (r: Self)
        ensures
            r@ == self@,
    {
        Message {
            from: clone_text(&self.from),
            to: clone_text(&self.to),
            id: clone_text(&self.id),
            type_: self.type_,
            bodies: clone_bodies(&self.bodies),
            error: clone_error(&self.error),
        }
    }
}

impl Clone for Stanza {
    fn clone(&self) -> (r: Self)
        ensures
            r@ == self@,
    {
        match self {
            Stanza::Iq(iq) => Stanza::Iq(iq.clone()),
            Stanza::Message(m) => Stanza::Message(m.clone()),
            Stanza::Presence(p) => Stanza::Presence(p.clone()),
        }
    }
}

impl StanzaModel {
    /// The sender address.
    pub open spec fn from(self) -> Option<String> {
        match self {
            StanzaModel::Iq(iq) => iq.from,
            StanzaModel::Message(m) => m.from,
            StanzaModel::Presence(p) => p.from,
        }
    }

    /// The recipient address.
    pub open spec fn to(self) -> Option<String> {
        match self {
            StanzaModel::Iq(iq) => iq.to,
            StanzaModel::Message(m) => m.to,
            StanzaModel::Presence(p) => p.to,
        }
    }

    /// The stanza id; an IQ always has one.
    pub open spec fn id(self) -> Option<String> {
        match self {
            StanzaModel::Iq(iq) => Some(iq.id),
            StanzaModel::Message(m) => m.id,
            StanzaModel::Presence(p) => p.id,
        }
    }

    /// The name of the kind of stanza.
    pub open spec fn kind_name(self) -> Seq<char> {
        match self {
            StanzaModel::Iq(_) => "iq"@,
            StanzaModel::Message(_) => "message"@,
            StanzaModel::Presence(_) => "presence"@,
        }
    }
}

impl Stanza {
    /// The kind of stanza: "message", "iq" or "presence".
    pub fn stanza_type(&self) -> (r: &'static str)
        ensures
            r@ == self@.kind_name(),
    {
        match self {
            Stanza::Message(_) => "message",
            Stanza::Iq(_) => "iq",
            Stanza::Presence(_) => "presence",
        }
    }

    /// The sender address (the `from` attribute).
    pub fn from(&self) -> (r: Option<&String>)
        ensures
            match r {
                Some(j) => self@.from() == Some(*j),
                None => self@.from() is None,
            },
    {
        match self {
            Stanza::Message(m) => m.from.as_ref(),
            Stanza::Iq(iq) => iq.from.as_ref(),
            Stanza::Presence(p) => p.from.as_ref(),
        }
    }

    /// The recipient address (the `to` attribute).
    pub fn to(&self) -> (r: Option<&String>)
        ensures
            match r {
                Some(j) => self@.to() == Some(*j),
                None => self@.to() is None,
            },
    {
        match self {
            Stanza::Message(m) => m.to.as_ref(),
            Stanza::Iq(iq) => iq.to.as_ref(),
            Stanza::Presence(p) => p.to.as_ref(),
        }
    }

    /// The stanza id.
    pub fn id(&self) -> (r: Option<&String>)
        ensures
            match r {
                Some(j) => self@.id() == Some(*j),
                None => self@.id() is None,
            },
    {
        match self {
            Stanza::Message(m) => m.id.as_ref(),
            Stanza::Iq(iq) => Some(&iq.id),
            Stanza::Presence(p) => p.id.as_ref(),
        }
    }
}

} // verus!
