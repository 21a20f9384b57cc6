//! Message body extraction.
use vstd::prelude::*;

use crate::filter::Filter;
use crate::stanza::body_views;

verus! {

/// The body that xmpp-parsers picks from `bodies` (language, text) for the
/// preferred languages `langs`.
pub uninterp spec fn best_body_of(
    bodies: Seq<(Seq<char>, Seq<char>)>,
    langs: Seq<Seq<char>>,
) -> Option<(Seq<char>, Seq<char>)>;

/// A sequence of strings as text.
pub open spec fn text_views(s: Seq<String>) -> Seq<Seq<char>> {
    s.map_values(|t: String| t@)
}

/// Whether some body has language `lang`.
pub open spec fn has_lang(bodies: Seq<(Seq<char>, Seq<char>)>, lang: Seq<char>) -> bool {
    exists|j: int| 0 <= j < bodies.len() && (#[trigger] bodies[j]).0 == lang
}

/// Relies on xmpp_parsers::message::Message::get_best_body_cloned: no body
/// exactly when there are no bodies; otherwise one of the bodies, in the
/// first preferred language that has one, else the body without a
/// language, if there is one.
#[verifier::external_body]
pub(crate) fn best_body(bodies: &Vec<(String, String)>, langs: &Vec<String>) -> (r: Option<(String, String)>)
    ensures
        match r {
            Some(p) => best_body_of(body_views(bodies@), text_views(langs@)) == Some((p.0@, p.1@)),
            None => best_body_of(body_views(bodies@), text_views(langs@)) is None,
        },
        r is None <==> bodies@.len() == 0,
        r matches Some(p) ==> exists|j: int|
            0 <= j < bodies@.len() && (#[trigger] body_views(bodies@)[j]) == (p.0@, p.1@),
        r matches Some(p) ==> forall|i: int|
            0 <= i < langs@.len() && has_lang(body_views(bodies@), #[trigger] text_views(langs@)[i])
                && (forall|k: int| 0 <= k < i ==> !has_lang(body_views(bodies@), text_views(langs@)[k]))
                ==> p.0@ == text_views(langs@)[i],
        r matches Some(p) ==> (
            (forall|k: int| 0 <= k < langs@.len() ==> !has_lang(body_views(bodies@), #[trigger] text_views(langs@)[k]))
                && has_lang(body_views(bodies@), Seq::empty()) ==> p.0@.len() == 0),
{
    let mut m = xmpp_parsers::message::Message::new(None::<xmpp_parsers::jid::Jid>);
    for (lang, text) in bodies.iter() {
        m.bodies.insert(xmpp_parsers::message::Lang(lang.clone()), text.clone());
    }
    let prefs: Vec<&str> = langs.iter().map(|l| l.as_str()).collect();
    m.get_best_body_cloned(prefs).map(|(lang, text)| (lang.0, text))
}

/// Extracts the best body text of a message stanza, in any language.
///
/// Rejects with `item-not-found` a stanza that is not a message, and a
/// message without a body.
pub fn param() -> (r: Filter)
    ensures
        r matches Filter::Body(l) && l@.len() == 0,
{
    Filter::Body(Vec::new())
}

/// Extracts the best body of a message stanza as (language, text), trying
/// the languages of `preferred_langs` in order.
///
/// Rejects with `item-not-found` a stanza that is not a message, and a
/// message without a body.
pub fn param_with_lang(preferred_langs: Vec<String>) -> (r: Filter)
    ensures
        r == Filter::BodyWithLang(preferred_langs),
{
    Filter::BodyWithLang(preferred_langs)
}

} // verus!
