//! Rejections: why a filter chain did not produce a result.
//!
//! A rejection is a tree. Its leaves are causes: either one of the known
//! protocol error conditions, or a custom cause supplied by the application.
//! Its inner nodes record that both sides of an `or` failed. The tree is
//! resolved to a single cause only when an error stanza has to be built.
use vstd::prelude::*;
use vstd::string::*;

verus! {

/// The standard stanza error conditions.
///
/// Each known cause of a rejection is one of these conditions.
#[derive(Clone, Copy, Debug, PartialEq, Eq, Structural)]
pub enum DefinedCondition {
    BadRequest,
    Conflict,
    FeatureNotImplemented,
    Forbidden,
    Gone,
    InternalServerError,
    ItemNotFound,
    JidMalformed,
    NotAcceptable,
    NotAllowed,
    NotAuthorized,
    RecipientUnavailable,
    Redirect,
    RegistrationRequired,
    RemoteServerNotFound,
    RemoteServerTimeout,
    ResourceConstraint,
    ServiceUnavailable,
    SubscriptionRequired,
    UndefinedCondition,
    UnexpectedRequest,
}

/// How a client should react to an error: the retry class.
#[derive(Clone, Copy, Debug, PartialEq, Eq, Structural)]
pub enum ErrorType {
    /// Retry after providing credentials.
    Auth,
    /// Do not retry.
    Cancel,
    /// Retry after changing the data sent.
    Modify,
    /// Retry after waiting.
    Wait,
}

impl ErrorType {
    /// The wire token of this error type.
    pub open spec fn token(self) -> Seq<char> {
        match self {
            ErrorType::Auth => "auth"@,
            ErrorType::Cancel => "cancel"@,
            ErrorType::Modify => "modify"@,
            ErrorType::Wait => "wait"@,
        }
    }

    pub fn as_str(&self) -> (r: &'static str)
        ensures
            r@ == self.token(),
    {
        match self {
            ErrorType::Auth => "auth",
            ErrorType::Cancel => "cancel",
            ErrorType::Modify => "modify",
            ErrorType::Wait => "wait",
        }
    }
}

impl DefinedCondition {
    /// The wire token of this condition, such as `item-not-found`.
    pub open spec fn token(self) -> Seq<char> {
        match self {
            DefinedCondition::BadRequest => "bad-request"@,
            DefinedCondition::Conflict => "conflict"@,
            DefinedCondition::FeatureNotImplemented => "feature-not-implemented"@,
            DefinedCondition::Forbidden => "forbidden"@,
            DefinedCondition::Gone => "gone"@,
            DefinedCondition::InternalServerError => "internal-server-error"@,
            DefinedCondition::ItemNotFound => "item-not-found"@,
            DefinedCondition::JidMalformed => "jid-malformed"@,
            DefinedCondition::NotAcceptable => "not-acceptable"@,
            DefinedCondition::NotAllowed => "not-allowed"@,
            DefinedCondition::NotAuthorized => "not-authorized"@,
            DefinedCondition::RecipientUnavailable => "recipient-unavailable"@,
            DefinedCondition::Redirect => "redirect"@,
            DefinedCondition::RegistrationRequired => "registration-required"@,
            DefinedCondition::RemoteServerNotFound => "remote-server-not-found"@,
            DefinedCondition::RemoteServerTimeout => "remote-server-timeout"@,
            DefinedCondition::ResourceConstraint => "resource-constraint"@,
            DefinedCondition::ServiceUnavailable => "service-unavailable"@,
            DefinedCondition::SubscriptionRequired => "subscription-required"@,
            DefinedCondition::UndefinedCondition => "undefined-condition"@,
            DefinedCondition::UnexpectedRequest => "unexpected-request"@,
        }
    }

    pub open spec fn name(self) -> Seq<char> {
        match self {
            DefinedCondition::BadRequest => "BadRequest"@,
            DefinedCondition::Conflict => "Conflict"@,
            DefinedCondition::FeatureNotImplemented => "FeatureNotImplemented"@,
            DefinedCondition::Forbidden => "Forbidden"@,
            DefinedCondition::Gone => "Gone"@,
            DefinedCondition::InternalServerError => "InternalServerError"@,
            DefinedCondition::ItemNotFound => "ItemNotFound"@,
            DefinedCondition::JidMalformed => "JidMalformed"@,
            DefinedCondition::NotAcceptable => "NotAcceptable"@,
            DefinedCondition::NotAllowed => "NotAllowed"@,
            DefinedCondition::NotAuthorized => "NotAuthorized"@,
            DefinedCondition::RecipientUnavailable => "RecipientUnavailable"@,
            DefinedCondition::Redirect => "Redirect"@,
            DefinedCondition::RegistrationRequired => "RegistrationRequired"@,
            DefinedCondition::RemoteServerNotFound => "RemoteServerNotFound"@,
            DefinedCondition::RemoteServerTimeout => "RemoteServerTimeout"@,
            DefinedCondition::ResourceConstraint => "ResourceConstraint"@,
            DefinedCondition::ServiceUnavailable => "ServiceUnavailable"@,
            DefinedCondition::SubscriptionRequired => "SubscriptionRequired"@,
            DefinedCondition::UndefinedCondition => "UndefinedCondition"@,
            DefinedCondition::UnexpectedRequest => "UnexpectedRequest"@,
        }
    }

    pub open spec fn retry_class(self) -> ErrorType {
        match self {
            DefinedCondition::BadRequest => ErrorType::Modify,
            DefinedCondition::Conflict => ErrorType::Cancel,
            DefinedCondition::FeatureNotImplemented => ErrorType::Cancel,
            DefinedCondition::Forbidden => ErrorType::Auth,
            DefinedCondition::Gone => ErrorType::Cancel,
            DefinedCondition::InternalServerError => ErrorType::Cancel,
            DefinedCondition::ItemNotFound => ErrorType::Cancel,
            DefinedCondition::JidMalformed => ErrorType::Modify,
            DefinedCondition::NotAcceptable => ErrorType::Modify,
            DefinedCondition::NotAllowed => ErrorType::Cancel,
            DefinedCondition::NotAuthorized => ErrorType::Auth,
            DefinedCondition::RecipientUnavailable => ErrorType::Wait,
            DefinedCondition::Redirect => ErrorType::Modify,
            DefinedCondition::RegistrationRequired => ErrorType::Auth,
            DefinedCondition::RemoteServerNotFound => ErrorType::Cancel,
            DefinedCondition::RemoteServerTimeout => ErrorType::Wait,
            DefinedCondition::ResourceConstraint => ErrorType::Wait,
            DefinedCondition::ServiceUnavailable => ErrorType::Wait,
            DefinedCondition::SubscriptionRequired => ErrorType::Auth,
            DefinedCondition::UndefinedCondition => ErrorType::Cancel,
            DefinedCondition::UnexpectedRequest => ErrorType::Cancel,
        }
    }

    pub fn as_str(&self) -> (r: &'static str)
        ensures
            r@ == self.token(),
    {
        match self {
            DefinedCondition::BadRequest => "bad-request",
            DefinedCondition::Conflict => "conflict",
            DefinedCondition::FeatureNotImplemented => "feature-not-implemented",
            DefinedCondition::Forbidden => "forbidden",
            DefinedCondition::Gone => "gone",
            DefinedCondition::InternalServerError => "internal-server-error",
            DefinedCondition::ItemNotFound => "item-not-found",
            DefinedCondition::JidMalformed => "jid-malformed",
            DefinedCondition::NotAcceptable => "not-acceptable",
            DefinedCondition::NotAllowed => "not-allowed",
            DefinedCondition::NotAuthorized => "not-authorized",
            DefinedCondition::RecipientUnavailable => "recipient-unavailable",
            DefinedCondition::Redirect => "redirect",
            DefinedCondition::RegistrationRequired => "registration-required",
            DefinedCondition::RemoteServerNotFound => "remote-server-not-found",
            DefinedCondition::RemoteServerTimeout => "remote-server-timeout",
            DefinedCondition::ResourceConstraint => "resource-constraint",
            DefinedCondition::ServiceUnavailable => "service-unavailable",
            DefinedCondition::SubscriptionRequired => "subscription-required",
            DefinedCondition::UndefinedCondition => "undefined-condition",
            DefinedCondition::UnexpectedRequest => "unexpected-request",
        }
    }

    pub fn variant_name(&self) -> (r: &'static str)
        ensures
            r@ == self.name(),
    {
        match self {
            DefinedCondition::BadRequest => "BadRequest",
            DefinedCondition::Conflict => "Conflict",
            DefinedCondition::FeatureNotImplemented => "FeatureNotImplemented",
            DefinedCondition::Forbidden => "Forbidden",
            DefinedCondition::Gone => "Gone",
            DefinedCondition::InternalServerError => "InternalServerError",
            DefinedCondition::ItemNotFound => "ItemNotFound",
            DefinedCondition::JidMalformed => "JidMalformed",
            DefinedCondition::NotAcceptable => "NotAcceptable",
            DefinedCondition::NotAllowed => "NotAllowed",
            DefinedCondition::NotAuthorized => "NotAuthorized",
            DefinedCondition::RecipientUnavailable => "RecipientUnavailable",
            DefinedCondition::Redirect => "Redirect",
            DefinedCondition::RegistrationRequired => "RegistrationRequired",
            DefinedCondition::RemoteServerNotFound => "RemoteServerNotFound",
            DefinedCondition::RemoteServerTimeout => "RemoteServerTimeout",
            DefinedCondition::ResourceConstraint => "ResourceConstraint",
            DefinedCondition::ServiceUnavailable => "ServiceUnavailable",
            DefinedCondition::SubscriptionRequired => "SubscriptionRequired",
            DefinedCondition::UndefinedCondition => "UndefinedCondition",
            DefinedCondition::UnexpectedRequest => "UnexpectedRequest",
        }
    }

    pub fn error_type(&self) -> (r: ErrorType)
        ensures
            r == self.retry_class(),
    {
        match self {
            DefinedCondition::BadRequest => ErrorType::Modify,
            DefinedCondition::Conflict => ErrorType::Cancel,
            DefinedCondition::FeatureNotImplemented => ErrorType::Cancel,
            DefinedCondition::Forbidden => ErrorType::Auth,
            DefinedCondition::Gone => ErrorType::Cancel,
            DefinedCondition::InternalServerError => ErrorType::Cancel,
            DefinedCondition::ItemNotFound => ErrorType::Cancel,
            DefinedCondition::JidMalformed => ErrorType::Modify,
            DefinedCondition::NotAcceptable => ErrorType::Modify,
            DefinedCondition::NotAllowed => ErrorType::Cancel,
            DefinedCondition::NotAuthorized => ErrorType::Auth,
            DefinedCondition::RecipientUnavailable => ErrorType::Wait,
            DefinedCondition::Redirect => ErrorType::Modify,
            DefinedCondition::RegistrationRequired => ErrorType::Auth,
            DefinedCondition::RemoteServerNotFound => ErrorType::Cancel,
            DefinedCondition::RemoteServerTimeout => ErrorType::Wait,
            DefinedCondition::ResourceConstraint => ErrorType::Wait,
            DefinedCondition::ServiceUnavailable => ErrorType::Wait,
            DefinedCondition::SubscriptionRequired => ErrorType::Auth,
            DefinedCondition::UndefinedCondition => ErrorType::Cancel,
            DefinedCondition::UnexpectedRequest => ErrorType::Cancel,
        }
    }
}


/// The model of a stanza error: retry class, condition, language and text.
pub struct ErrorModel {
    pub type_: ErrorType,
    pub condition: DefinedCondition,
    pub lang: Seq<char>,
    pub text: Seq<char>,
}

/// A stanza error, as carried by an error reply.
#[derive(Debug)]
pub struct StanzaError {
    pub type_: ErrorType,
    pub condition: DefinedCondition,
    pub lang: String,
    pub text: String,
}

impl View for StanzaError {
    type V = ErrorModel;

    open spec fn view(&self) -> ErrorModel {
        ErrorModel { type_: self.type_, condition: self.condition, lang: self.lang@, text: self.text@ }
    }
}

impl Clone for StanzaError {
    fn clone(&self) -> (r: Self)
        ensures
            r == *self,
    {
        StanzaError {
            type_: self.type_,
            condition: self.condition,
            lang: self.lang.clone(),
            text: self.text.clone(),
        }
    }
}

/// A cause of rejection defined by the application.
///
/// `name` identifies the kind of cause (what a type would identify), and
/// `detail` is its diagnostic rendering, for local logs only: the error that
/// an unhandled custom cause turns into carries no part of it.
#[derive(Debug)]
pub struct CustomCause {
    pub name: String,
    pub detail: String,
}

impl Clone for CustomCause {
    fn clone(&self) -> (r: Self)
        ensures
            r == *self,
    {
        CustomCause { name: self.name.clone(), detail: self.detail.clone() }
    }
}

/// A non-empty tree of causes.
#[derive(Debug)]
pub enum Rejections {
    Known(DefinedCondition),
    Custom(CustomCause),
    Combined(Box<Rejections>, Box<Rejections>),
}

/// The reason held by a [`Rejection`].
///
/// `ItemNotFound` is the default, lowest-priority reason: "this filter's
/// predicate did not hold". It needs no allocation.
#[derive(Debug)]
pub enum Reason {
    ItemNotFound,
    Other(Box<Rejections>),
}

/// Rejection of a stanza by a filter.
#[derive(Debug)]
pub struct Rejection {
    pub reason: Reason,
}

/// Rejects a stanza with `item-not-found`.
pub fn reject() -> (r: Rejection)
    ensures
        r == item_not_found_spec(),
{
    item_not_found()
}

/// Rejects a stanza with `item-not-found`, the default rejection.
pub fn item_not_found() -> (r: Rejection)
    ensures
        r == item_not_found_spec(),
{
    Rejection { reason: Reason::ItemNotFound }
}

/// Rejects a stanza with one of the known conditions.
pub fn known(condition: DefinedCondition) -> (r: Rejection)
    ensures
        r.reason == Reason::Other(Box::new(Rejections::Known(condition))),
{
    Rejection { reason: Reason::Other(Box::new(Rejections::Known(condition))) }
}

/// Rejects a stanza with a custom cause.
pub fn custom(cause: CustomCause) -> (r: Rejection)
    ensures
        r.reason == Reason::Other(Box::new(Rejections::Custom(cause))),
{
    Rejection { reason: Reason::Other(Box::new(Rejections::Custom(cause))) }
}

impl Rejections {
    /// The condition of a single cause; a custom cause is undefined.
    pub open spec fn leaf_condition(self) -> DefinedCondition {
        match self {
            Rejections::Known(k) => k,
            _ => DefinedCondition::UndefinedCondition,
        }
    }

    /// The retry class of a single cause; a custom cause is cancel.
    pub open spec fn leaf_type(self) -> ErrorType {
        match self {
            Rejections::Known(k) => k.retry_class(),
            _ => ErrorType::Cancel,
        }
    }

    pub open spec fn is_leaf(self) -> bool {
        !(self is Combined)
    }

    /// The cause that wins: a cause other than `item-not-found` beats
    /// `item-not-found`, and between two such causes the first one wins.
    pub open spec fn preferred_cause(self) -> Rejections
        decreases self,
    {
        match self {
            Rejections::Combined(a, b) => {
                let pa = a.preferred_cause();
                let pb = b.preferred_cause();
                if pb.leaf_condition() == DefinedCondition::ItemNotFound {
                    pa
                } else if pa.leaf_condition() == DefinedCondition::ItemNotFound {
                    pb
                } else {
                    pa
                }
            },
            _ => self,
        }
    }

    /// The condition that this tree resolves to.
    pub open spec fn condition(self) -> DefinedCondition {
        self.preferred_cause().leaf_condition()
    }

    /// The retry class that this tree resolves to.
    pub open spec fn retry_class(self) -> ErrorType {
        self.preferred_cause().leaf_type()
    }

    /// The error that a single cause turns into.
    pub open spec fn leaf_error(self) -> ErrorModel {
        match self {
            Rejections::Known(k) => ErrorModel {
                type_: k.retry_class(),
                condition: k,
                lang: "en"@,
                text: k.token(),
            },
            Rejections::Custom(c) => ErrorModel {
                type_: ErrorType::Cancel,
                condition: DefinedCondition::UndefinedCondition,
                lang: "en"@,
                text: DefinedCondition::UndefinedCondition.token(),
            },
            Rejections::Combined(..) => ErrorModel {
                type_: ErrorType::Cancel,
                condition: DefinedCondition::UndefinedCondition,
                lang: "en"@,
                text: Seq::empty(),
            },
        }
    }

    /// The error that this tree turns into.
    pub open spec fn error(self) -> ErrorModel {
        self.preferred_cause().leaf_error()
    }

    /// The first custom cause named `name`, searching left to right.
    pub open spec fn find_cause(self, name: Seq<char>) -> Option<CustomCause>
        decreases self,
    {
        match self {
            Rejections::Known(_) => None,
            Rejections::Custom(c) => if c.name@ == name {
                Some(c)
            } else {
                None
            },
            Rejections::Combined(a, b) => match a.find_cause(name) {
                Some(c) => Some(c),
                None => b.find_cause(name),
            },
        }
    }

    /// Whether the known condition `k` is among the causes.
    pub open spec fn holds_known(self, k: DefinedCondition) -> bool
        decreases self,
    {
        match self {
            Rejections::Known(j) => j == k,
            Rejections::Custom(_) => false,
            Rejections::Combined(a, b) => a.holds_known(k) || b.holds_known(k),
        }
    }

    /// The diagnostic rendering of a single cause.
    pub open spec fn entry_text(self) -> Seq<char> {
        match self {
            Rejections::Known(k) => k.name(),
            Rejections::Custom(c) => c.detail@,
            Rejections::Combined(..) => Seq::empty(),
        }
    }

    /// The diagnostic renderings of all causes, left to right, separated by `, `.
    pub open spec fn entries_text(self) -> Seq<char>
        decreases self,
    {
        match self {
            Rejections::Combined(a, b) => a.entries_text() + ", "@ + b.entries_text(),
            _ => self.entry_text(),
        }
    }

    /// The first cause, left to right, other than `item-not-found`.
    pub open spec fn first_specific(self) -> Option<Rejections>
        decreases self,
    {
        match self {
            Rejections::Combined(a, b) => match a.first_specific() {
                Some(x) => Some(x),
                None => b.first_specific(),
            },
            _ => if self.leaf_condition() != DefinedCondition::ItemNotFound {
                Some(self)
            } else {
                None
            },
        }
    }

    /// Resolution never lets `item-not-found` beat a specific cause, and
    /// among specific causes the first one, left to right, wins: the
    /// preferred cause is the first specific cause, and is `item-not-found`
    /// only when there is none.
    pub proof fn preferred_is_first_specific(self)
        ensures
            match self.first_specific() {
                Some(x) => self.preferred_cause() == x && x.leaf_condition() != DefinedCondition::ItemNotFound,
                None => self.condition() == DefinedCondition::ItemNotFound,
            },
        decreases self,
    {
        if let Rejections::Combined(a, b) = self {
            a.preferred_is_first_specific();
            b.preferred_is_first_specific();
        }
    }

    pub proof fn lemma_preferred_is_leaf(self)
        ensures
            self.preferred_cause().is_leaf(),
        decreases self,
    {
        if let Rejections::Combined(a, b) = self {
            a.lemma_preferred_is_leaf();
            b.lemma_preferred_is_leaf();
        }
    }

    fn leaf_condition_of(&self) -> (r: DefinedCondition)
        ensures
            r == self.leaf_condition(),
    {
        match self {
            Rejections::Known(k) => *k,
            _ => DefinedCondition::UndefinedCondition,
        }
    }

    /// The cause that wins when the tree is resolved.
    pub fn preferred(&self) -> (r: &Rejections)
        ensures
            *r == self.preferred_cause(),
        decreases self,
    {
        match self {
            Rejections::Combined(a, b) => {
                let pa = a.preferred();
                let pb = b.preferred();
                if pb.leaf_condition_of() == DefinedCondition::ItemNotFound {
                    pa
                } else if pa.leaf_condition_of() == DefinedCondition::ItemNotFound {
                    pb
                } else {
                    pa
                }
            },
            _ => self,
        }
    }

    pub fn error_condition(&self) -> (r: DefinedCondition)
        ensures
            r == self.condition(),
    {
        self.preferred().leaf_condition_of()
    }

    pub fn error_type(&self) -> (r: ErrorType)
        ensures
            r == self.retry_class(),
    {
        match self.preferred() {
            Rejections::Known(k) => k.error_type(),
            _ => ErrorType::Cancel,
        }
    }

    pub fn into_stanza_error(&self) -> (r: StanzaError)
        ensures
            r@ == self.error(),
    {
        let p = self.preferred();
        proof {
            self.lemma_preferred_is_leaf();
        }
        match p {
            Rejections::Known(k) => StanzaError {
                type_: k.error_type(),
                condition: *k,
                lang: String::from_str("en"),
                text: String::from_str(k.as_str()),
            },
            Rejections::Custom(_) => StanzaError {
                type_: ErrorType::Cancel,
                condition: DefinedCondition::UndefinedCondition,
                lang: String::from_str("en"),
                text: String::from_str(DefinedCondition::UndefinedCondition.as_str()),
            },
            Rejections::Combined(..) => StanzaError {
                type_: ErrorType::Cancel,
                condition: DefinedCondition::UndefinedCondition,
                lang: String::from_str("en"),
                text: String::new(),
            },
        }
    }

    pub fn find(&self, name: &str) -> (r: Option<&CustomCause>)
        ensures
            match r {
                Some(c) => self.find_cause(name@) == Some(*c),
                None => self.find_cause(name@) is None,
            },
        decreases self,
    {
        match self {
            Rejections::Known(_) => None,
            Rejections::Custom(c) => {
                let wanted = name.to_owned();
                if c.name == wanted {
                    Some(c)
                } else {
                    None
                }
            },
            Rejections::Combined(a, b) => match a.find(name) {
                Some(c) => Some(c),
                None => b.find(name),
            },
        }
    }

    pub fn contains_known(&self, k: DefinedCondition) -> (r: bool)
        ensures
            r == self.holds_known(k),
        decreases self,
    {
        match self {
            Rejections::Known(j) => *j == k,
            Rejections::Custom(_) => false,
            Rejections::Combined(a, b) => a.contains_known(k) || b.contains_known(k),
        }
    }

    /// Appends the renderings of all causes to `out`.
    pub fn debug_list(&self, out: &mut String)
        ensures
            final(out)@ == old(out)@ + self.entries_text(),
        decreases self,
    {
        match self {
            Rejections::Known(k) => out.append(k.variant_name()),
            Rejections::Custom(c) => out.append(c.detail.as_str()),
            Rejections::Combined(a, b) => {
                a.debug_list(out);
                out.append(", ");
                b.debug_list(out);
                assert(final(out)@ =~= old(out)@ + self.entries_text());
            },
        }
    }
}


impl Clone for Rejections {
    fn clone(&self) -> (r: Self)
        ensures
            r == *self,
        decreases self,
    {
        match self {
            Rejections::Known(k) => Rejections::Known(*k),
            Rejections::Custom(c) => Rejections::Custom(c.clone()),
            Rejections::Combined(a, b) => {
                let a2: Rejections = (**a).clone();
                let b2: Rejections = (**b).clone();
                Rejections::Combined(Box::new(a2), Box::new(b2))
            },
        }
    }
}

impl Clone for Rejection {
    fn clone(&self) -> (r: Self)
        ensures
            r == *self,
    {
        match &self.reason {
            Reason::ItemNotFound => Rejection { reason: Reason::ItemNotFound },
            Reason::Other(o) => {
                let o2: Rejections = (**o).clone();
                Rejection { reason: Reason::Other(Box::new(o2)) }
            },
        }
    }
}

impl Rejection {
    /// Whether this is the default `item-not-found` rejection.
    pub open spec fn is_default(self) -> bool {
        self.reason is ItemNotFound
    }

    /// The rejection that results when both sides of an `or` failed.
    ///
    /// The default rejection never beats a specific cause; two specific
    /// causes are both kept.
    pub open spec fn combined(self, other: Rejection) -> Rejection {
        match (self.reason, other.reason) {
            (Reason::Other(l), Reason::Other(r)) => Rejection {
                reason: Reason::Other(Box::new(Rejections::Combined(l, r))),
            },
            (Reason::Other(_), Reason::ItemNotFound) => self,
            (Reason::ItemNotFound, _) => other,
        }
    }

    /// The condition that this rejection resolves to.
    pub open spec fn condition(self) -> DefinedCondition {
        match self.reason {
            Reason::ItemNotFound => DefinedCondition::ItemNotFound,
            Reason::Other(r) => r.condition(),
        }
    }

    /// The error that this rejection turns into.
    pub open spec fn error(self) -> ErrorModel {
        match self.reason {
            Reason::ItemNotFound => ErrorModel {
                type_: ErrorType::Cancel,
                condition: DefinedCondition::ItemNotFound,
                lang: "en"@,
                text: "item-not-found"@,
            },
            Reason::Other(r) => r.error(),
        }
    }

    /// The first custom cause named `name`.
    pub open spec fn find_cause(self, name: Seq<char>) -> Option<CustomCause> {
        match self.reason {
            Reason::ItemNotFound => None,
            Reason::Other(r) => r.find_cause(name),
        }
    }

    /// The diagnostic rendering of this rejection.
    pub open spec fn debug_text(self) -> Seq<char> {
        let inner = match self.reason {
            Reason::ItemNotFound => "ItemNotFound"@,
            Reason::Other(r) => match *r {
                Rejections::Combined(..) => "["@ + r.entries_text() + "]"@,
                _ => r.entry_text(),
            },
        };
        "Rejection("@ + inner + ")"@
    }

    /// Combines the rejections of the two sides of an `or`.
    pub fn combine(self, other: Rejection) -> (r: Rejection)
        ensures
            r == self.combined(other),
    {
        let reason = match (self.reason, other.reason) {
            (Reason::Other(left), Reason::Other(right)) => Reason::Other(
                Box::new(Rejections::Combined(left, right)),
            ),
            (Reason::Other(o), Reason::ItemNotFound) => Reason::Other(o),
            (Reason::ItemNotFound, Reason::Other(o)) => Reason::Other(o),
            (Reason::ItemNotFound, Reason::ItemNotFound) => Reason::ItemNotFound,
        };
        Rejection { reason }
    }

    /// Searches the causes for a custom cause named `name`; the first wins.
    pub fn find(&self, name: &str) -> (r: Option<&CustomCause>)
        ensures
            match r {
                Some(c) => self.find_cause(name@) == Some(*c),
                None => self.find_cause(name@) is None,
            },
    {
        match &self.reason {
            Reason::Other(rejections) => rejections.find(name),
            Reason::ItemNotFound => None,
        }
    }

    /// Whether the known condition `k` is among the causes.
    pub fn find_known(&self, k: DefinedCondition) -> (r: bool)
        ensures
            r == match self.reason {
                Reason::ItemNotFound => false,
                Reason::Other(o) => o.holds_known(k),
            },
    {
        match &self.reason {
            Reason::Other(rejections) => rejections.contains_known(k),
            Reason::ItemNotFound => false,
        }
    }

    /// Whether this rejection was made by [`item_not_found`].
    pub fn is_item_not_found(&self) -> (r: bool)
        ensures
            r == self.is_default(),
    {
        match self.reason {
            Reason::ItemNotFound => true,
            _ => false,
        }
    }

    pub fn error_condition(&self) -> (r: DefinedCondition)
        ensures
            r == self.condition(),
    {
        match &self.reason {
            Reason::ItemNotFound => DefinedCondition::ItemNotFound,
            Reason::Other(o) => o.error_condition(),
        }
    }

    /// The stanza error that this rejection turns into.
    pub fn into_stanza_error(&self) -> (r: StanzaError)
        ensures
            r@ == self.error(),
    {
        match &self.reason {
            Reason::ItemNotFound => StanzaError {
                type_: ErrorType::Cancel,
                condition: DefinedCondition::ItemNotFound,
                lang: String::from_str("en"),
                text: String::from_str("item-not-found"),
            },
            Reason::Other(o) => o.into_stanza_error(),
        }
    }

    /// The custom cause that this rejection resolves to, if it resolves to
    /// one; its detail is for local logs.
    pub fn unhandled(&self) -> (r: Option<&CustomCause>)
        ensures
            r is Some <==> resolves_to_custom(*self),
            r matches Some(c) ==> self.reason matches Reason::Other(o) && o.preferred_cause()
                == Rejections::Custom(*c),
    {
        match &self.reason {
            Reason::ItemNotFound => None,
            Reason::Other(o) => match o.preferred() {
                Rejections::Custom(c) => Some(c),
                _ => None,
            },
        }
    }

    /// The diagnostic rendering, such as `Rejection([X(0), X(1)])`.
    pub fn debug_string(&self) -> (r: String)
        ensures
            r@ == self.debug_text(),
    {
        let mut out = String::from_str("Rejection(");
        match &self.reason {
            Reason::ItemNotFound => out.append("ItemNotFound"),
            Reason::Other(o) => match &**o {
                Rejections::Combined(..) => {
                    out.append("[");
                    o.debug_list(&mut out);
                    out.append("]");
                },
                Rejections::Known(k) => out.append(k.variant_name()),
                Rejections::Custom(c) => out.append(c.detail.as_str()),
            },
        }
        out.append(")");
        proof {
            assert(out@ =~= self.debug_text());
        }
        out
    }
}

/// Combining is idempotent on the default rejection, and the default
/// rejection is an identity on either side for any specific rejection.
pub proof fn combine_priority_law(x: Rejection)
    requires
        !x.is_default(),
    ensures
        item_not_found_spec().combined(item_not_found_spec()) == item_not_found_spec(),
        item_not_found_spec().combined(x) == x,
        x.combined(item_not_found_spec()) == x,
{
}

/// Combining yields the default rejection exactly when both sides are the
/// default: rejections that only say "no match" never turn into a specific
/// cause, and a specific cause is never lost.
pub proof fn combine_default_law(a: Rejection, b: Rejection)
    ensures
        a.combined(b).is_default() <==> (a.is_default() && b.is_default()),
        a.combined(b).is_default() ==> a.combined(b).condition() == DefinedCondition::ItemNotFound
            && a.combined(b).error().type_ == ErrorType::Cancel,
{
}

/// Whether a custom cause is what this rejection resolves to: such a cause
/// reaches the peer only as `undefined-condition`, so it is worth logging.
pub open spec fn resolves_to_custom(r: Rejection) -> bool {
    match r.reason {
        Reason::ItemNotFound => false,
        Reason::Other(o) => o.preferred_cause() is Custom,
    }
}

/// The default rejection.
pub open spec fn item_not_found_spec() -> Rejection {
    Rejection { reason: Reason::ItemNotFound }
}

} // verus!
