//! IQ filters that can be narrowed to one request type.
use vstd::prelude::*;

use crate::filter::Filter;

verus! {

/// The states of an IQ query.
pub trait Iq {}

/// Any IQ; can still be narrowed.
#[derive(Clone, Copy, Debug)]
pub struct IqAny;

/// Narrowed to `get` requests.
#[derive(Clone, Copy, Debug)]
pub struct IqGetOnly;

/// Narrowed to `set` requests.
#[derive(Clone, Copy, Debug)]
pub struct IqSetOnly;

impl Iq for IqAny {}

impl Iq for IqGetOnly {}

impl Iq for IqSetOnly {}

/// An IQ filter in state `S`.
#[derive(Debug)]
pub struct Query<S> {
    pub filter: Filter,
    pub state: S,
}

impl Query<IqAny> {
    /// Narrows to IQ requests of type `get`.
    pub fn get(self) -> (r: Query<IqGetOnly>)
        ensures
            r.filter == Filter::And(Box::new(self.filter), Box::new(Filter::IqGet)),
    {
        Query { filter: self.filter.and(Filter::IqGet), state: IqGetOnly }
    }

    /// Narrows to IQ requests of type `set`.
    pub fn set(self) -> (r: Query<IqSetOnly>)
        ensures
            r.filter == Filter::And(Box::new(self.filter), Box::new(Filter::IqSet)),
    {
        Query { filter: self.filter.and(Filter::IqSet), state: IqSetOnly }
    }
}

impl<S: Iq> Query<S> {
    /// Also extracts the optional sender address.
    pub fn from(self) -> (r: Query<S>)
        ensures
            r.filter == Filter::And(Box::new(self.filter), Box::new(Filter::From)),
    {
        Query { filter: self.filter.and(Filter::From), state: self.state }
    }

    /// Also extracts the optional recipient address.
    pub fn to(self) -> (r: Query<S>)
        ensures
            r.filter == Filter::And(Box::new(self.filter), Box::new(Filter::To)),
    {
        Query { filter: self.filter.and(Filter::To), state: self.state }
    }

    /// Also extracts the sender address, rejecting when it is absent.
    pub fn require_from(self) -> (r: Query<S>)
        ensures
            r.filter == Filter::And(Box::new(self.filter), Box::new(Filter::RequireFrom)),
    {
        Query { filter: self.filter.and(Filter::RequireFrom), state: self.state }
    }

    /// Also extracts the recipient address, rejecting when it is absent.
    pub fn require_to(self) -> (r: Query<S>)
        ensures
            r.filter == Filter::And(Box::new(self.filter), Box::new(Filter::RequireTo)),
    {
        Query { filter: self.filter.and(Filter::RequireTo), state: self.state }
    }

    /// The filter this query stands for.
    pub fn into_filter(self) -> (r: Filter)
        ensures
            r == self.filter,
    {
        self.filter
    }
}

} // verus!
