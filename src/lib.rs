//! wax: composable routing of XMPP stanzas through filters.
//!
//! A [`filter::Filter`] describes a pipeline step; evaluated against a
//! stanza it extracts values or rejects the stanza with a
//! [`reject::Rejection`]. A [`service::FilteredService`] turns the outcome
//! into the stanza to send back: the reply, or the error reply that the
//! rejection resolves to. [`correlation::CorrelationContext`] matches
//! responses to pending requests, and [`server::Standard`] decides what the
//! run loop does with each inbound stanza.
pub mod body;
pub mod correlation;
pub mod filter;
pub mod filters;
pub mod id;
pub mod iq;
pub mod message;
pub mod presence;
pub mod query;
pub mod reject;
pub mod scope;
pub mod server;
pub mod service;
pub mod stanza;
pub mod xmpp;
