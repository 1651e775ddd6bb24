//! A moderated message relay: text posted to an input channel is copied to a
//! moderation channel, and republished to an output channel once a moderator has
//! marked the copy with the approval symbol.
//!
//! The library decides and never performs. [`handler::handle`] takes an event and
//! answers with a [`step::Step`]: either the event is dealt with, or there is one
//! request for the chat backend. Whoever runs the relay performs the request and
//! calls [`handler::resume`] with the answer, until the handler is done. The startup
//! sequence in [`startup`] works the same way. [`effects`] states what all this does
//! to the three channels. An event fetched for approval is decoded only where
//! [`nesting`] finds it shallow enough.

pub mod approval;
pub mod backend;
pub mod channel;
pub mod config;
pub mod effects;
pub mod error;
pub mod event;
pub mod handler;
pub mod nesting;
pub mod relay;
pub mod router;
pub mod startup;
pub mod step;
