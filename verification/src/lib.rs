//! The pipeline of a terminal-driven remote-control sender, from key events
//! to the commands that are sent.
//!
//! Key events are resolved to command tokens by the [`translator`], handed
//! over through the [`queue`], and taken out again by the [`dispatcher`],
//! which decides at each poll whether a token is to be sent, or whether the
//! session has come to a graceful or a hard stop. The module [`session`]
//! states what holds of the queue and the dispatcher together, over every
//! interleaving of appends and polls.

pub mod dispatcher;
pub mod endpoint;
pub mod error;
pub mod key;
pub mod queue;
pub mod session;
pub mod token;
pub mod translator;
