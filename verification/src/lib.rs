//! Load-removal and auto-start logic for MDK2, written as a state machine that
//! performs no I/O itself.
//!
//! The embedding plugin feeds [`controller::State::update`] one event at a time
//! and carries out whatever the returned [`protocol::Reaction`] asks for:
//! timer commands first, then the single follow-up request, whose answer is the
//! next event.  One tick of the host is the chain of steps from
//! [`protocol::Event::Tick`] to the first reaction without a request.

pub mod config;
pub mod watcher;
pub mod resolver;
pub mod protocol;
pub mod controller;
pub mod laws;
