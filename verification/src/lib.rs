//! The engine of a platform run that Petri executes.
//!
//! A run is put together from a request ([`plan`]) and then taken from its
//! beginning to its result one step at a time ([`engine`]): the state of the
//! run says what is to be done next, the caller does it against the store,
//! the host and the hooks, and hands back what came of it. What the run
//! returns is derived from its durable record ([`record`], [`error`]), so that
//! what the caller reports ([`conclusion`]) is what the record says. What
//! holds of every run is stated in [`laws`].

pub mod conclusion;
pub mod engine;
pub mod error;
pub mod laws;
pub mod plan;
pub mod provider;
pub mod receipt;
pub mod record;
pub mod text;
