//! A verified model of a serialized, priority-aware event bus.
//!
//! The bus accepts units of work ("runs") and executes them strictly one at
//! a time in submission order. An [`event::Event`] fans a single emission out
//! to its subscribers as one run ([`priority::Priority::High`]) or as a
//! sequence of bounded batches ([`priority::Priority::Low`]).
//!
//! The asynchronous execution of runs lives outside this crate; here the
//! dispatch queue is modelled as a state machine whose transitions carry the
//! serialization and ordering guarantees, and `emit` is the planning step
//! that decides exactly which subscriber is invoked in which run.

pub mod bus;
pub mod laws;
pub mod event;
pub mod priority;
