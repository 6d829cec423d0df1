//! Simulation core of a client/server submarine game: the wire vocabulary,
//! fixed-step clocks, the server's time-stamped input schedule, and the
//! client's snapshot ordering, time synchronisation and reconciliation rules.

pub mod args;
pub mod client;
pub mod clock;
pub mod protocol;
pub mod reconcile;
pub mod schedule;
pub mod server;
pub mod sync;
