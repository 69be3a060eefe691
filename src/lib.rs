//! The core of a remote query agent: the JSON envelopes it exchanges with its
//! control server, the choice of what to run for each command, the event loop
//! of one connection as a state machine, and the reconnecting supervisor.
pub mod json;
pub mod query;
pub mod message;
pub mod session;
pub mod supervisor;
