//! A dual-stack TCP ping/pong server, as a verified library of decisions.
//!
//! The library holds what the server decides: how the listening socket is
//! configured, what reply a request earns, and the accept loop as a state
//! machine from (state, event) to (next state, action). Performing the
//! actions (sockets, awaiting, logging) is left to the caller.
pub mod listener;
pub mod protocol;
pub mod server;
