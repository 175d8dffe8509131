//! Core of a single-room broadcast chat service: the shared registries of
//! active addresses and names, the broadcast point that relays chat text,
//! the guard that releases an address, and the per-connection session
//! state machine.

pub mod disconnect;
pub mod session;
pub mod state;
pub mod text;
