//! Decision logic of a uTP (Micro Transport Protocol) socket library: the error types and
//! how they surface to I/O callers, the bookkeeping of the operations a stream keeps in
//! flight between polls, and the choices a listener makes while accepting a connection.

pub mod error;
pub mod pending;
pub mod listener;
pub mod stream;
