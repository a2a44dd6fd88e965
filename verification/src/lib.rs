//! The decision logic of a desktop shell that launches a local backend
//! process on a free port, supervises it, relays its output to the user
//! interface and answers a few requests of that interface.
//!
//! Everything here is a function from plain values to plain values: the
//! caller performs the effects that the functions describe (starting a
//! process, publishing an event, sleeping) and hands back what happened.

pub mod commands;
pub mod config;
pub mod decimal;
pub mod messages;
pub mod supervisor;
pub mod trace;
pub mod window;
