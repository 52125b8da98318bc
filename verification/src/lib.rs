//! A host for sndio audio devices: the decisions behind enumerating the
//! default device, negotiating its parameters, building streams on it and
//! taking them down again.
//!
//! The library performs no I/O. Where the device, the runner thread or a
//! user's callback has to act, a function returns what is to be done, and a
//! later call takes what came of it.

pub mod callbacks;
pub mod config;
pub mod decimal;
pub mod device;
pub mod error;
pub mod host;
pub mod negotiation;
pub mod par;
pub mod rounding;
pub mod state;
pub mod stream;
