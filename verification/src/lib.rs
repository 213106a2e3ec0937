//! Decoding of telemetry packets broadcast by the modern F1 games.
//!
//! The games publish telemetry over UDP, one packet per datagram. Every packet
//! starts with a fixed header that names the API specification it adheres to,
//! the kind of data it carries, and the session it belongs to. This crate
//! takes a buffer of accumulated bytes, checks that a complete packet has
//! arrived, decodes the header, and dispatches to the decoder for the
//! specification and packet kind at hand.

pub mod cursor;
pub mod error;
pub mod nineteen;
pub mod packet;
pub mod types;
