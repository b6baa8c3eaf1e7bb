//! A client-side network session manager for a tick-driven host loop.
//!
//! The library keeps one outbound connection to a game server: it opens a
//! session from a textual server address and a client identifier, advances
//! the session's reliable-message client once per fixed tick, records
//! transport failures in a sticky error slot, surfaces each failure exactly
//! once as a lost-connection reason, and multiplexes inbound and outbound
//! messages onto a reliable-ordered channel.

pub mod endpoint;
pub mod manager;
pub mod reliable;
