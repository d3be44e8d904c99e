//! Core of a menu-bar productivity timer: a calendar event resolver with a
//! permission state machine, and a tolerant, append-only session log store.
//!
//! The calendar side decides, from the provider's authorization state and the
//! outcome of an access request, whether event data may be consulted, and
//! picks the event active at the query instant. The log side replays a
//! newline-delimited record file, skipping malformed lines, filtering by
//! timestamp and sorting the survivors.

pub mod calendar;
pub mod json;
pub mod logs;
pub mod text;
pub mod time;
