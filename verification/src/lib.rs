//! Core of a live style-reload mechanism: every edit of a stylesheet is
//! speculatively activated against a running style engine, and a failed
//! activation rolls the engine back to the most recent text that is known to
//! have activated successfully, while the user's in-progress edit stays
//! untouched in the text surface.

pub mod controller;
pub mod model;
pub mod store;
