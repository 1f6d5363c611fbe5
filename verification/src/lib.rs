//! A window-addressed message bridge for a multi-window desktop application.
//!
//! The bridge receives a request naming a destination window and an event,
//! validates it, and resolves it to exactly one delivery action: either a
//! broadcast to every open window or a targeted delivery to one named window.
//! The payload carried along is opaque to the bridge and is never inspected.

pub mod errors;
pub mod json;
pub mod message;
pub mod windows;
pub mod xlsx;
