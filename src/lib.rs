//! Keyboard, mouse and clipboard control behind a stable, error-code based
//! interface: symbolic vocabularies, their translation onto the input
//! backend's vocabulary for a given platform, per-thread device slots, and the
//! decisions that each exported operation makes around a device access.

pub mod error;
pub mod platform;
pub mod native;
pub mod symbols;
pub mod session;
pub mod ops;
