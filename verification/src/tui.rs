//! The terminal interface: its state, how keys and events change it, and what
//! is drawn of it.
pub mod app;
pub mod format;
pub mod keys;
pub mod view;
