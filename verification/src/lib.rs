//! Window lifecycle and command dispatch for the Kui desktop shell.
//!
//! The crate tracks how many windows are open, hands out window labels,
//! resolves the configuration and launch URL of a new window, and decides
//! what each command sent by the hosted UI asks of the windowing service.
//! It performs no I/O itself: every decision comes back as a plain value
//! that the embedding application carries out.

pub mod dispatch;
pub mod error;
pub mod json;
pub mod menu;
pub mod message;
pub mod operation;
pub mod prefs;
pub mod state;
pub mod text;
pub mod url;
pub mod window;
