//! Orchestration of code-completion requests.
//!
//! The crate decides when completions are asked for, which providers are
//! asked and with what context, how their answers are merged, and whether a
//! merged answer may still be shown once it arrives. The host editor performs
//! the waiting, the transport and the rendering; every decision in between is
//! made here.

pub mod cancel;
pub mod delivery;
pub mod dispatch;
pub mod editor;
pub mod handler;
pub mod hooks;
pub mod merge;
pub mod provider;
pub mod response;
pub mod text;
pub mod trigger;
