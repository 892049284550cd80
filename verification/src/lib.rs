//! Supervision core of a desktop shell that launches one backend worker
//! process, relays its output to the user interface and exposes a small
//! command and tray surface.
//!
//! The crate holds the decisions only. Spawning the worker, awaiting its
//! output channel, printing, emitting to the interface and touching windows
//! are left to the embedding application, which feeds what happened into the
//! types of this crate and carries out what they answer.

pub mod control;
pub mod event;
pub mod launch;
pub mod relay;
pub mod shell;
pub mod supervisor;
