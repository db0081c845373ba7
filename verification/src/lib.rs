//! Core of a small code-execution shell: a resource limiter, a sandboxed-run
//! state machine with bounded output capture, an execution engine that
//! validates input and classifies outcomes, and an append-only history store
//! that suppresses adjacent duplicate submissions.
//!
//! The core works on plain byte strings and is independent of any UI toolkit;
//! a presentation layer drives it through [`shell::TemplateApp`] or
//! [`engine::Engine`].

pub mod bytes;
pub mod engine;
pub mod history;
pub mod limits;
pub mod outcome;
pub mod sandbox;
pub mod shell;
