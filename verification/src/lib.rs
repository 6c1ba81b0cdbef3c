//! View-state synchronization core for a code-highlighting workbench.
//!
//! A user pastes source code, picks a language, and the page renders a
//! highlighted preview by delegating to an external highlighting routine.
//! This crate holds the verified core: the language catalog, the
//! message-driven state machine, the persisted-preference codec, and the
//! DOM hand-off protocol that re-invokes the highlighter exactly once per
//! relevant state change without leaking duplicate output nodes.

pub mod language;
pub mod state;
pub mod store;
pub mod handoff;
pub mod view;
