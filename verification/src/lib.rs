//! Core of a minimal terminal-user-interface application: the application
//! state and its event dispatch, the main loop's decisions, the fixed
//! two-panel frame layout, and the terminal lifecycle pairing. All terminal
//! input and output stays outside this crate; the functions here work on
//! plain values and carry proofs of what they do.

pub mod app;
pub mod event;
pub mod lifecycle;
pub mod ui;
