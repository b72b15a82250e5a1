//! The decision core of a desktop time tracker's daemon.
//!
//! `daemon::database` plans every exchange with the PostgreSQL store: which
//! statement to send, with which parameters, and what each answer leads to.
//! `daemon::tracker` does the same for the Wayland idle notifier.  Nothing in
//! this crate performs I/O: each long-running exchange is a state machine that
//! names the next action and is handed the outcome.
pub mod daemon;
pub mod models;
