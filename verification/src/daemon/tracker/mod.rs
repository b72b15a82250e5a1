//! The activity tracker.
pub mod idle_laws;
pub mod idle_run_laws;
pub mod idle_wayland;
