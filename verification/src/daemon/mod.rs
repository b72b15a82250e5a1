//! The daemon: the session store and the activity tracker.
pub mod database;
pub mod tracker;
