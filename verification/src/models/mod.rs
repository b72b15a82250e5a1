//! Plain data shared by the daemon's parts.
pub mod session;
