//! Verified core of the Codex usage-limit monitor: turning what the Codex
//! app-server and the reset-credits endpoint report into the figures the menu
//! bar shows, and deciding when to refresh them.

mod clock;
pub mod fetch;
pub mod laws;
pub mod limits;
pub mod reset_credits;
pub mod schedule;
pub mod sorting;
pub mod tray;
