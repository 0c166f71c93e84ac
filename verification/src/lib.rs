//! Decision core of a single-upstream reverse proxy with an idle cutoff.

pub mod clock;
pub mod config;
pub mod forward;
pub mod syntax;
pub mod target;
pub mod timeline;
pub mod watchdog;
