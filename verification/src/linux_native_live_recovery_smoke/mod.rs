//! Reopening a native Linux host service over a live container.

pub mod capture;
pub mod prepare;
pub mod report;
pub mod runner;
