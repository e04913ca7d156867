//! Qualification of the public macOS HVF host service.

pub mod bundle;
pub mod calls;
pub mod cleanup;
pub mod lifecycle;
pub mod owner_death;
pub mod report;
pub mod runner;
pub mod series;
pub mod soak;
