//! Qualification of Linux KVM host services: recovery after the owner's death,
//! and long series of generations under one service.

pub mod prepare;
pub mod qualification;
pub mod report;
pub mod runner;
pub mod soak_report;
pub mod soak_runner;
