//! Verified core of an OCI runtime: checkpoint artifacts and journals,
//! recovery decisions, host-service configuration and qualification reports.

pub mod digest;
pub mod error;
pub mod json;
pub mod linux_kvm_recovery_smoke;
pub mod linux_native_live_recovery_smoke;
pub mod macos_hvf_host_smoke;
pub mod marker;
pub mod model;
pub mod multi_container_report;
pub mod namespace_join;
pub mod native_checkpoint;
pub mod native_checkpoint_report;
pub mod native_control;
pub mod native_hook_recovery_smoke;
pub mod native_linux_driver;
pub mod native_network_enforcement_report;
pub mod native_recovery_smoke;
pub mod operations;
pub mod path;
pub mod process;
pub mod service;
pub mod text;
pub mod text_map;
