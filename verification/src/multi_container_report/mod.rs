//! Two containers that live beside each other.

pub mod cgroup_path;
pub mod lifecycle;
