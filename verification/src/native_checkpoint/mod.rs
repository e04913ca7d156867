//! Checkpoint and restore of native Linux containers with CRIU.

pub mod artifact;
pub mod draw;
pub mod fingerprint;
pub mod framing;
pub mod journal;
pub mod operation;
pub mod publication;
pub mod restore;
pub mod restore_journal;
pub mod source;
pub mod state;
pub mod tool;
