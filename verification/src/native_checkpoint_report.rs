//! The report of a checkpoint and restore of a native Linux container.

use vstd::prelude::*;
use crate::model::{CapabilityStatus, HostPlatform};
use crate::text::{chars_of, text_eq};

verus! {

/// The version of the report.
pub const NATIVE_LINUX_CHECKPOINT_SMOKE_SCHEMA_VERSION: &'static str =
    "a3s.oci.native-linux-checkpoint-smoke.v2";

/// One fact that a driver states.
#[derive(Clone, Debug)]
pub struct DriverFact {
    pub key: String,
    pub value: String,
}

/// Whether a driver states a fact under a key.
pub open spec fn states(facts: Seq<DriverFact>, key: Seq<char>) -> bool {
    exists|i: int| 0 <= i < facts.len() && (#[trigger] facts[i]).key@ == key
}

fn has_fact(facts: &Vec<DriverFact>, key: &str) -> (holds: bool)
    ensures
        holds == states(facts@, key@),
{
    let mut next: usize = 0;
    while next < facts.len()
        invariant
            next <= facts@.len(),
            forall|i: int| 0 <= i < next ==> (#[trigger] facts@[i]).key@ != key@,
        decreases facts@.len() - next,
    {
        if text_eq(&facts[next].key, key) {
            assert(facts@[next as int].key@ == key@);
            return true;
        }
        next = next + 1;
    }
    false
}

fn is_filled(size: Option<u64>) -> (holds: bool)
    ensures
        holds == (size is Some && size->0 > 0),
{
    match size {
        Some(size) => size > 0,
        None => false,
    }
}

/// What a checkpoint and restore have shown.
#[derive(Clone, Debug)]
pub struct NativeLinuxCheckpointSmokeReport {
    pub schema_version: String,
    pub platform: HostPlatform,
    pub status: CapabilityStatus,
    pub source_revision: String,
    pub checkpoint_advertised: bool,
    pub restore_advertised: bool,
    pub driver_evidence: Vec<DriverFact>,
    pub lifecycle_started: bool,
    pub paused_source_observed: bool,
    pub preexisting_destination_rejected: bool,
    pub preexisting_destination_preserved: bool,
    pub driver_after_call_fault_injected: bool,
    pub artifact_published_before_host_commit: bool,
    pub driver_replay_completed_host_commit: bool,
    pub host_replay_exact: bool,
    pub artifact_digest_verified: bool,
    pub artifact_digest: Option<String>,
    pub artifact_size_bytes: Option<u64>,
    pub artifact_bytes_unchanged_across_replay: bool,
    pub source_remained_paused: bool,
    pub source_resume_succeeded: bool,
    pub artifact_survived_source_delete: bool,
    pub restore_after_call_fault_injected: bool,
    pub driver_restore_replay_completed_host_commit: bool,
    pub restore_host_replay_exact: bool,
    pub restored_generation_newer: bool,
    pub restored_running_paused: bool,
    pub restored_state_exact: bool,
    pub restored_resume_succeeded: bool,
    pub restored_exit_status_exact: bool,
    pub artifact_bytes_unchanged_across_restore: bool,
    pub artifact_survived_restored_delete: bool,
    pub driver_journal_acknowledged: bool,
    pub unpublished_partials_absent: bool,
    pub executor_runtime_clean: bool,
    pub session_root_clean: bool,
    pub reason: Option<String>,
}

impl NativeLinuxCheckpointSmokeReport {
    /// Whether nothing was tried on a host.
    pub open spec fn claims_nothing(self, platform: HostPlatform, source_revision: String) -> bool {
        &&& self.schema_version@ == NATIVE_LINUX_CHECKPOINT_SMOKE_SCHEMA_VERSION@
        &&& self.platform == platform
        &&& self.source_revision == source_revision
        &&& !self.checkpoint_advertised
        &&& !self.restore_advertised
        &&& self.driver_evidence@.len() == 0
        &&& !self.lifecycle_started
        &&& !self.paused_source_observed
        &&& !self.preexisting_destination_rejected
        &&& !self.preexisting_destination_preserved
        &&& !self.driver_after_call_fault_injected
        &&& !self.artifact_published_before_host_commit
        &&& !self.driver_replay_completed_host_commit
        &&& !self.host_replay_exact
        &&& !self.artifact_digest_verified
        &&& self.artifact_digest is None
        &&& self.artifact_size_bytes is None
        &&& !self.artifact_bytes_unchanged_across_replay
        &&& !self.source_remained_paused
        &&& !self.source_resume_succeeded
        &&& !self.artifact_survived_source_delete
        &&& !self.restore_after_call_fault_injected
        &&& !self.driver_restore_replay_completed_host_commit
        &&& !self.restore_host_replay_exact
        &&& !self.restored_generation_newer
        &&& !self.restored_running_paused
        &&& !self.restored_state_exact
        &&& !self.restored_resume_succeeded
        &&& !self.restored_exit_status_exact
        &&& !self.artifact_bytes_unchanged_across_restore
        &&& !self.artifact_survived_restored_delete
        &&& !self.driver_journal_acknowledged
        &&& !self.unpublished_partials_absent
        &&& !self.executor_runtime_clean
        &&& !self.session_root_clean
    }

    /// Whether everything was shown that a checkpoint and its restore have to show.
    pub open spec fn succeeds(self) -> bool {
        &&& self.schema_version@ == NATIVE_LINUX_CHECKPOINT_SMOKE_SCHEMA_VERSION@
        &&& self.platform is Linux
        &&& self.status is Available
        &&& self.source_revision@.len() > 0
        &&& self.checkpoint_advertised
        &&& self.restore_advertised
        &&& states(self.driver_evidence@, "checkpoint_criu_digest"@)
        &&& states(self.driver_evidence@, "checkpoint_driver_build_digest"@)
        &&& self.lifecycle_started
        &&& self.paused_source_observed
        &&& self.preexisting_destination_rejected
        &&& self.preexisting_destination_preserved
        &&& self.driver_after_call_fault_injected
        &&& self.artifact_published_before_host_commit
        &&& self.driver_replay_completed_host_commit
        &&& self.host_replay_exact
        &&& self.artifact_digest_verified
        &&& self.artifact_digest is Some
        &&& self.artifact_size_bytes is Some && self.artifact_size_bytes->0 > 0
        &&& self.artifact_bytes_unchanged_across_replay
        &&& self.source_remained_paused
        &&& self.source_resume_succeeded
        &&& self.artifact_survived_source_delete
        &&& self.restore_after_call_fault_injected
        &&& self.driver_restore_replay_completed_host_commit
        &&& self.restore_host_replay_exact
        &&& self.restored_generation_newer
        &&& self.restored_running_paused
        &&& self.restored_state_exact
        &&& self.restored_resume_succeeded
        &&& self.restored_exit_status_exact
        &&& self.artifact_bytes_unchanged_across_restore
        &&& self.artifact_survived_restored_delete
        &&& self.driver_journal_acknowledged
        &&& self.unpublished_partials_absent
        &&& self.executor_runtime_clean
        &&& self.session_root_clean
        &&& self.reason is None
    }

    /// Whether the report is that of a success.
    pub fn is_success(&self) -> (holds: bool)
        ensures
            holds == self.succeeds(),
    {
        let first = text_eq(&self.schema_version, NATIVE_LINUX_CHECKPOINT_SMOKE_SCHEMA_VERSION)
            && self.platform == HostPlatform::Linux
            && self.status == CapabilityStatus::Available
            && chars_of(&self.source_revision).len() > 0 && self.checkpoint_advertised
            && self.restore_advertised
            && has_fact(&self.driver_evidence, "checkpoint_criu_digest")
            && has_fact(&self.driver_evidence, "checkpoint_driver_build_digest")
            && self.lifecycle_started && self.paused_source_observed
            && self.preexisting_destination_rejected
            && self.preexisting_destination_preserved
            && self.driver_after_call_fault_injected
            && self.artifact_published_before_host_commit;
        let second = self.driver_replay_completed_host_commit && self.host_replay_exact
            && self.artifact_digest_verified && self.artifact_digest.is_some()
            && is_filled(self.artifact_size_bytes)
            && self.artifact_bytes_unchanged_across_replay && self.source_remained_paused
            && self.source_resume_succeeded && self.artifact_survived_source_delete
            && self.restore_after_call_fault_injected
            && self.driver_restore_replay_completed_host_commit
            && self.restore_host_replay_exact && self.restored_generation_newer;
        let third = self.restored_running_paused && self.restored_state_exact
            && self.restored_resume_succeeded && self.restored_exit_status_exact
            && self.artifact_bytes_unchanged_across_restore
            && self.artifact_survived_restored_delete && self.driver_journal_acknowledged
            && self.unpublished_partials_absent && self.executor_runtime_clean
            && self.session_root_clean && self.reason.is_none();
        first && second && third
    }
}

impl NativeLinuxCheckpointSmokeReport {
    /// A report before anything was tried.
    pub fn initial(platform: HostPlatform, source_revision: String) -> (report:
        NativeLinuxCheckpointSmokeReport)
        ensures
            report.claims_nothing(platform, source_revision),
            report.status is Unavailable,
            report.reason is None,
            !report.succeeds(),
    {
        NativeLinuxCheckpointSmokeReport {
            schema_version: NATIVE_LINUX_CHECKPOINT_SMOKE_SCHEMA_VERSION.to_owned(),
            platform,
            status: CapabilityStatus::Unavailable,
            source_revision,
            checkpoint_advertised: false,
            restore_advertised: false,
            driver_evidence: Vec::new(),
            lifecycle_started: false,
            paused_source_observed: false,
            preexisting_destination_rejected: false,
            preexisting_destination_preserved: false,
            driver_after_call_fault_injected: false,
            artifact_published_before_host_commit: false,
            driver_replay_completed_host_commit: false,
            host_replay_exact: false,
            artifact_digest_verified: false,
            artifact_digest: None,
            artifact_size_bytes: None,
            artifact_bytes_unchanged_across_replay: false,
            source_remained_paused: false,
            source_resume_succeeded: false,
            artifact_survived_source_delete: false,
            restore_after_call_fault_injected: false,
            driver_restore_replay_completed_host_commit: false,
            restore_host_replay_exact: false,
            restored_generation_newer: false,
            restored_running_paused: false,
            restored_state_exact: false,
            restored_resume_succeeded: false,
            restored_exit_status_exact: false,
            artifact_bytes_unchanged_across_restore: false,
            artifact_survived_restored_delete: false,
            driver_journal_acknowledged: false,
            unpublished_partials_absent: false,
            executor_runtime_clean: false,
            session_root_clean: false,
            reason: None,
        }
    }

    /// The report of a host that is no Linux host.
    pub fn unsupported(platform: HostPlatform, source_revision: String) -> (report:
        NativeLinuxCheckpointSmokeReport)
        ensures
            report.claims_nothing(platform, source_revision),
            report.status is Unsupported,
            report.reason is Some,
            report.reason->0@ == "native CRIU checkpoint qualification requires Linux"@,
            !report.succeeds(),
    {
        NativeLinuxCheckpointSmokeReport {
            status: CapabilityStatus::Unsupported,
            reason: Some("native CRIU checkpoint qualification requires Linux".to_owned()),
            ..NativeLinuxCheckpointSmokeReport::initial(platform, source_revision)
        }
    }
}

/// A checkpoint qualification succeeds only where each of its gates was met.
pub proof fn checkpoint_success_needs_every_gate(report: NativeLinuxCheckpointSmokeReport)
    requires
        report.succeeds(),
    ensures
        report.schema_version@ == NATIVE_LINUX_CHECKPOINT_SMOKE_SCHEMA_VERSION@,
        report.platform is Linux,
        report.status is Available,
        report.source_revision@.len() > 0,
        report.checkpoint_advertised,
        report.restore_advertised,
        states(report.driver_evidence@, "checkpoint_criu_digest"@),
        states(report.driver_evidence@, "checkpoint_driver_build_digest"@),
        report.lifecycle_started,
        report.paused_source_observed,
        report.preexisting_destination_rejected,
        report.preexisting_destination_preserved,
        report.driver_after_call_fault_injected,
        report.artifact_published_before_host_commit,
        report.driver_replay_completed_host_commit,
        report.host_replay_exact,
        report.artifact_digest_verified,
        report.artifact_digest is Some,
        report.artifact_size_bytes is Some,
        report.artifact_size_bytes->0 > 0,
        report.artifact_bytes_unchanged_across_replay,
        report.source_remained_paused,
        report.source_resume_succeeded,
        report.artifact_survived_source_delete,
        report.restore_after_call_fault_injected,
        report.driver_restore_replay_completed_host_commit,
        report.restore_host_replay_exact,
        report.restored_generation_newer,
        report.restored_running_paused,
        report.restored_state_exact,
        report.restored_resume_succeeded,
        report.restored_exit_status_exact,
        report.artifact_bytes_unchanged_across_restore,
        report.artifact_survived_restored_delete,
        report.driver_journal_acknowledged,
        report.unpublished_partials_absent,
        report.executor_runtime_clean,
        report.session_root_clean,
        report.reason is None,
{
}

/// Nothing but these is asked for.
pub proof fn checkpoint_gates_suffice(report: NativeLinuxCheckpointSmokeReport)
    requires
        report.schema_version@ == NATIVE_LINUX_CHECKPOINT_SMOKE_SCHEMA_VERSION@,
        report.platform is Linux,
        report.status is Available,
        report.source_revision@.len() > 0,
        report.checkpoint_advertised,
        report.restore_advertised,
        states(report.driver_evidence@, "checkpoint_criu_digest"@),
        states(report.driver_evidence@, "checkpoint_driver_build_digest"@),
        report.lifecycle_started,
        report.paused_source_observed,
        report.preexisting_destination_rejected,
        report.preexisting_destination_preserved,
        report.driver_after_call_fault_injected,
        report.artifact_published_before_host_commit,
        report.driver_replay_completed_host_commit,
        report.host_replay_exact,
        report.artifact_digest_verified,
        report.artifact_digest is Some,
        report.artifact_size_bytes is Some,
        report.artifact_size_bytes->0 > 0,
        report.artifact_bytes_unchanged_across_replay,
        report.source_remained_paused,
        report.source_resume_succeeded,
        report.artifact_survived_source_delete,
        report.restore_after_call_fault_injected,
        report.driver_restore_replay_completed_host_commit,
        report.restore_host_replay_exact,
        report.restored_generation_newer,
        report.restored_running_paused,
        report.restored_state_exact,
        report.restored_resume_succeeded,
        report.restored_exit_status_exact,
        report.artifact_bytes_unchanged_across_restore,
        report.artifact_survived_restored_delete,
        report.driver_journal_acknowledged,
        report.unpublished_partials_absent,
        report.executor_runtime_clean,
        report.session_root_clean,
        report.reason is None,
    ensures
        report.succeeds(),
{
}

/// Before anything was tried nothing is claimed: each thing that is to be shown is not
/// shown yet.
pub proof fn fresh_reports_claim_nothing(
    fresh: NativeLinuxCheckpointSmokeReport,
    platform: HostPlatform,
    source_revision: String,
)
    requires
        fresh.claims_nothing(platform, source_revision),
    ensures
        fresh.schema_version@ == NATIVE_LINUX_CHECKPOINT_SMOKE_SCHEMA_VERSION@,
        fresh.platform == platform,
        fresh.source_revision == source_revision,
        !fresh.checkpoint_advertised,
        !fresh.restore_advertised,
        fresh.driver_evidence@.len() == 0,
        !fresh.lifecycle_started,
        !fresh.paused_source_observed,
        !fresh.preexisting_destination_rejected,
        !fresh.preexisting_destination_preserved,
        !fresh.driver_after_call_fault_injected,
        !fresh.artifact_published_before_host_commit,
        !fresh.driver_replay_completed_host_commit,
        !fresh.host_replay_exact,
        !fresh.artifact_digest_verified,
        fresh.artifact_digest is None,
        fresh.artifact_size_bytes is None,
        !fresh.artifact_bytes_unchanged_across_replay,
        !fresh.source_remained_paused,
        !fresh.source_resume_succeeded,
        !fresh.artifact_survived_source_delete,
        !fresh.restore_after_call_fault_injected,
        !fresh.driver_restore_replay_completed_host_commit,
        !fresh.restore_host_replay_exact,
        !fresh.restored_generation_newer,
        !fresh.restored_running_paused,
        !fresh.restored_state_exact,
        !fresh.restored_resume_succeeded,
        !fresh.restored_exit_status_exact,
        !fresh.artifact_bytes_unchanged_across_restore,
        !fresh.artifact_survived_restored_delete,
        !fresh.driver_journal_acknowledged,
        !fresh.unpublished_partials_absent,
        !fresh.executor_runtime_clean,
        !fresh.session_root_clean,
{
}

} // verus!
