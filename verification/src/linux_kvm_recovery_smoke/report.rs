//! Evidence that a Linux KVM container is recovered after its owner was killed.

use vstd::prelude::*;
use crate::digest::{
    canonical_git_revision, canonical_optional_digest, canonical_sha256, canonical_sha256_digest,
    is_git_revision, is_sha256, is_sha256_digest,
};
use crate::model::{
    is_killed, killed_status, CapabilityStatus, ContainerTarget, ExitStatus, HostPlatform,
};
use crate::path::{absolute, is_absolute};
use crate::process::{LinuxProcessIdentity, LinuxProcessView};
use crate::text::text_eq;

verus! {

/// The schema of recovery reports.
pub const LINUX_KVM_RECOVERY_SMOKE_SCHEMA_VERSION: &'static str =
    "a3s.oci.linux-kvm-recovery-smoke.v1";

/// What an optional identity names.
pub open spec fn identity_view(identity: Option<LinuxProcessIdentity>) -> Option<
    LinuxProcessView,
> {
    match identity {
        Some(identity) => Some(identity@),
        None => None,
    }
}

/// Whether two optional identities are the same.
pub fn same_identity(
    left: &Option<LinuxProcessIdentity>,
    right: &Option<LinuxProcessIdentity>,
) -> (same: bool)
    ensures
        same == (identity_view(*left) == identity_view(*right)),
{
    match (left, right) {
        (Some(a), Some(b)) => a.same(b),
        (None, None) => true,
        _ => false,
    }
}

/// An architecture that KVM qualifications are made on.
pub open spec fn known_architecture(architecture: Seq<char>) -> bool {
    architecture == "x86_64"@ || architecture == "aarch64"@
}

/// Whether KVM qualifications are made on an architecture.
pub fn is_known_architecture(architecture: &str) -> (known: bool)
    ensures
        known == known_architecture(architecture@),
{
    text_eq(architecture, "x86_64") || text_eq(architecture, "aarch64")
}

/// The inputs that a qualification was made with.
#[derive(Clone, Debug)]
pub struct LinuxKvmRecoveryArtifacts {
    pub host_service_executable: String,
    pub host_service_executable_sha256: String,
    pub shim: String,
    pub shim_sha256: String,
    pub system_image_manifest: String,
    pub system_image_manifest_sha256: String,
    pub source_bundle: String,
    pub source_bundle_config_digest: String,
    pub source_revision: String,
}

impl Default for LinuxKvmRecoveryArtifacts {
    fn default() -> (artifacts: LinuxKvmRecoveryArtifacts)
        ensures
            artifacts.blank(),
    {
        LinuxKvmRecoveryArtifacts {
            host_service_executable: String::new(),
            host_service_executable_sha256: String::new(),
            shim: String::new(),
            shim_sha256: String::new(),
            system_image_manifest: String::new(),
            system_image_manifest_sha256: String::new(),
            source_bundle: String::new(),
            source_bundle_config_digest: String::new(),
            source_revision: String::new(),
        }
    }
}

impl LinuxKvmRecoveryArtifacts {
    /// Whether nothing is said of any input.
    pub open spec fn blank(self) -> bool {
        &&& self.host_service_executable@ == Seq::<char>::empty()
        &&& self.host_service_executable_sha256@ == Seq::<char>::empty()
        &&& self.shim@ == Seq::<char>::empty()
        &&& self.shim_sha256@ == Seq::<char>::empty()
        &&& self.system_image_manifest@ == Seq::<char>::empty()
        &&& self.system_image_manifest_sha256@ == Seq::<char>::empty()
        &&& self.source_bundle@ == Seq::<char>::empty()
        &&& self.source_bundle_config_digest@ == Seq::<char>::empty()
        &&& self.source_revision@ == Seq::<char>::empty()
    }

    /// Whether each input has an absolute path and a canonical digest, and the
    /// source a full revision.
    pub open spec fn complete(self) -> bool {
        &&& absolute(self.host_service_executable@)
        &&& absolute(self.shim@)
        &&& absolute(self.system_image_manifest@)
        &&& absolute(self.source_bundle@)
        &&& is_sha256(self.host_service_executable_sha256@)
        &&& is_sha256(self.shim_sha256@)
        &&& is_sha256(self.system_image_manifest_sha256@)
        &&& is_sha256_digest(self.source_bundle_config_digest@)
        &&& is_git_revision(self.source_revision@)
    }

    /// Whether the inputs are complete.
    pub fn is_complete(&self) -> (holds: bool)
        ensures
            holds == self.complete(),
    {
        is_absolute(&self.host_service_executable) && is_absolute(&self.shim) && is_absolute(
            &self.system_image_manifest,
        ) && is_absolute(&self.source_bundle) && canonical_sha256(
            &self.host_service_executable_sha256,
        ) && canonical_sha256(&self.shim_sha256) && canonical_sha256(
            &self.system_image_manifest_sha256,
        ) && canonical_sha256_digest(&self.source_bundle_config_digest) && canonical_git_revision(
            &self.source_revision,
        )
    }
}

/// What a recovery qualification has shown.
#[derive(Clone, Debug)]
pub struct LinuxKvmRecoveryEvidence {
    pub qualification_scope_verified: bool,
    pub first_host_service: Option<LinuxProcessIdentity>,
    pub first_socket_peer: Option<LinuxProcessIdentity>,
    pub target: Option<ContainerTarget>,
    pub created_config_digest: Option<String>,
    pub create_replayed: bool,
    pub start_returned_running: bool,
    pub init_marker_verified: bool,
    pub live_vm_processes: Vec<LinuxProcessIdentity>,
    pub authenticated_endpoint_consumed: bool,
    pub host_service_sigkill_delivered: bool,
    pub first_host_service_reaped: bool,
    pub stale_socket_retained: bool,
    pub live_vm_processes_reaped: bool,
    pub endpoint_inventory_restored: bool,
    pub authenticated_recovery_report_retained: bool,
    pub replacement_host_service: Option<LinuxProcessIdentity>,
    pub replacement_socket_peer: Option<LinuxProcessIdentity>,
    pub replacement_socket_new_owner: bool,
    pub replacement_connected: bool,
    pub exact_stopped_state_recovered: bool,
    pub process_inventory_empty: bool,
    pub recovered_wait_status: Option<ExitStatus>,
    pub recovered_wait_replayed: bool,
    pub stopped_delete_succeeded: bool,
    pub durable_state_removed: bool,
    pub replacement_descriptor_inventory_restored: bool,
    pub open_descriptors_before: Option<u32>,
    pub open_descriptors_after: Option<u32>,
    pub bundle_handoffs_clean: bool,
    pub runtime_shares_clean: bool,
    pub recovery_reports_clean: bool,
    pub console_files_retained: u32,
    pub replacement_socket_removed: bool,
    pub replacement_exit_success: bool,
    pub service_restart_recovered: bool,
    pub reason: Option<String>,
}

impl LinuxKvmRecoveryEvidence {
    /// Evidence of nothing.
    pub open spec fn shows_nothing(self) -> bool {
        &&& !self.qualification_scope_verified
        &&& self.first_host_service is None
        &&& self.first_socket_peer is None
        &&& self.target is None
        &&& self.created_config_digest is None
        &&& !self.create_replayed
        &&& !self.start_returned_running
        &&& !self.init_marker_verified
        &&& self.live_vm_processes@.len() == 0
        &&& !self.authenticated_endpoint_consumed
        &&& !self.host_service_sigkill_delivered
        &&& !self.first_host_service_reaped
        &&& !self.stale_socket_retained
        &&& !self.live_vm_processes_reaped
        &&& !self.endpoint_inventory_restored
        &&& !self.authenticated_recovery_report_retained
        &&& self.replacement_host_service is None
        &&& self.replacement_socket_peer is None
        &&& !self.replacement_socket_new_owner
        &&& !self.replacement_connected
        &&& !self.exact_stopped_state_recovered
        &&& !self.process_inventory_empty
        &&& self.recovered_wait_status is None
        &&& !self.recovered_wait_replayed
        &&& !self.stopped_delete_succeeded
        &&& !self.durable_state_removed
        &&& !self.replacement_descriptor_inventory_restored
        &&& self.open_descriptors_before is None
        &&& self.open_descriptors_after is None
        &&& !self.bundle_handoffs_clean
        &&& !self.runtime_shares_clean
        &&& !self.recovery_reports_clean
        &&& self.console_files_retained == 0
        &&& !self.replacement_socket_removed
        &&& !self.replacement_exit_success
        &&& !self.service_restart_recovered
        &&& self.reason is None
    }

    /// What the first owner has shown until it was killed.
    pub open spec fn first_owner_shown(self) -> bool {
        &&& self.qualification_scope_verified
        &&& self.first_host_service is Some
        &&& identity_view(self.first_socket_peer) == identity_view(self.first_host_service)
        &&& self.target is Some
        &&& self.created_config_digest is Some
        &&& is_sha256_digest(self.created_config_digest->0@)
        &&& self.create_replayed
        &&& self.start_returned_running
        &&& self.init_marker_verified
        &&& self.live_vm_processes@.len() >= 2
        &&& self.authenticated_endpoint_consumed
        &&& self.host_service_sigkill_delivered
        &&& self.first_host_service_reaped
        &&& self.stale_socket_retained
        &&& self.live_vm_processes_reaped
        &&& self.endpoint_inventory_restored
        &&& self.authenticated_recovery_report_retained
    }

    /// What the owner that replaced it has shown.
    pub open spec fn replacement_shown(self) -> bool {
        &&& self.replacement_host_service is Some
        &&& identity_view(self.replacement_socket_peer) == identity_view(
            self.replacement_host_service,
        )
        &&& identity_view(self.first_socket_peer) != identity_view(self.replacement_socket_peer)
        &&& self.replacement_socket_new_owner
        &&& self.replacement_connected
        &&& self.exact_stopped_state_recovered
        &&& self.process_inventory_empty
        &&& self.recovered_wait_status == Some(killed_status())
        &&& self.recovered_wait_replayed
        &&& self.stopped_delete_succeeded
        &&& self.durable_state_removed
        &&& self.replacement_descriptor_inventory_restored
        &&& self.open_descriptors_before == self.open_descriptors_after
        &&& self.bundle_handoffs_clean
        &&& self.runtime_shares_clean
        &&& self.recovery_reports_clean
        &&& self.console_files_retained >= 1
        &&& self.replacement_socket_removed
        &&& self.replacement_exit_success
        &&& self.service_restart_recovered
    }

    /// Whether both owners have shown all that recovery needs, and nothing went
    /// wrong.
    pub open spec fn succeeds(self) -> bool {
        self.first_owner_shown() && self.replacement_shown() && self.reason is None
    }

    /// Whether the evidence is that of a successful recovery.
    pub fn is_success(&self) -> (holds: bool)
        ensures
            holds == self.succeeds(),
    {
        let first = self.qualification_scope_verified && self.first_host_service.is_some()
            && same_identity(&self.first_socket_peer, &self.first_host_service)
            && self.target.is_some() && canonical_optional_digest(&self.created_config_digest)
            && self.create_replayed && self.start_returned_running && self.init_marker_verified
            && self.live_vm_processes.len() >= 2 && self.authenticated_endpoint_consumed
            && self.host_service_sigkill_delivered && self.first_host_service_reaped
            && self.stale_socket_retained && self.live_vm_processes_reaped
            && self.endpoint_inventory_restored && self.authenticated_recovery_report_retained;
        let replacement = self.replacement_host_service.is_some() && same_identity(
            &self.replacement_socket_peer,
            &self.replacement_host_service,
        ) && !same_identity(&self.first_socket_peer, &self.replacement_socket_peer)
            && self.replacement_socket_new_owner && self.replacement_connected
            && self.exact_stopped_state_recovered && self.process_inventory_empty && is_killed(
            &self.recovered_wait_status,
        ) && self.recovered_wait_replayed && self.stopped_delete_succeeded
            && self.durable_state_removed && self.replacement_descriptor_inventory_restored
            && self.open_descriptors_before == self.open_descriptors_after
            && self.bundle_handoffs_clean && self.runtime_shares_clean
            && self.recovery_reports_clean && self.console_files_retained >= 1
            && self.replacement_socket_removed && self.replacement_exit_success
            && self.service_restart_recovered;
        first && replacement && self.reason.is_none()
    }
}

impl Default for LinuxKvmRecoveryEvidence {
    fn default() -> (evidence: LinuxKvmRecoveryEvidence)
        ensures
            evidence.shows_nothing(),
    {
        LinuxKvmRecoveryEvidence {
            qualification_scope_verified: false,
            first_host_service: None,
            first_socket_peer: None,
            target: None,
            created_config_digest: None,
            create_replayed: false,
            start_returned_running: false,
            init_marker_verified: false,
            live_vm_processes: Vec::new(),
            authenticated_endpoint_consumed: false,
            host_service_sigkill_delivered: false,
            first_host_service_reaped: false,
            stale_socket_retained: false,
            live_vm_processes_reaped: false,
            endpoint_inventory_restored: false,
            authenticated_recovery_report_retained: false,
            replacement_host_service: None,
            replacement_socket_peer: None,
            replacement_socket_new_owner: false,
            replacement_connected: false,
            exact_stopped_state_recovered: false,
            process_inventory_empty: false,
            recovered_wait_status: None,
            recovered_wait_replayed: false,
            stopped_delete_succeeded: false,
            durable_state_removed: false,
            replacement_descriptor_inventory_restored: false,
            open_descriptors_before: None,
            open_descriptors_after: None,
            bundle_handoffs_clean: false,
            runtime_shares_clean: false,
            recovery_reports_clean: false,
            console_files_retained: 0,
            replacement_socket_removed: false,
            replacement_exit_success: false,
            service_restart_recovered: false,
            reason: None,
        }
    }
}

/// The report of one recovery qualification.
#[derive(Clone, Debug)]
pub struct LinuxKvmRecoverySmokeReport {
    pub schema_version: String,
    pub status: CapabilityStatus,
    pub platform: HostPlatform,
    pub architecture: String,
    pub kvm_required: bool,
    pub expected_case_count: u32,
    pub case_count: u32,
    pub evidence_root: String,
    pub artifacts: LinuxKvmRecoveryArtifacts,
    pub recovery: LinuxKvmRecoveryEvidence,
    pub reason: Option<String>,
}

impl LinuxKvmRecoverySmokeReport {
    /// A report before anything was tried.
    pub fn initial(evidence_root: String, architecture: String) -> (report:
        LinuxKvmRecoverySmokeReport)
        ensures
            report.schema_version@ == LINUX_KVM_RECOVERY_SMOKE_SCHEMA_VERSION@,
            report.status is Unavailable,
            report.platform is Linux,
            report.architecture == architecture,
            report.kvm_required,
            report.expected_case_count == 1,
            report.case_count == 0,
            report.evidence_root == evidence_root,
            report.artifacts.blank(),
            report.recovery.shows_nothing(),
            report.reason is None,
            !report.succeeds(),
    {
        let artifacts = LinuxKvmRecoveryArtifacts::default();
        assert(!absolute(artifacts.shim@));
        LinuxKvmRecoverySmokeReport {
            schema_version: LINUX_KVM_RECOVERY_SMOKE_SCHEMA_VERSION.to_owned(),
            status: CapabilityStatus::Unavailable,
            platform: HostPlatform::Linux,
            architecture,
            kvm_required: true,
            expected_case_count: 1,
            case_count: 0,
            evidence_root,
            artifacts,
            recovery: LinuxKvmRecoveryEvidence::default(),
            reason: None,
        }
    }

    /// Whether the report is complete and its evidence successful.
    pub open spec fn succeeds(self) -> bool {
        &&& self.schema_version@ == LINUX_KVM_RECOVERY_SMOKE_SCHEMA_VERSION@
        &&& self.status is Available
        &&& self.platform is Linux
        &&& known_architecture(self.architecture@)
        &&& self.kvm_required
        &&& self.expected_case_count == 1
        &&& self.case_count == 1
        &&& absolute(self.evidence_root@)
        &&& self.artifacts.complete()
        &&& self.recovery.succeeds()
        &&& self.reason is None
    }

    /// Whether the report is that of a successful qualification.
    pub fn is_success(&self) -> (holds: bool)
        ensures
            holds == self.succeeds(),
    {
        text_eq(&self.schema_version, LINUX_KVM_RECOVERY_SMOKE_SCHEMA_VERSION) && self.status
            == CapabilityStatus::Available && self.platform == HostPlatform::Linux
            && is_known_architecture(&self.architecture) && self.kvm_required
            && self.expected_case_count == 1 && self.case_count == 1 && is_absolute(
            &self.evidence_root,
        ) && self.artifacts.is_complete() && self.recovery.is_success() && self.reason.is_none()
    }
}

/// Evidence of a recovery under one and the same owner never succeeds.
pub proof fn recovery_needs_another_owner(evidence: LinuxKvmRecoveryEvidence)
    requires
        evidence.succeeds(),
    ensures
        identity_view(evidence.first_host_service) != identity_view(
            evidence.replacement_host_service,
        ),
{
}

/// Artifacts are complete only where each is at an absolute path and has its digest.
pub proof fn artifacts_need_every_part(artifacts: LinuxKvmRecoveryArtifacts)
    requires
        artifacts.complete(),
    ensures
        absolute(artifacts.host_service_executable@),
        absolute(artifacts.shim@),
        absolute(artifacts.system_image_manifest@),
        absolute(artifacts.source_bundle@),
        is_sha256(artifacts.host_service_executable_sha256@),
        is_sha256(artifacts.shim_sha256@),
        is_sha256(artifacts.system_image_manifest_sha256@),
        is_sha256_digest(artifacts.source_bundle_config_digest@),
        is_git_revision(artifacts.source_revision@),
{
}

/// Nothing but these is asked for.
pub proof fn artifact_parts_suffice(artifacts: LinuxKvmRecoveryArtifacts)
    requires
        absolute(artifacts.host_service_executable@),
        absolute(artifacts.shim@),
        absolute(artifacts.system_image_manifest@),
        absolute(artifacts.source_bundle@),
        is_sha256(artifacts.host_service_executable_sha256@),
        is_sha256(artifacts.shim_sha256@),
        is_sha256(artifacts.system_image_manifest_sha256@),
        is_sha256_digest(artifacts.source_bundle_config_digest@),
        is_git_revision(artifacts.source_revision@),
    ensures
        artifacts.complete(),
{
}

/// A recovery succeeds only where each of its gates was met.
pub proof fn recovery_success_needs_every_gate(evidence: LinuxKvmRecoveryEvidence)
    requires
        evidence.succeeds(),
    ensures
        evidence.qualification_scope_verified,
        evidence.first_host_service is Some,
        identity_view(evidence.first_socket_peer) == identity_view(evidence.first_host_service),
        evidence.target is Some,
        evidence.created_config_digest is Some,
        is_sha256_digest(evidence.created_config_digest->0@),
        evidence.create_replayed,
        evidence.start_returned_running,
        evidence.init_marker_verified,
        evidence.live_vm_processes@.len() >= 2,
        evidence.authenticated_endpoint_consumed,
        evidence.host_service_sigkill_delivered,
        evidence.first_host_service_reaped,
        evidence.stale_socket_retained,
        evidence.live_vm_processes_reaped,
        evidence.endpoint_inventory_restored,
        evidence.authenticated_recovery_report_retained,
        evidence.replacement_host_service is Some,
        identity_view(evidence.replacement_socket_peer) == identity_view(
            evidence.replacement_host_service,
        ),
        identity_view(evidence.first_socket_peer) != identity_view(
            evidence.replacement_socket_peer,
        ),
        evidence.replacement_socket_new_owner,
        evidence.replacement_connected,
        evidence.exact_stopped_state_recovered,
        evidence.process_inventory_empty,
        evidence.recovered_wait_status == Some(
            ExitStatus { exit_code: None, signal: Some(9), oom_killed: false },
        ),
        evidence.recovered_wait_replayed,
        evidence.stopped_delete_succeeded,
        evidence.durable_state_removed,
        evidence.replacement_descriptor_inventory_restored,
        evidence.open_descriptors_before == evidence.open_descriptors_after,
        evidence.bundle_handoffs_clean,
        evidence.runtime_shares_clean,
        evidence.recovery_reports_clean,
        evidence.console_files_retained >= 1,
        evidence.replacement_socket_removed,
        evidence.replacement_exit_success,
        evidence.service_restart_recovered,
        evidence.reason is None,
{
}

/// Nothing but these is asked for.
pub proof fn recovery_gates_suffice(evidence: LinuxKvmRecoveryEvidence)
    requires
        evidence.qualification_scope_verified,
        evidence.first_host_service is Some,
        identity_view(evidence.first_socket_peer) == identity_view(evidence.first_host_service),
        evidence.target is Some,
        evidence.created_config_digest is Some,
        is_sha256_digest(evidence.created_config_digest->0@),
        evidence.create_replayed,
        evidence.start_returned_running,
        evidence.init_marker_verified,
        evidence.live_vm_processes@.len() >= 2,
        evidence.authenticated_endpoint_consumed,
        evidence.host_service_sigkill_delivered,
        evidence.first_host_service_reaped,
        evidence.stale_socket_retained,
        evidence.live_vm_processes_reaped,
        evidence.endpoint_inventory_restored,
        evidence.authenticated_recovery_report_retained,
        evidence.replacement_host_service is Some,
        identity_view(evidence.replacement_socket_peer) == identity_view(
            evidence.replacement_host_service,
        ),
        identity_view(evidence.first_socket_peer) != identity_view(
            evidence.replacement_socket_peer,
        ),
        evidence.replacement_socket_new_owner,
        evidence.replacement_connected,
        evidence.exact_stopped_state_recovered,
        evidence.process_inventory_empty,
        evidence.recovered_wait_status == Some(
            ExitStatus { exit_code: None, signal: Some(9), oom_killed: false },
        ),
        evidence.recovered_wait_replayed,
        evidence.stopped_delete_succeeded,
        evidence.durable_state_removed,
        evidence.replacement_descriptor_inventory_restored,
        evidence.open_descriptors_before == evidence.open_descriptors_after,
        evidence.bundle_handoffs_clean,
        evidence.runtime_shares_clean,
        evidence.recovery_reports_clean,
        evidence.console_files_retained >= 1,
        evidence.replacement_socket_removed,
        evidence.replacement_exit_success,
        evidence.service_restart_recovered,
        evidence.reason is None,
    ensures
        evidence.succeeds(),
{
}

/// A report of a recovery succeeds only where each of its gates was met.
pub proof fn report_success_needs_every_gate(report: LinuxKvmRecoverySmokeReport)
    requires
        report.succeeds(),
    ensures
        report.schema_version@ == LINUX_KVM_RECOVERY_SMOKE_SCHEMA_VERSION@,
        report.status is Available,
        report.platform is Linux,
        known_architecture(report.architecture@),
        report.kvm_required,
        report.expected_case_count == 1,
        report.case_count == 1,
        absolute(report.evidence_root@),
        report.artifacts.complete(),
        report.recovery.succeeds(),
        report.reason is None,
{
}

/// Nothing but these is asked for.
pub proof fn report_gates_suffice(report: LinuxKvmRecoverySmokeReport)
    requires
        report.schema_version@ == LINUX_KVM_RECOVERY_SMOKE_SCHEMA_VERSION@,
        report.status is Available,
        report.platform is Linux,
        known_architecture(report.architecture@),
        report.kvm_required,
        report.expected_case_count == 1,
        report.case_count == 1,
        absolute(report.evidence_root@),
        report.artifacts.complete(),
        report.recovery.succeeds(),
        report.reason is None,
    ensures
        report.succeeds(),
{
}

/// Before anything was checked nothing is said of any input.
pub proof fn unchecked_artifacts_say_nothing(fresh: LinuxKvmRecoveryArtifacts)
    requires
        fresh.blank(),
    ensures
        fresh.host_service_executable@ == Seq::<char>::empty(),
        fresh.host_service_executable_sha256@ == Seq::<char>::empty(),
        fresh.shim@ == Seq::<char>::empty(),
        fresh.shim_sha256@ == Seq::<char>::empty(),
        fresh.system_image_manifest@ == Seq::<char>::empty(),
        fresh.system_image_manifest_sha256@ == Seq::<char>::empty(),
        fresh.source_bundle@ == Seq::<char>::empty(),
        fresh.source_bundle_config_digest@ == Seq::<char>::empty(),
        fresh.source_revision@ == Seq::<char>::empty(),
{
}

/// Before anything was tried nothing is claimed: each thing that is to be shown is not
/// shown yet.
pub proof fn fresh_recoveries_show_nothing(fresh: LinuxKvmRecoveryEvidence)
    requires
        fresh.shows_nothing(),
    ensures
        !fresh.qualification_scope_verified,
        fresh.first_host_service is None,
        fresh.first_socket_peer is None,
        fresh.target is None,
        fresh.created_config_digest is None,
        !fresh.create_replayed,
        !fresh.start_returned_running,
        !fresh.init_marker_verified,
        fresh.live_vm_processes@.len() == 0,
        !fresh.authenticated_endpoint_consumed,
        !fresh.host_service_sigkill_delivered,
        !fresh.first_host_service_reaped,
        !fresh.stale_socket_retained,
        !fresh.live_vm_processes_reaped,
        !fresh.endpoint_inventory_restored,
        !fresh.authenticated_recovery_report_retained,
        fresh.replacement_host_service is None,
        fresh.replacement_socket_peer is None,
        !fresh.replacement_socket_new_owner,
        !fresh.replacement_connected,
        !fresh.exact_stopped_state_recovered,
        !fresh.process_inventory_empty,
        fresh.recovered_wait_status is None,
        !fresh.recovered_wait_replayed,
        !fresh.stopped_delete_succeeded,
        !fresh.durable_state_removed,
        !fresh.replacement_descriptor_inventory_restored,
        fresh.open_descriptors_before is None,
        fresh.open_descriptors_after is None,
        !fresh.bundle_handoffs_clean,
        !fresh.runtime_shares_clean,
        !fresh.recovery_reports_clean,
        fresh.console_files_retained == 0,
        !fresh.replacement_socket_removed,
        !fresh.replacement_exit_success,
        !fresh.service_restart_recovered,
        fresh.reason is None,
{
}

/// Two identities are the same only where they agree in everything, and no identity is
/// the same as one that is missing.
pub proof fn identities_agree_in_everything(
    first: LinuxProcessIdentity,
    second: LinuxProcessIdentity,
)
    ensures
        identity_view(Some(first)) == identity_view(Some(second)) <==> first.pid == second.pid
            && first.parent_pid == second.parent_pid && first.process_group_id
            == second.process_group_id && first.start_time_ticks == second.start_time_ticks
            && first.command@ == second.command@,
        identity_view(Some(first)) != identity_view(None),
{
}

/// KVM is qualified on two architectures.
pub proof fn two_architectures_are_known(architecture: Seq<char>)
    ensures
        known_architecture(architecture) <==> architecture == "x86_64"@ || architecture
            == "aarch64"@,
{
}

} // verus!
