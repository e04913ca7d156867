//! Evidence that the public macOS HVF host service works: its whole lifecycle,
//! recovery after its owner's death, and a long series of generations.

use vstd::prelude::*;
use crate::digest::{
    canonical_git_revision, canonical_optional_digest, canonical_sha256, canonical_sha256_digest,
    is_git_revision, is_sha256, is_sha256_digest,
};
use crate::model::{
    is_killed, killed_status, CapabilityStatus, ContainerTarget, ExitStatus, HostPlatform,
};
use crate::operations::{same_operations, RuntimeOperation};
use crate::path::{absolute, is_absolute};
use crate::process::{Incarnation, ProcessNode};
use crate::text::text_eq;

verus! {

/// The schema of host service reports.
pub const MACOS_HVF_HOST_SERVICE_SMOKE_SCHEMA_VERSION: &'static str =
    "a3s.oci.macos-hvf-host-service-smoke.v1";

/// How many operations the public service offers.
pub const PUBLIC_OPERATION_COUNT: usize = 23;

/// A macOS process that cannot be confused with a later one of the same number.
#[derive(Clone, Debug)]
pub struct MacosProcessIdentity {
    pub pid: u32,
    pub parent_pid: u32,
    pub process_group_id: u32,
    pub start_time_unix_us: u64,
    pub command: String,
}

impl MacosProcessIdentity {
    /// The same identity again.
    pub fn copy(&self) -> (identity: MacosProcessIdentity)
        ensures
            identity == *self,
    {
        MacosProcessIdentity {
            pid: self.pid,
            parent_pid: self.parent_pid,
            process_group_id: self.process_group_id,
            start_time_unix_us: self.start_time_unix_us,
            command: self.command.clone(),
        }
    }
}

/// A socket file that cannot be confused with a later one at the same path.
#[derive(Clone, Copy, Debug, PartialEq, Eq, Structural)]
pub struct MacosSocketIdentity {
    pub device: u64,
    pub inode: u64,
    pub generation: u32,
    pub birth_time_unix_seconds: i64,
    pub birth_time_nanoseconds: i64,
}

/// The inputs that a qualification was made with.
#[derive(Clone, Debug)]
pub struct MacosHvfArtifactEvidence {
    pub host_service_executable: String,
    pub host_service_executable_sha256: String,
    pub shim: String,
    pub shim_sha256: String,
    pub system_image_manifest: String,
    pub system_image_manifest_sha256: String,
    pub source_bundle: String,
    pub source_bundle_config_digest: String,
    pub source_revision: String,
}

impl Default for MacosHvfArtifactEvidence {
    fn default() -> (artifacts: MacosHvfArtifactEvidence)
        ensures
            artifacts.blank(),
    {
        MacosHvfArtifactEvidence {
            host_service_executable: String::new(),
            host_service_executable_sha256: String::new(),
            shim: String::new(),
            shim_sha256: String::new(),
            system_image_manifest: String::new(),
            system_image_manifest_sha256: String::new(),
            source_bundle: String::new(),
            source_bundle_config_digest: String::new(),
            source_revision: String::new(),
        }
    }
}

impl MacosHvfArtifactEvidence {
    /// Whether nothing is said of any input.
    pub open spec fn blank(self) -> bool {
        &&& self.host_service_executable@ == Seq::<char>::empty()
        &&& self.host_service_executable_sha256@ == Seq::<char>::empty()
        &&& self.shim@ == Seq::<char>::empty()
        &&& self.shim_sha256@ == Seq::<char>::empty()
        &&& self.system_image_manifest@ == Seq::<char>::empty()
        &&& self.system_image_manifest_sha256@ == Seq::<char>::empty()
        &&& self.source_bundle@ == Seq::<char>::empty()
        &&& self.source_bundle_config_digest@ == Seq::<char>::empty()
        &&& self.source_revision@ == Seq::<char>::empty()
    }

    /// Whether each input has an absolute path and a canonical digest, and the
    /// source a full revision.
    pub open spec fn complete(self) -> bool {
        &&& absolute(self.host_service_executable@)
        &&& absolute(self.shim@)
        &&& absolute(self.system_image_manifest@)
        &&& absolute(self.source_bundle@)
        &&& is_sha256(self.host_service_executable_sha256@)
        &&& is_sha256(self.shim_sha256@)
        &&& is_sha256(self.system_image_manifest_sha256@)
        &&& is_sha256_digest(self.source_bundle_config_digest@)
        &&& is_git_revision(self.source_revision@)
    }

    /// Whether the inputs are complete.
    pub fn is_complete(&self) -> (holds: bool)
        ensures
            holds == self.complete(),
    {
        is_absolute(&self.host_service_executable) && is_absolute(&self.shim) && is_absolute(
            &self.system_image_manifest,
        ) && is_absolute(&self.source_bundle) && canonical_sha256(
            &self.host_service_executable_sha256,
        ) && canonical_sha256(&self.shim_sha256) && canonical_sha256(
            &self.system_image_manifest_sha256,
        ) && canonical_sha256_digest(&self.source_bundle_config_digest) && canonical_git_revision(
            &self.source_revision,
        )
    }
}

/// What the lifecycle of a container under the public service has shown.
#[derive(Clone, Debug)]
pub struct MacosHvfPublicLifecycleEvidence {
    pub host_service_pid: Option<u32>,
    pub socket_private: bool,
    pub features_verified: bool,
    pub advertised_operations: Vec<RuntimeOperation>,
    pub exercised_operations: Vec<RuntimeOperation>,
    pub bundle_handoff_staged: bool,
    pub bundle_handoff_consumed: bool,
    pub create_returned_created: bool,
    pub create_replayed: bool,
    pub state_exact_after_create: bool,
    pub list_exact_after_create: bool,
    pub start_returned_running: bool,
    pub init_marker_verified: bool,
    pub process_io_verified: bool,
    pub terminal_io_verified: bool,
    pub exec_lifecycle_verified: bool,
    pub signal_process_verified: bool,
    pub wait_process_verified: bool,
    pub read_output_verified: bool,
    pub write_stdin_verified: bool,
    pub close_stdin_verified: bool,
    pub resize_verified: bool,
    pub file_transfer_verified: bool,
    pub filesystem_operations_verified: bool,
    pub process_inventory_verified: bool,
    pub resources_updated: bool,
    pub stats_verified: bool,
    pub pause_verified: bool,
    pub resume_verified: bool,
    pub wait_timeout_enforced: bool,
    pub kill_replayed: bool,
    pub wait_status: Option<ExitStatus>,
    pub wait_replayed: bool,
    pub events_verified: bool,
    pub delete_replayed: bool,
    pub state_removed: bool,
    pub generation_monotonic: bool,
    pub stale_generation_rejected: bool,
    pub recreated_generation_deleted: bool,
    pub list_empty_after_delete: bool,
    pub service_descriptor_inventory_restored: bool,
    pub open_descriptors_before: Option<u32>,
    pub open_descriptors_after: Option<u32>,
    pub vm_processes_reaped: bool,
    pub endpoint_inventory_restored: bool,
    pub bundle_handoffs_clean: bool,
    pub runtime_shares_clean: bool,
    pub recovery_reports_clean: bool,
    pub console_files_created: u32,
    pub service_socket_removed: bool,
    pub service_exit_success: bool,
    pub reason: Option<String>,
}

impl Default for MacosHvfPublicLifecycleEvidence {
    fn default() -> (evidence: MacosHvfPublicLifecycleEvidence)
        ensures
            evidence.shows_nothing(),
    {
        MacosHvfPublicLifecycleEvidence {
            host_service_pid: None,
            socket_private: false,
            features_verified: false,
            advertised_operations: Vec::new(),
            exercised_operations: Vec::new(),
            bundle_handoff_staged: false,
            bundle_handoff_consumed: false,
            create_returned_created: false,
            create_replayed: false,
            state_exact_after_create: false,
            list_exact_after_create: false,
            start_returned_running: false,
            init_marker_verified: false,
            process_io_verified: false,
            terminal_io_verified: false,
            exec_lifecycle_verified: false,
            signal_process_verified: false,
            wait_process_verified: false,
            read_output_verified: false,
            write_stdin_verified: false,
            close_stdin_verified: false,
            resize_verified: false,
            file_transfer_verified: false,
            filesystem_operations_verified: false,
            process_inventory_verified: false,
            resources_updated: false,
            stats_verified: false,
            pause_verified: false,
            resume_verified: false,
            wait_timeout_enforced: false,
            kill_replayed: false,
            wait_status: None,
            wait_replayed: false,
            events_verified: false,
            delete_replayed: false,
            state_removed: false,
            generation_monotonic: false,
            stale_generation_rejected: false,
            recreated_generation_deleted: false,
            list_empty_after_delete: false,
            service_descriptor_inventory_restored: false,
            open_descriptors_before: None,
            open_descriptors_after: None,
            vm_processes_reaped: false,
            endpoint_inventory_restored: false,
            bundle_handoffs_clean: false,
            runtime_shares_clean: false,
            recovery_reports_clean: false,
            console_files_created: 0,
            service_socket_removed: false,
            service_exit_success: false,
            reason: None,
        }
    }
}

impl MacosHvfPublicLifecycleEvidence {
    /// Whether nothing was shown yet.
    pub open spec fn shows_nothing(self) -> bool {
        &&& self.host_service_pid is None
        &&& !self.socket_private
        &&& !self.features_verified
        &&& self.advertised_operations@.len() == 0
        &&& self.exercised_operations@.len() == 0
        &&& !self.bundle_handoff_staged
        &&& !self.bundle_handoff_consumed
        &&& !self.create_returned_created
        &&& !self.create_replayed
        &&& !self.state_exact_after_create
        &&& !self.list_exact_after_create
        &&& !self.start_returned_running
        &&& !self.init_marker_verified
        &&& !self.process_io_verified
        &&& !self.terminal_io_verified
        &&& !self.exec_lifecycle_verified
        &&& !self.signal_process_verified
        &&& !self.wait_process_verified
        &&& !self.read_output_verified
        &&& !self.write_stdin_verified
        &&& !self.close_stdin_verified
        &&& !self.resize_verified
        &&& !self.file_transfer_verified
        &&& !self.filesystem_operations_verified
        &&& !self.process_inventory_verified
        &&& !self.resources_updated
        &&& !self.stats_verified
        &&& !self.pause_verified
        &&& !self.resume_verified
        &&& !self.wait_timeout_enforced
        &&& !self.kill_replayed
        &&& self.wait_status is None
        &&& !self.wait_replayed
        &&& !self.events_verified
        &&& !self.delete_replayed
        &&& !self.state_removed
        &&& !self.generation_monotonic
        &&& !self.stale_generation_rejected
        &&& !self.recreated_generation_deleted
        &&& !self.list_empty_after_delete
        &&& !self.service_descriptor_inventory_restored
        &&& self.open_descriptors_before is None
        &&& self.open_descriptors_after is None
        &&& !self.vm_processes_reaped
        &&& !self.endpoint_inventory_restored
        &&& !self.bundle_handoffs_clean
        &&& !self.runtime_shares_clean
        &&& !self.recovery_reports_clean
        &&& self.console_files_created == 0
        &&& !self.service_socket_removed
        &&& !self.service_exit_success
        &&& self.reason is None
    }

    /// Whether all that success asks for was shown.
    pub open spec fn succeeds(self) -> bool {
        &&& self.host_service_pid is Some
        &&& self.socket_private
        &&& self.features_verified
        &&& self.advertised_operations@.len() == PUBLIC_OPERATION_COUNT
        &&& self.exercised_operations@ == self.advertised_operations@
        &&& self.bundle_handoff_staged
        &&& self.bundle_handoff_consumed
        &&& self.create_returned_created
        &&& self.create_replayed
        &&& self.state_exact_after_create
        &&& self.list_exact_after_create
        &&& self.start_returned_running
        &&& self.init_marker_verified
        &&& self.process_io_verified
        &&& self.terminal_io_verified
        &&& self.exec_lifecycle_verified
        &&& self.signal_process_verified
        &&& self.wait_process_verified
        &&& self.read_output_verified
        &&& self.write_stdin_verified
        &&& self.close_stdin_verified
        &&& self.resize_verified
        &&& self.file_transfer_verified
        &&& self.filesystem_operations_verified
        &&& self.process_inventory_verified
        &&& self.resources_updated
        &&& self.stats_verified
        &&& self.pause_verified
        &&& self.resume_verified
        &&& self.wait_timeout_enforced
        &&& self.kill_replayed
        &&& self.wait_status == Some(killed_status())
        &&& self.wait_replayed
        &&& self.events_verified
        &&& self.delete_replayed
        &&& self.state_removed
        &&& self.generation_monotonic
        &&& self.stale_generation_rejected
        &&& self.recreated_generation_deleted
        &&& self.list_empty_after_delete
        &&& self.service_descriptor_inventory_restored
        &&& self.vm_processes_reaped
        &&& self.endpoint_inventory_restored
        &&& self.bundle_handoffs_clean
        &&& self.runtime_shares_clean
        &&& self.recovery_reports_clean
        &&& self.console_files_created >= 2
        &&& self.service_socket_removed
        &&& self.service_exit_success
        &&& self.reason is None
    }

    /// Whether the evidence is that of a success.
    pub fn is_success(&self) -> (holds: bool)
        ensures
            holds == self.succeeds(),
    {
        let first = self.host_service_pid.is_some() && self.socket_private
            && self.features_verified
            && self.advertised_operations.len() == PUBLIC_OPERATION_COUNT
            && same_operations(&self.exercised_operations, &self.advertised_operations)
            && self.bundle_handoff_staged && self.bundle_handoff_consumed
            && self.create_returned_created && self.create_replayed
            && self.state_exact_after_create && self.list_exact_after_create
            && self.start_returned_running && self.init_marker_verified
            && self.process_io_verified && self.terminal_io_verified
            && self.exec_lifecycle_verified && self.signal_process_verified
            && self.wait_process_verified;
        let second = self.read_output_verified && self.write_stdin_verified
            && self.close_stdin_verified && self.resize_verified
            && self.file_transfer_verified && self.filesystem_operations_verified
            && self.process_inventory_verified && self.resources_updated
            && self.stats_verified && self.pause_verified && self.resume_verified
            && self.wait_timeout_enforced && self.kill_replayed
            && is_killed(&self.wait_status) && self.wait_replayed && self.events_verified
            && self.delete_replayed && self.state_removed;
        let third = self.generation_monotonic && self.stale_generation_rejected
            && self.recreated_generation_deleted && self.list_empty_after_delete
            && self.service_descriptor_inventory_restored && self.vm_processes_reaped
            && self.endpoint_inventory_restored && self.bundle_handoffs_clean
            && self.runtime_shares_clean && self.recovery_reports_clean
            && self.console_files_created >= 2 && self.service_socket_removed
            && self.service_exit_success && self.reason.is_none();
        first && second && third
    }
}

/// What recovery after the death of the service has shown.
#[derive(Clone, Debug)]
pub struct MacosHvfOwnerDeathEvidence {
    pub first_host_service_pid: Option<u32>,
    pub target: Option<ContainerTarget>,
    pub created_config_digest: Option<String>,
    pub live_vm_processes: Vec<MacosProcessIdentity>,
    pub host_service_sigkill_delivered: bool,
    pub first_host_service_reaped: bool,
    pub stale_socket_retained: bool,
    pub live_vm_processes_reaped: bool,
    pub endpoint_inventory_restored: bool,
    pub authenticated_recovery_report_retained: bool,
    pub replacement_host_service_pid: Option<u32>,
    pub replacement_socket_new_inode: bool,
    pub replacement_connected: bool,
    pub exact_stopped_state_recovered: bool,
    pub process_inventory_empty: bool,
    pub recovered_wait_status: Option<ExitStatus>,
    pub recovered_wait_replayed: bool,
    pub stopped_delete_succeeded: bool,
    pub durable_state_removed: bool,
    pub replacement_descriptor_inventory_restored: bool,
    pub open_descriptors_before: Option<u32>,
    pub open_descriptors_after: Option<u32>,
    pub bundle_handoffs_clean: bool,
    pub runtime_shares_clean: bool,
    pub recovery_reports_clean: bool,
    pub replacement_socket_removed: bool,
    pub replacement_exit_success: bool,
    pub reason: Option<String>,
}

impl Default for MacosHvfOwnerDeathEvidence {
    fn default() -> (evidence: MacosHvfOwnerDeathEvidence)
        ensures
            evidence.shows_nothing(),
    {
        MacosHvfOwnerDeathEvidence {
            first_host_service_pid: None,
            target: None,
            created_config_digest: None,
            live_vm_processes: Vec::new(),
            host_service_sigkill_delivered: false,
            first_host_service_reaped: false,
            stale_socket_retained: false,
            live_vm_processes_reaped: false,
            endpoint_inventory_restored: false,
            authenticated_recovery_report_retained: false,
            replacement_host_service_pid: None,
            replacement_socket_new_inode: false,
            replacement_connected: false,
            exact_stopped_state_recovered: false,
            process_inventory_empty: false,
            recovered_wait_status: None,
            recovered_wait_replayed: false,
            stopped_delete_succeeded: false,
            durable_state_removed: false,
            replacement_descriptor_inventory_restored: false,
            open_descriptors_before: None,
            open_descriptors_after: None,
            bundle_handoffs_clean: false,
            runtime_shares_clean: false,
            recovery_reports_clean: false,
            replacement_socket_removed: false,
            replacement_exit_success: false,
            reason: None,
        }
    }
}

impl MacosHvfOwnerDeathEvidence {
    /// Whether nothing was shown yet.
    pub open spec fn shows_nothing(self) -> bool {
        &&& self.first_host_service_pid is None
        &&& self.target is None
        &&& self.created_config_digest is None
        &&& self.live_vm_processes@.len() == 0
        &&& !self.host_service_sigkill_delivered
        &&& !self.first_host_service_reaped
        &&& !self.stale_socket_retained
        &&& !self.live_vm_processes_reaped
        &&& !self.endpoint_inventory_restored
        &&& !self.authenticated_recovery_report_retained
        &&& self.replacement_host_service_pid is None
        &&& !self.replacement_socket_new_inode
        &&& !self.replacement_connected
        &&& !self.exact_stopped_state_recovered
        &&& !self.process_inventory_empty
        &&& self.recovered_wait_status is None
        &&& !self.recovered_wait_replayed
        &&& !self.stopped_delete_succeeded
        &&& !self.durable_state_removed
        &&& !self.replacement_descriptor_inventory_restored
        &&& self.open_descriptors_before is None
        &&& self.open_descriptors_after is None
        &&& !self.bundle_handoffs_clean
        &&& !self.runtime_shares_clean
        &&& !self.recovery_reports_clean
        &&& !self.replacement_socket_removed
        &&& !self.replacement_exit_success
        &&& self.reason is None
    }

    /// Whether all that success asks for was shown.
    pub open spec fn succeeds(self) -> bool {
        &&& self.first_host_service_pid is Some
        &&& self.target is Some
        &&& self.created_config_digest is Some && is_sha256_digest(self.created_config_digest->0@)
        &&& self.live_vm_processes@.len() >= 2
        &&& self.host_service_sigkill_delivered
        &&& self.first_host_service_reaped
        &&& self.stale_socket_retained
        &&& self.live_vm_processes_reaped
        &&& self.endpoint_inventory_restored
        &&& self.authenticated_recovery_report_retained
        &&& self.replacement_host_service_pid is Some
        &&& self.replacement_socket_new_inode
        &&& self.replacement_connected
        &&& self.exact_stopped_state_recovered
        &&& self.process_inventory_empty
        &&& self.recovered_wait_status == Some(killed_status())
        &&& self.recovered_wait_replayed
        &&& self.stopped_delete_succeeded
        &&& self.durable_state_removed
        &&& self.replacement_descriptor_inventory_restored
        &&& self.bundle_handoffs_clean
        &&& self.runtime_shares_clean
        &&& self.recovery_reports_clean
        &&& self.replacement_socket_removed
        &&& self.replacement_exit_success
        &&& self.reason is None
    }

    /// Whether the evidence is that of a success.
    pub fn is_success(&self) -> (holds: bool)
        ensures
            holds == self.succeeds(),
    {
        let first = self.first_host_service_pid.is_some() && self.target.is_some()
            && canonical_optional_digest(&self.created_config_digest)
            && self.live_vm_processes.len() >= 2 && self.host_service_sigkill_delivered
            && self.first_host_service_reaped && self.stale_socket_retained
            && self.live_vm_processes_reaped && self.endpoint_inventory_restored
            && self.authenticated_recovery_report_retained
            && self.replacement_host_service_pid.is_some()
            && self.replacement_socket_new_inode && self.replacement_connected
            && self.exact_stopped_state_recovered && self.process_inventory_empty
            && is_killed(&self.recovered_wait_status) && self.recovered_wait_replayed
            && self.stopped_delete_succeeded;
        let second = self.durable_state_removed && self.replacement_descriptor_inventory_restored
            && self.bundle_handoffs_clean && self.runtime_shares_clean
            && self.recovery_reports_clean && self.replacement_socket_removed
            && self.replacement_exit_success && self.reason.is_none();
        first && second
    }
}

/// What a series of generations has shown.
#[derive(Clone, Debug)]
pub struct MacosHvfPublicSoakEvidence {
    pub requested_iterations: u32,
    pub completed_iterations: u32,
    pub host_service_pid: Option<u32>,
    pub completed_vm_generations: u32,
    pub create_replays_verified: u32,
    pub kill_replays_verified: u32,
    pub wait_replays_verified: u32,
    pub delete_replays_verified: u32,
    pub generation_monotonic_every_iteration: bool,
    pub stale_generation_rejected_every_iteration: bool,
    pub descriptor_inventory_stable_every_iteration: bool,
    pub steady_open_descriptors: Option<u32>,
    pub final_open_descriptors: Option<u32>,
    pub vm_processes_reaped_every_iteration: bool,
    pub endpoint_inventory_restored_every_iteration: bool,
    pub transients_clean_every_iteration: bool,
    pub unique_vm_processes: bool,
    pub vm_processes: Vec<MacosProcessIdentity>,
    pub console_files_created: u32,
    pub service_socket_removed: bool,
    pub service_exit_success: bool,
    pub failure_iteration: Option<u32>,
    pub reason: Option<String>,
}

impl Default for MacosHvfPublicSoakEvidence {
    fn default() -> (evidence: MacosHvfPublicSoakEvidence)
        ensures
            evidence.requested_iterations == 0,
            evidence.completed_iterations == 0,
            evidence.host_service_pid is None,
            evidence.completed_vm_generations == 0,
            evidence.create_replays_verified == 0,
            evidence.kill_replays_verified == 0,
            evidence.wait_replays_verified == 0,
            evidence.delete_replays_verified == 0,
            !evidence.generation_monotonic_every_iteration,
            !evidence.stale_generation_rejected_every_iteration,
            !evidence.descriptor_inventory_stable_every_iteration,
            evidence.steady_open_descriptors is None,
            evidence.final_open_descriptors is None,
            !evidence.vm_processes_reaped_every_iteration,
            !evidence.endpoint_inventory_restored_every_iteration,
            !evidence.transients_clean_every_iteration,
            !evidence.unique_vm_processes,
            evidence.vm_processes@.len() == 0,
            evidence.console_files_created == 0,
            !evidence.service_socket_removed,
            !evidence.service_exit_success,
            evidence.failure_iteration is None,
            evidence.reason is None,
    {
        MacosHvfPublicSoakEvidence {
            requested_iterations: 0,
            completed_iterations: 0,
            host_service_pid: None,
            completed_vm_generations: 0,
            create_replays_verified: 0,
            kill_replays_verified: 0,
            wait_replays_verified: 0,
            delete_replays_verified: 0,
            generation_monotonic_every_iteration: false,
            stale_generation_rejected_every_iteration: false,
            descriptor_inventory_stable_every_iteration: false,
            steady_open_descriptors: None,
            final_open_descriptors: None,
            vm_processes_reaped_every_iteration: false,
            endpoint_inventory_restored_every_iteration: false,
            transients_clean_every_iteration: false,
            unique_vm_processes: false,
            vm_processes: Vec::new(),
            console_files_created: 0,
            service_socket_removed: false,
            service_exit_success: false,
            failure_iteration: None,
            reason: None,
        }
    }
}

impl MacosHvfPublicSoakEvidence {
    /// Whether this is a series before its first generation: nothing was counted and
    /// nothing has gone wrong.
    pub open spec fn begins(self, requested_iterations: u32) -> bool {
        &&& self.requested_iterations == requested_iterations
        &&& self.completed_iterations == 0
        &&& self.host_service_pid is None
        &&& self.completed_vm_generations == 0
        &&& self.create_replays_verified == 0
        &&& self.kill_replays_verified == 0
        &&& self.wait_replays_verified == 0
        &&& self.delete_replays_verified == 0
        &&& self.generation_monotonic_every_iteration
        &&& self.stale_generation_rejected_every_iteration
        &&& self.descriptor_inventory_stable_every_iteration
        &&& self.steady_open_descriptors is None
        &&& self.final_open_descriptors is None
        &&& self.vm_processes_reaped_every_iteration
        &&& self.endpoint_inventory_restored_every_iteration
        &&& self.transients_clean_every_iteration
        &&& self.unique_vm_processes
        &&& self.vm_processes@.len() == 0
        &&& self.console_files_created == 0
        &&& !self.service_socket_removed
        &&& !self.service_exit_success
        &&& self.failure_iteration is None
        &&& self.reason is None
    }

    /// Evidence of a series before its first generation: nothing has gone wrong
    /// yet.
    pub fn initial(requested_iterations: u32) -> (evidence: MacosHvfPublicSoakEvidence)
        ensures
            evidence.begins(requested_iterations),
            !evidence.succeeds(),
    {
        MacosHvfPublicSoakEvidence {
            requested_iterations,
            generation_monotonic_every_iteration: true,
            stale_generation_rejected_every_iteration: true,
            descriptor_inventory_stable_every_iteration: true,
            vm_processes_reaped_every_iteration: true,
            endpoint_inventory_restored_every_iteration: true,
            transients_clean_every_iteration: true,
            unique_vm_processes: true,
            ..MacosHvfPublicSoakEvidence::default()
        }
    }

    /// Whether all that success asks for was shown.
    pub open spec fn succeeds(self) -> bool {
        &&& self.requested_iterations >= 25
        &&& self.completed_iterations == self.requested_iterations
        &&& self.host_service_pid is Some
        &&& self.completed_vm_generations == self.requested_iterations
        &&& self.create_replays_verified == self.requested_iterations
        &&& self.kill_replays_verified == self.requested_iterations
        &&& self.wait_replays_verified == self.requested_iterations
        &&& self.delete_replays_verified == self.requested_iterations
        &&& self.generation_monotonic_every_iteration
        &&& self.stale_generation_rejected_every_iteration
        &&& self.descriptor_inventory_stable_every_iteration
        &&& self.vm_processes_reaped_every_iteration
        &&& self.endpoint_inventory_restored_every_iteration
        &&& self.transients_clean_every_iteration
        &&& self.unique_vm_processes
        &&& self.vm_processes@.len() >= self.requested_iterations * 2
        &&& self.console_files_created >= self.requested_iterations
        &&& self.service_socket_removed
        &&& self.service_exit_success
        &&& self.failure_iteration is None
        &&& self.reason is None
    }

    /// Whether the evidence is that of a success.
    pub fn is_success(&self) -> (holds: bool)
        ensures
            holds == self.succeeds(),
    {
        let first = self.requested_iterations >= 25
            && self.completed_iterations == self.requested_iterations
            && self.host_service_pid.is_some()
            && self.completed_vm_generations == self.requested_iterations
            && self.create_replays_verified == self.requested_iterations
            && self.kill_replays_verified == self.requested_iterations
            && self.wait_replays_verified == self.requested_iterations
            && self.delete_replays_verified == self.requested_iterations
            && self.generation_monotonic_every_iteration
            && self.stale_generation_rejected_every_iteration
            && self.descriptor_inventory_stable_every_iteration
            && self.vm_processes_reaped_every_iteration
            && self.endpoint_inventory_restored_every_iteration
            && self.transients_clean_every_iteration && self.unique_vm_processes
            && self.vm_processes.len() as u64 >= self.requested_iterations as u64 * 2
            && self.console_files_created >= self.requested_iterations
            && self.service_socket_removed;
        let second = self.service_exit_success && self.failure_iteration.is_none()
            && self.reason.is_none();
        first && second
    }
}

/// The report of the public host service.
#[derive(Clone, Debug)]
pub struct MacosHvfHostServiceSmokeReport {
    pub schema_version: String,
    pub status: CapabilityStatus,
    pub platform: HostPlatform,
    pub evidence_root: String,
    pub artifacts: MacosHvfArtifactEvidence,
    pub lifecycle: MacosHvfPublicLifecycleEvidence,
    pub owner_death: MacosHvfOwnerDeathEvidence,
    pub soak: MacosHvfPublicSoakEvidence,
    pub reason: Option<String>,
}

impl MacosHvfHostServiceSmokeReport {
    /// Whether this is a report before anything was tried.
    pub open spec fn begins(self, evidence_root: String, requested_iterations: u32) -> bool {
        &&& self.schema_version@ == MACOS_HVF_HOST_SERVICE_SMOKE_SCHEMA_VERSION@
        &&& self.status is Unavailable
        &&& self.platform is Macos
        &&& self.evidence_root == evidence_root
        &&& self.artifacts.blank()
        &&& self.lifecycle.shows_nothing()
        &&& self.owner_death.shows_nothing()
        &&& self.soak.begins(requested_iterations)
        &&& self.reason is None
    }

    /// A report before anything was tried.
    pub fn initial(evidence_root: String, requested_iterations: u32) -> (report:
        MacosHvfHostServiceSmokeReport)
        ensures
            report.begins(evidence_root, requested_iterations),
            !report.succeeds(),
    {
        let artifacts = MacosHvfArtifactEvidence::default();
        assert(!absolute(artifacts.shim@));
        MacosHvfHostServiceSmokeReport {
            schema_version: MACOS_HVF_HOST_SERVICE_SMOKE_SCHEMA_VERSION.to_owned(),
            status: CapabilityStatus::Unavailable,
            platform: HostPlatform::Macos,
            evidence_root,
            artifacts,
            lifecycle: MacosHvfPublicLifecycleEvidence::default(),
            owner_death: MacosHvfOwnerDeathEvidence::default(),
            soak: MacosHvfPublicSoakEvidence::initial(requested_iterations),
            reason: None,
        }
    }

    /// Whether the report is complete and each of its phases successful.
    pub open spec fn succeeds(self) -> bool {
        &&& self.schema_version@ == MACOS_HVF_HOST_SERVICE_SMOKE_SCHEMA_VERSION@
        &&& self.status is Available
        &&& self.platform is Macos
        &&& absolute(self.evidence_root@)
        &&& self.artifacts.complete()
        &&& self.lifecycle.succeeds()
        &&& self.owner_death.succeeds()
        &&& self.soak.succeeds()
        &&& self.reason is None
    }

    /// Whether the report is that of a successful qualification.
    pub fn is_success(&self) -> (holds: bool)
        ensures
            holds == self.succeeds(),
    {
        text_eq(&self.schema_version, MACOS_HVF_HOST_SERVICE_SMOKE_SCHEMA_VERSION) && self.status
            == CapabilityStatus::Available && self.platform == HostPlatform::Macos && is_absolute(
            &self.evidence_root,
        ) && self.artifacts.is_complete() && self.lifecycle.is_success()
            && self.owner_death.is_success() && self.soak.is_success() && self.reason.is_none()
    }
}

/// The parentage of macOS processes.
pub open spec fn macos_nodes(all: Seq<MacosProcessIdentity>) -> Seq<ProcessNode> {
    Seq::new(all.len(), |i: int| ProcessNode { pid: all[i].pid, parent_pid: all[i].parent_pid })
}

/// The descendants among the processes of a macOS host.
pub fn macos_descendants(all: &Vec<MacosProcessIdentity>, root: u32) -> (found: Vec<
    MacosProcessIdentity,
>)
    ensures
        ({
            let nodes = macos_nodes(all@);
            let places = crate::process::descendant_places(nodes, root, nodes.len() as int);
            found@.len() == places.len() && forall|i: int|
                0 <= i < places.len() ==> #[trigger] found@[i] == all@[places[i]]
        }),
{
    let mut nodes: Vec<ProcessNode> = Vec::new();
    let mut next: usize = 0;
    while next < all.len()
        invariant
            next <= all@.len(),
            nodes@ == macos_nodes(all@.take(next as int)),
        decreases all@.len() - next,
    {
        nodes.push(ProcessNode { pid: all[next].pid, parent_pid: all[next].parent_pid });
        assert(nodes@ =~= macos_nodes(all@.take(next + 1)));
        next = next + 1;
    }
    assert(all@.take(all@.len() as int) =~= all@);
    let places = crate::process::process_descendants(&nodes, root);
    let ghost expected = crate::process::descendant_places(nodes@, root, nodes@.len() as int);
    let mut found: Vec<MacosProcessIdentity> = Vec::new();
    let mut at: usize = 0;
    assert(places@.len() == expected.len());
    while at < places.len()
        invariant
            at <= places@.len(),
            found@.len() == at,
            nodes@.len() == all@.len(),
            places@.map_values(|place: usize| place as int) == expected,
            places@.len() == expected.len(),
            forall|i: int| 0 <= i < places@.len() ==> #[trigger] places@[i] < nodes@.len(),
            forall|i: int| 0 <= i < at ==> #[trigger] found@[i] == all@[expected[i]],
        decreases places@.len() - at,
    {
        assert(places@[at as int] < nodes@.len());
        let place = places[at];
        assert(places@.map_values(|place: usize| place as int)[at as int] == place as int);
        found.push(all[place].copy());
        at = at + 1;
    }
    found
}

/// One life of a macOS process.
pub open spec fn macos_incarnation(process: MacosProcessIdentity) -> Incarnation {
    Incarnation { pid: process.pid, start_time: process.start_time_unix_us }
}

/// The time at which a macOS process was started, in microseconds, as far as the
/// number can hold it.
pub fn start_time_us(seconds: u64, microseconds: u64) -> (time: u64)
    ensures
        time as int == if seconds * 1_000_000 + microseconds <= u64::MAX {
            seconds * 1_000_000 + microseconds
        } else {
            u64::MAX as int
        },
{
    let time: u128 = seconds as u128 * 1_000_000 + microseconds as u128;
    if time <= u64::MAX as u128 {
        time as u64
    } else {
        u64::MAX
    }
}

/// The bytes of a process name, up to the first zero.
pub fn name_bytes(bytes: &[u8]) -> (name: Vec<u8>)
    ensures
        match bytes@.index_of_first(0u8) {
            Some(end) => name@ == bytes@.take(end),
            None => name@ == bytes@,
        },
{
    let mut name: Vec<u8> = Vec::new();
    let mut next: usize = 0;
    proof {
        bytes@.index_of_first_ensures(0u8);
    }
    while next < bytes.len()
        invariant
            next <= bytes@.len(),
            name@ == bytes@.take(next as int),
            forall|i: int| 0 <= i < next ==> bytes@[i] != 0,
        decreases bytes@.len() - next,
    {
        if bytes[next] == 0 {
            proof {
                bytes@.index_of_first_ensures(0u8);
                assert(bytes@.contains(0u8));
                let first = bytes@.index_of_first(0u8)->0;
                assert(first == next);
            }
            return name;
        }
        name.push(bytes[next]);
        assert(name@ =~= bytes@.take(next + 1));
        next = next + 1;
    }
    assert(name@ =~= bytes@);
    name
}

/// Artifacts are complete only where each is at an absolute path and has its digest.
pub proof fn artifacts_need_every_part(artifacts: MacosHvfArtifactEvidence)
    requires
        artifacts.complete(),
    ensures
        absolute(artifacts.host_service_executable@),
        absolute(artifacts.shim@),
        absolute(artifacts.system_image_manifest@),
        absolute(artifacts.source_bundle@),
        is_sha256(artifacts.host_service_executable_sha256@),
        is_sha256(artifacts.shim_sha256@),
        is_sha256(artifacts.system_image_manifest_sha256@),
        is_sha256_digest(artifacts.source_bundle_config_digest@),
        is_git_revision(artifacts.source_revision@),
{
}

/// Nothing but these is asked for.
pub proof fn artifact_parts_suffice(artifacts: MacosHvfArtifactEvidence)
    requires
        absolute(artifacts.host_service_executable@),
        absolute(artifacts.shim@),
        absolute(artifacts.system_image_manifest@),
        absolute(artifacts.source_bundle@),
        is_sha256(artifacts.host_service_executable_sha256@),
        is_sha256(artifacts.shim_sha256@),
        is_sha256(artifacts.system_image_manifest_sha256@),
        is_sha256_digest(artifacts.source_bundle_config_digest@),
        is_git_revision(artifacts.source_revision@),
    ensures
        artifacts.complete(),
{
}

/// A lifecycle succeeds only where each of its gates was met.
pub proof fn lifecycle_success_needs_every_gate(evidence: MacosHvfPublicLifecycleEvidence)
    requires
        evidence.succeeds(),
    ensures
        evidence.host_service_pid is Some,
        evidence.socket_private,
        evidence.features_verified,
        evidence.advertised_operations@.len() == PUBLIC_OPERATION_COUNT,
        evidence.exercised_operations@ == evidence.advertised_operations@,
        evidence.bundle_handoff_staged,
        evidence.bundle_handoff_consumed,
        evidence.create_returned_created,
        evidence.create_replayed,
        evidence.state_exact_after_create,
        evidence.list_exact_after_create,
        evidence.start_returned_running,
        evidence.init_marker_verified,
        evidence.process_io_verified,
        evidence.terminal_io_verified,
        evidence.exec_lifecycle_verified,
        evidence.signal_process_verified,
        evidence.wait_process_verified,
        evidence.read_output_verified,
        evidence.write_stdin_verified,
        evidence.close_stdin_verified,
        evidence.resize_verified,
        evidence.file_transfer_verified,
        evidence.filesystem_operations_verified,
        evidence.process_inventory_verified,
        evidence.resources_updated,
        evidence.stats_verified,
        evidence.pause_verified,
        evidence.resume_verified,
        evidence.wait_timeout_enforced,
        evidence.kill_replayed,
        evidence.wait_status == Some(
            ExitStatus { exit_code: None, signal: Some(9), oom_killed: false },
        ),
        evidence.wait_replayed,
        evidence.events_verified,
        evidence.delete_replayed,
        evidence.state_removed,
        evidence.generation_monotonic,
        evidence.stale_generation_rejected,
        evidence.recreated_generation_deleted,
        evidence.list_empty_after_delete,
        evidence.service_descriptor_inventory_restored,
        evidence.vm_processes_reaped,
        evidence.endpoint_inventory_restored,
        evidence.bundle_handoffs_clean,
        evidence.runtime_shares_clean,
        evidence.recovery_reports_clean,
        evidence.console_files_created >= 2,
        evidence.service_socket_removed,
        evidence.service_exit_success,
        evidence.reason is None,
{
}

/// Nothing but these is asked for.
pub proof fn lifecycle_gates_suffice(evidence: MacosHvfPublicLifecycleEvidence)
    requires
        evidence.host_service_pid is Some,
        evidence.socket_private,
        evidence.features_verified,
        evidence.advertised_operations@.len() == PUBLIC_OPERATION_COUNT,
        evidence.exercised_operations@ == evidence.advertised_operations@,
        evidence.bundle_handoff_staged,
        evidence.bundle_handoff_consumed,
        evidence.create_returned_created,
        evidence.create_replayed,
        evidence.state_exact_after_create,
        evidence.list_exact_after_create,
        evidence.start_returned_running,
        evidence.init_marker_verified,
        evidence.process_io_verified,
        evidence.terminal_io_verified,
        evidence.exec_lifecycle_verified,
        evidence.signal_process_verified,
        evidence.wait_process_verified,
        evidence.read_output_verified,
        evidence.write_stdin_verified,
        evidence.close_stdin_verified,
        evidence.resize_verified,
        evidence.file_transfer_verified,
        evidence.filesystem_operations_verified,
        evidence.process_inventory_verified,
        evidence.resources_updated,
        evidence.stats_verified,
        evidence.pause_verified,
        evidence.resume_verified,
        evidence.wait_timeout_enforced,
        evidence.kill_replayed,
        evidence.wait_status == Some(
            ExitStatus { exit_code: None, signal: Some(9), oom_killed: false },
        ),
        evidence.wait_replayed,
        evidence.events_verified,
        evidence.delete_replayed,
        evidence.state_removed,
        evidence.generation_monotonic,
        evidence.stale_generation_rejected,
        evidence.recreated_generation_deleted,
        evidence.list_empty_after_delete,
        evidence.service_descriptor_inventory_restored,
        evidence.vm_processes_reaped,
        evidence.endpoint_inventory_restored,
        evidence.bundle_handoffs_clean,
        evidence.runtime_shares_clean,
        evidence.recovery_reports_clean,
        evidence.console_files_created >= 2,
        evidence.service_socket_removed,
        evidence.service_exit_success,
        evidence.reason is None,
    ensures
        evidence.succeeds(),
{
}

/// A recovery from the death of an owner succeeds only where each of its gates was met.
pub proof fn owner_death_success_needs_every_gate(evidence: MacosHvfOwnerDeathEvidence)
    requires
        evidence.succeeds(),
    ensures
        evidence.first_host_service_pid is Some,
        evidence.target is Some,
        evidence.created_config_digest is Some,
        is_sha256_digest(evidence.created_config_digest->0@),
        evidence.live_vm_processes@.len() >= 2,
        evidence.host_service_sigkill_delivered,
        evidence.first_host_service_reaped,
        evidence.stale_socket_retained,
        evidence.live_vm_processes_reaped,
        evidence.endpoint_inventory_restored,
        evidence.authenticated_recovery_report_retained,
        evidence.replacement_host_service_pid is Some,
        evidence.replacement_socket_new_inode,
        evidence.replacement_connected,
        evidence.exact_stopped_state_recovered,
        evidence.process_inventory_empty,
        evidence.recovered_wait_status == Some(
            ExitStatus { exit_code: None, signal: Some(9), oom_killed: false },
        ),
        evidence.recovered_wait_replayed,
        evidence.stopped_delete_succeeded,
        evidence.durable_state_removed,
        evidence.replacement_descriptor_inventory_restored,
        evidence.bundle_handoffs_clean,
        evidence.runtime_shares_clean,
        evidence.recovery_reports_clean,
        evidence.replacement_socket_removed,
        evidence.replacement_exit_success,
        evidence.reason is None,
{
}

/// Nothing but these is asked for.
pub proof fn owner_death_gates_suffice(evidence: MacosHvfOwnerDeathEvidence)
    requires
        evidence.first_host_service_pid is Some,
        evidence.target is Some,
        evidence.created_config_digest is Some,
        is_sha256_digest(evidence.created_config_digest->0@),
        evidence.live_vm_processes@.len() >= 2,
        evidence.host_service_sigkill_delivered,
        evidence.first_host_service_reaped,
        evidence.stale_socket_retained,
        evidence.live_vm_processes_reaped,
        evidence.endpoint_inventory_restored,
        evidence.authenticated_recovery_report_retained,
        evidence.replacement_host_service_pid is Some,
        evidence.replacement_socket_new_inode,
        evidence.replacement_connected,
        evidence.exact_stopped_state_recovered,
        evidence.process_inventory_empty,
        evidence.recovered_wait_status == Some(
            ExitStatus { exit_code: None, signal: Some(9), oom_killed: false },
        ),
        evidence.recovered_wait_replayed,
        evidence.stopped_delete_succeeded,
        evidence.durable_state_removed,
        evidence.replacement_descriptor_inventory_restored,
        evidence.bundle_handoffs_clean,
        evidence.runtime_shares_clean,
        evidence.recovery_reports_clean,
        evidence.replacement_socket_removed,
        evidence.replacement_exit_success,
        evidence.reason is None,
    ensures
        evidence.succeeds(),
{
}

/// A soak succeeds only where each of its gates was met.
pub proof fn soak_success_needs_every_gate(evidence: MacosHvfPublicSoakEvidence)
    requires
        evidence.succeeds(),
    ensures
        evidence.requested_iterations >= 25,
        evidence.completed_iterations == evidence.requested_iterations,
        evidence.host_service_pid is Some,
        evidence.completed_vm_generations == evidence.requested_iterations,
        evidence.create_replays_verified == evidence.requested_iterations,
        evidence.kill_replays_verified == evidence.requested_iterations,
        evidence.wait_replays_verified == evidence.requested_iterations,
        evidence.delete_replays_verified == evidence.requested_iterations,
        evidence.generation_monotonic_every_iteration,
        evidence.stale_generation_rejected_every_iteration,
        evidence.descriptor_inventory_stable_every_iteration,
        evidence.vm_processes_reaped_every_iteration,
        evidence.endpoint_inventory_restored_every_iteration,
        evidence.transients_clean_every_iteration,
        evidence.unique_vm_processes,
        evidence.vm_processes@.len() >= evidence.requested_iterations * 2,
        evidence.console_files_created >= evidence.requested_iterations,
        evidence.service_socket_removed,
        evidence.service_exit_success,
        evidence.failure_iteration is None,
        evidence.reason is None,
{
}

/// Nothing but these is asked for.
pub proof fn soak_gates_suffice(evidence: MacosHvfPublicSoakEvidence)
    requires
        evidence.requested_iterations >= 25,
        evidence.completed_iterations == evidence.requested_iterations,
        evidence.host_service_pid is Some,
        evidence.completed_vm_generations == evidence.requested_iterations,
        evidence.create_replays_verified == evidence.requested_iterations,
        evidence.kill_replays_verified == evidence.requested_iterations,
        evidence.wait_replays_verified == evidence.requested_iterations,
        evidence.delete_replays_verified == evidence.requested_iterations,
        evidence.generation_monotonic_every_iteration,
        evidence.stale_generation_rejected_every_iteration,
        evidence.descriptor_inventory_stable_every_iteration,
        evidence.vm_processes_reaped_every_iteration,
        evidence.endpoint_inventory_restored_every_iteration,
        evidence.transients_clean_every_iteration,
        evidence.unique_vm_processes,
        evidence.vm_processes@.len() >= evidence.requested_iterations * 2,
        evidence.console_files_created >= evidence.requested_iterations,
        evidence.service_socket_removed,
        evidence.service_exit_success,
        evidence.failure_iteration is None,
        evidence.reason is None,
    ensures
        evidence.succeeds(),
{
}

/// A report succeeds only where each of its gates was met.
pub proof fn report_success_needs_every_gate(report: MacosHvfHostServiceSmokeReport)
    requires
        report.succeeds(),
    ensures
        report.schema_version@ == MACOS_HVF_HOST_SERVICE_SMOKE_SCHEMA_VERSION@,
        report.status is Available,
        report.platform is Macos,
        absolute(report.evidence_root@),
        report.artifacts.complete(),
        report.lifecycle.succeeds(),
        report.owner_death.succeeds(),
        report.soak.succeeds(),
        report.reason is None,
{
}

/// Nothing but these is asked for.
pub proof fn report_gates_suffice(report: MacosHvfHostServiceSmokeReport)
    requires
        report.schema_version@ == MACOS_HVF_HOST_SERVICE_SMOKE_SCHEMA_VERSION@,
        report.status is Available,
        report.platform is Macos,
        absolute(report.evidence_root@),
        report.artifacts.complete(),
        report.lifecycle.succeeds(),
        report.owner_death.succeeds(),
        report.soak.succeeds(),
        report.reason is None,
    ensures
        report.succeeds(),
{
}

/// Before anything was checked nothing is said of any input.
pub proof fn unchecked_artifacts_say_nothing(fresh: MacosHvfArtifactEvidence)
    requires
        fresh.blank(),
    ensures
        fresh.host_service_executable@ == Seq::<char>::empty(),
        fresh.host_service_executable_sha256@ == Seq::<char>::empty(),
        fresh.shim@ == Seq::<char>::empty(),
        fresh.shim_sha256@ == Seq::<char>::empty(),
        fresh.system_image_manifest@ == Seq::<char>::empty(),
        fresh.system_image_manifest_sha256@ == Seq::<char>::empty(),
        fresh.source_bundle@ == Seq::<char>::empty(),
        fresh.source_bundle_config_digest@ == Seq::<char>::empty(),
        fresh.source_revision@ == Seq::<char>::empty(),
{
}

/// Before anything was tried nothing is claimed: each thing that is to be shown is not
/// shown yet.
pub proof fn fresh_lifecycles_show_nothing(fresh: MacosHvfPublicLifecycleEvidence)
    requires
        fresh.shows_nothing(),
    ensures
        fresh.host_service_pid is None,
        !fresh.socket_private,
        !fresh.features_verified,
        fresh.advertised_operations@.len() == 0,
        fresh.exercised_operations@.len() == 0,
        !fresh.bundle_handoff_staged,
        !fresh.bundle_handoff_consumed,
        !fresh.create_returned_created,
        !fresh.create_replayed,
        !fresh.state_exact_after_create,
        !fresh.list_exact_after_create,
        !fresh.start_returned_running,
        !fresh.init_marker_verified,
        !fresh.process_io_verified,
        !fresh.terminal_io_verified,
        !fresh.exec_lifecycle_verified,
        !fresh.signal_process_verified,
        !fresh.wait_process_verified,
        !fresh.read_output_verified,
        !fresh.write_stdin_verified,
        !fresh.close_stdin_verified,
        !fresh.resize_verified,
        !fresh.file_transfer_verified,
        !fresh.filesystem_operations_verified,
        !fresh.process_inventory_verified,
        !fresh.resources_updated,
        !fresh.stats_verified,
        !fresh.pause_verified,
        !fresh.resume_verified,
        !fresh.wait_timeout_enforced,
        !fresh.kill_replayed,
        fresh.wait_status is None,
        !fresh.wait_replayed,
        !fresh.events_verified,
        !fresh.delete_replayed,
        !fresh.state_removed,
        !fresh.generation_monotonic,
        !fresh.stale_generation_rejected,
        !fresh.recreated_generation_deleted,
        !fresh.list_empty_after_delete,
        !fresh.service_descriptor_inventory_restored,
        fresh.open_descriptors_before is None,
        fresh.open_descriptors_after is None,
        !fresh.vm_processes_reaped,
        !fresh.endpoint_inventory_restored,
        !fresh.bundle_handoffs_clean,
        !fresh.runtime_shares_clean,
        !fresh.recovery_reports_clean,
        fresh.console_files_created == 0,
        !fresh.service_socket_removed,
        !fresh.service_exit_success,
        fresh.reason is None,
{
}

/// Before anything was tried nothing is claimed: each thing that is to be shown is not
/// shown yet.
pub proof fn fresh_owner_deaths_show_nothing(fresh: MacosHvfOwnerDeathEvidence)
    requires
        fresh.shows_nothing(),
    ensures
        fresh.first_host_service_pid is None,
        fresh.target is None,
        fresh.created_config_digest is None,
        fresh.live_vm_processes@.len() == 0,
        !fresh.host_service_sigkill_delivered,
        !fresh.first_host_service_reaped,
        !fresh.stale_socket_retained,
        !fresh.live_vm_processes_reaped,
        !fresh.endpoint_inventory_restored,
        !fresh.authenticated_recovery_report_retained,
        fresh.replacement_host_service_pid is None,
        !fresh.replacement_socket_new_inode,
        !fresh.replacement_connected,
        !fresh.exact_stopped_state_recovered,
        !fresh.process_inventory_empty,
        fresh.recovered_wait_status is None,
        !fresh.recovered_wait_replayed,
        !fresh.stopped_delete_succeeded,
        !fresh.durable_state_removed,
        !fresh.replacement_descriptor_inventory_restored,
        fresh.open_descriptors_before is None,
        fresh.open_descriptors_after is None,
        !fresh.bundle_handoffs_clean,
        !fresh.runtime_shares_clean,
        !fresh.recovery_reports_clean,
        !fresh.replacement_socket_removed,
        !fresh.replacement_exit_success,
        fresh.reason is None,
{
}

/// Before its first generation a soak has counted nothing, and nothing has gone wrong in
/// it.
pub proof fn fresh_soaks_count_nothing(fresh: MacosHvfPublicSoakEvidence, requested_iterations: u32)
    requires
        fresh.begins(requested_iterations),
    ensures
        fresh.requested_iterations == requested_iterations,
        fresh.completed_iterations == 0,
        fresh.host_service_pid is None,
        fresh.completed_vm_generations == 0,
        fresh.create_replays_verified == 0,
        fresh.kill_replays_verified == 0,
        fresh.wait_replays_verified == 0,
        fresh.delete_replays_verified == 0,
        fresh.generation_monotonic_every_iteration,
        fresh.stale_generation_rejected_every_iteration,
        fresh.descriptor_inventory_stable_every_iteration,
        fresh.steady_open_descriptors is None,
        fresh.final_open_descriptors is None,
        fresh.vm_processes_reaped_every_iteration,
        fresh.endpoint_inventory_restored_every_iteration,
        fresh.transients_clean_every_iteration,
        fresh.unique_vm_processes,
        fresh.vm_processes@.len() == 0,
        fresh.console_files_created == 0,
        !fresh.service_socket_removed,
        !fresh.service_exit_success,
        fresh.failure_iteration is None,
        fresh.reason is None,
{
}

/// Before anything was tried nothing is claimed: each thing that is to be shown is not
/// shown yet.
pub proof fn fresh_reports_claim_nothing(
    fresh: MacosHvfHostServiceSmokeReport,
    evidence_root: String,
    requested_iterations: u32,
)
    requires
        fresh.begins(evidence_root, requested_iterations),
    ensures
        fresh.schema_version@ == MACOS_HVF_HOST_SERVICE_SMOKE_SCHEMA_VERSION@,
        fresh.status is Unavailable,
        fresh.platform is Macos,
        fresh.evidence_root == evidence_root,
        fresh.artifacts.blank(),
        fresh.lifecycle.shows_nothing(),
        fresh.owner_death.shows_nothing(),
        fresh.soak.begins(requested_iterations),
        fresh.reason is None,
{
}

/// Each process is a node under its own number, below the number of its parent, and is
/// one life: a number that is used again later is another.
pub proof fn nodes_and_lives_are_the_processes(
    all: Seq<MacosProcessIdentity>,
    place: int,
    other: MacosProcessIdentity,
)
    requires
        0 <= place < all.len(),
    ensures
        macos_nodes(all).len() == all.len(),
        macos_nodes(all)[place].pid == all[place].pid,
        macos_nodes(all)[place].parent_pid == all[place].parent_pid,
        macos_incarnation(all[place]) == macos_incarnation(other) <==> all[place].pid == other.pid
            && all[place].start_time_unix_us == other.start_time_unix_us,
{
}

} // verus!
