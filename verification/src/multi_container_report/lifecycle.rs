//! Two containers that live beside each other: what has to hold of them, and the
//! reports of it.

use vstd::prelude::*;
use crate::model::{is_killed, killed_status, CapabilityStatus, ExitStatus, HostPlatform};
use crate::operations::{same_operations, RuntimeOperation};

verus! {

/// The version of the native report.
pub const NATIVE_LINUX_MULTI_CONTAINER_SCHEMA_VERSION: &'static str =
    "a3s.oci.native-linux-multi-container-smoke.v2";

/// The version of the report of a utility machine.
pub const OCI_VM_MULTI_CONTAINER_SCHEMA_VERSION: &'static str =
    "a3s.oci.oci-vm-multi-container-smoke.v2";

/// A status that tells one way in which a process ended.
pub open spec fn valid_status(status: ExitStatus) -> bool {
    status.exit_code is Some <==> status.signal is None
}

fn has_valid_status(status: &Option<ExitStatus>) -> (holds: bool)
    ensures
        holds == (*status is Some && valid_status(status->0)),
{
    match status {
        Some(status) => status.exit_code.is_some() == status.signal.is_none(),
        None => false,
    }
}

fn same_status(left: &Option<ExitStatus>, right: &Option<ExitStatus>) -> (same: bool)
    ensures
        same == (*left == *right),
{
    match (left, right) {
        (Some(left), Some(right)) => *left == *right,
        (None, None) => true,
        _ => false,
    }
}

fn is_number(number: Option<u64>, expected: u64) -> (holds: bool)
    ensures
        holds == (number == Some(expected)),
{
    match number {
        Some(number) => number == expected,
        None => false,
    }
}

fn is_positive(pid: Option<i32>) -> (holds: bool)
    ensures
        holds == (pid is Some && pid->0 > 0),
{
    match pid {
        Some(pid) => pid > 0,
        None => false,
    }
}

/// What two containers that live beside each other have shown.
#[derive(Clone, Debug)]
pub struct MultiContainerLifecycleEvidence {
    pub distinct_bundle_directories: bool,
    pub distinct_rootfs_directories: bool,
    pub both_created_before_start: bool,
    pub initial_generation_a: Option<u64>,
    pub initial_generation_b: Option<u64>,
    pub recreated_generation_a: Option<u64>,
    pub created_pid_a: Option<i32>,
    pub created_pid_b: Option<i32>,
    pub distinct_created_pids: bool,
    pub create_replays_exact: bool,
    pub both_markers_absent_before_start: bool,
    pub start_a_replayed: bool,
    pub marker_a_verified: bool,
    pub b_unchanged_after_a_start: bool,
    pub marker_b_absent_after_a_start: bool,
    pub wait_a_did_not_block_b: bool,
    pub kill_a_replayed: bool,
    pub a_stopped: bool,
    pub wait_status_a: Option<ExitStatus>,
    pub wait_a_replayed: bool,
    pub b_unchanged_after_a_kill: bool,
    pub marker_b_absent_after_a_kill: bool,
    pub delete_a_replayed: bool,
    pub a_missing_after_delete: bool,
    pub b_unchanged_after_a_delete: bool,
    pub stale_generation_rejected: bool,
    pub generation_a_monotonic: bool,
    pub recreate_a_replayed: bool,
    pub marker_a_absent_after_recreate: bool,
    pub cross_container_operation_rejected: bool,
    pub b_unchanged_after_replay_conflict: bool,
    pub recreated_a_deleted: bool,
    pub start_b_replayed: bool,
    pub marker_b_verified: bool,
    pub kill_b_replayed: bool,
    pub b_stopped: bool,
    pub wait_status_b: Option<ExitStatus>,
    pub wait_b_replayed: bool,
    pub delete_b_replayed: bool,
    pub b_missing_after_delete: bool,
}

impl Default for MultiContainerLifecycleEvidence {
    fn default() -> (evidence: MultiContainerLifecycleEvidence)
        ensures
            evidence.shows_nothing(),
    {
        MultiContainerLifecycleEvidence {
            distinct_bundle_directories: false,
            distinct_rootfs_directories: false,
            both_created_before_start: false,
            initial_generation_a: None,
            initial_generation_b: None,
            recreated_generation_a: None,
            created_pid_a: None,
            created_pid_b: None,
            distinct_created_pids: false,
            create_replays_exact: false,
            both_markers_absent_before_start: false,
            start_a_replayed: false,
            marker_a_verified: false,
            b_unchanged_after_a_start: false,
            marker_b_absent_after_a_start: false,
            wait_a_did_not_block_b: false,
            kill_a_replayed: false,
            a_stopped: false,
            wait_status_a: None,
            wait_a_replayed: false,
            b_unchanged_after_a_kill: false,
            marker_b_absent_after_a_kill: false,
            delete_a_replayed: false,
            a_missing_after_delete: false,
            b_unchanged_after_a_delete: false,
            stale_generation_rejected: false,
            generation_a_monotonic: false,
            recreate_a_replayed: false,
            marker_a_absent_after_recreate: false,
            cross_container_operation_rejected: false,
            b_unchanged_after_replay_conflict: false,
            recreated_a_deleted: false,
            start_b_replayed: false,
            marker_b_verified: false,
            kill_b_replayed: false,
            b_stopped: false,
            wait_status_b: None,
            wait_b_replayed: false,
            delete_b_replayed: false,
            b_missing_after_delete: false,
        }
    }
}

impl MultiContainerLifecycleEvidence {
    /// Whether nothing was shown yet.
    pub open spec fn shows_nothing(self) -> bool {
        &&& !self.distinct_bundle_directories
        &&& !self.distinct_rootfs_directories
        &&& !self.both_created_before_start
        &&& self.initial_generation_a is None
        &&& self.initial_generation_b is None
        &&& self.recreated_generation_a is None
        &&& self.created_pid_a is None
        &&& self.created_pid_b is None
        &&& !self.distinct_created_pids
        &&& !self.create_replays_exact
        &&& !self.both_markers_absent_before_start
        &&& !self.start_a_replayed
        &&& !self.marker_a_verified
        &&& !self.b_unchanged_after_a_start
        &&& !self.marker_b_absent_after_a_start
        &&& !self.wait_a_did_not_block_b
        &&& !self.kill_a_replayed
        &&& !self.a_stopped
        &&& self.wait_status_a is None
        &&& !self.wait_a_replayed
        &&& !self.b_unchanged_after_a_kill
        &&& !self.marker_b_absent_after_a_kill
        &&& !self.delete_a_replayed
        &&& !self.a_missing_after_delete
        &&& !self.b_unchanged_after_a_delete
        &&& !self.stale_generation_rejected
        &&& !self.generation_a_monotonic
        &&& !self.recreate_a_replayed
        &&& !self.marker_a_absent_after_recreate
        &&& !self.cross_container_operation_rejected
        &&& !self.b_unchanged_after_replay_conflict
        &&& !self.recreated_a_deleted
        &&& !self.start_b_replayed
        &&& !self.marker_b_verified
        &&& !self.kill_b_replayed
        &&& !self.b_stopped
        &&& self.wait_status_b is None
        &&& !self.wait_b_replayed
        &&& !self.delete_b_replayed
        &&& !self.b_missing_after_delete
    }

    /// Whether every invariant of two containers was shown.
    pub open spec fn succeeds(self) -> bool {
        &&& self.distinct_bundle_directories
        &&& self.distinct_rootfs_directories
        &&& self.both_created_before_start
        &&& self.initial_generation_a == Some(1u64)
        &&& self.initial_generation_b == Some(1u64)
        &&& self.recreated_generation_a == Some(2u64)
        &&& self.created_pid_a is Some && self.created_pid_a->0 > 0
        &&& self.created_pid_b is Some && self.created_pid_b->0 > 0
        &&& self.distinct_created_pids
        &&& self.create_replays_exact
        &&& self.both_markers_absent_before_start
        &&& self.start_a_replayed
        &&& self.marker_a_verified
        &&& self.b_unchanged_after_a_start
        &&& self.marker_b_absent_after_a_start
        &&& self.wait_a_did_not_block_b
        &&& self.kill_a_replayed
        &&& self.a_stopped
        &&& self.wait_status_a is Some && valid_status(self.wait_status_a->0)
        &&& self.wait_a_replayed
        &&& self.b_unchanged_after_a_kill
        &&& self.marker_b_absent_after_a_kill
        &&& self.delete_a_replayed
        &&& self.a_missing_after_delete
        &&& self.b_unchanged_after_a_delete
        &&& self.stale_generation_rejected
        &&& self.generation_a_monotonic
        &&& self.recreate_a_replayed
        &&& self.marker_a_absent_after_recreate
        &&& self.cross_container_operation_rejected
        &&& self.b_unchanged_after_replay_conflict
        &&& self.recreated_a_deleted
        &&& self.start_b_replayed
        &&& self.marker_b_verified
        &&& self.kill_b_replayed
        &&& self.b_stopped
        &&& self.wait_status_b is Some && valid_status(self.wait_status_b->0) && self.wait_status_a
            == self.wait_status_b
        &&& self.wait_b_replayed
        &&& self.delete_b_replayed
        &&& self.b_missing_after_delete
    }

    /// Whether the evidence is that of a success.
    pub fn is_success(&self) -> (holds: bool)
        ensures
            holds == self.succeeds(),
    {
        let first = self.distinct_bundle_directories && self.distinct_rootfs_directories
            && self.both_created_before_start && is_number(self.initial_generation_a, 1)
            && is_number(self.initial_generation_b, 1)
            && is_number(self.recreated_generation_a, 2)
            && is_positive(self.created_pid_a) && is_positive(self.created_pid_b)
            && self.distinct_created_pids && self.create_replays_exact
            && self.both_markers_absent_before_start && self.start_a_replayed
            && self.marker_a_verified && self.b_unchanged_after_a_start;
        let second = self.marker_b_absent_after_a_start && self.wait_a_did_not_block_b
            && self.kill_a_replayed && self.a_stopped
            && has_valid_status(&self.wait_status_a) && self.wait_a_replayed
            && self.b_unchanged_after_a_kill && self.marker_b_absent_after_a_kill
            && self.delete_a_replayed && self.a_missing_after_delete
            && self.b_unchanged_after_a_delete && self.stale_generation_rejected
            && self.generation_a_monotonic && self.recreate_a_replayed;
        let third = self.marker_a_absent_after_recreate && self.cross_container_operation_rejected
            && self.b_unchanged_after_replay_conflict && self.recreated_a_deleted
            && self.start_b_replayed && self.marker_b_verified && self.kill_b_replayed
            && self.b_stopped && has_valid_status(&self.wait_status_b)
            && same_status(&self.wait_status_a, &self.wait_status_b)
            && self.wait_b_replayed && self.delete_b_replayed
            && self.b_missing_after_delete;
        first && second && third
    }
}

/// The report of two containers on a native Linux host.
#[derive(Clone, Debug)]
pub struct NativeLinuxMultiContainerSmokeReport {
    pub schema_version: String,
    pub platform: HostPlatform,
    pub status: CapabilityStatus,
    pub kvm_device_present: bool,
    pub bundles_loaded: bool,
    pub service_operations: Vec<RuntimeOperation>,
    pub lifecycle: MultiContainerLifecycleEvidence,
    pub markers_removed: bool,
    pub executor_runtime_clean: bool,
    pub session_root_clean: bool,
    pub reason: Option<String>,
}

/// The operations that a native host service offers.
pub open spec fn native_operations() -> Seq<RuntimeOperation> {
    seq![
        RuntimeOperation::Features,
        RuntimeOperation::Create,
        RuntimeOperation::State,
        RuntimeOperation::Start,
        RuntimeOperation::Kill,
        RuntimeOperation::Delete,
        RuntimeOperation::Wait,
    ]
}

fn list_native_operations() -> (operations: Vec<RuntimeOperation>)
    ensures
        operations@ == native_operations(),
{
    let mut operations: Vec<RuntimeOperation> = Vec::new();
    operations.push(RuntimeOperation::Features);
    operations.push(RuntimeOperation::Create);
    operations.push(RuntimeOperation::State);
    operations.push(RuntimeOperation::Start);
    operations.push(RuntimeOperation::Kill);
    operations.push(RuntimeOperation::Delete);
    operations.push(RuntimeOperation::Wait);
    assert(operations@ =~= native_operations());
    operations
}

impl NativeLinuxMultiContainerSmokeReport {
    /// Whether nothing was tried on a host.
    pub open spec fn claims_nothing(self, platform: HostPlatform) -> bool {
        &&& self.schema_version@ == NATIVE_LINUX_MULTI_CONTAINER_SCHEMA_VERSION@
        &&& self.platform == platform
        &&& !self.kvm_device_present
        &&& !self.bundles_loaded
        &&& self.service_operations@.len() == 0
        &&& self.lifecycle.shows_nothing()
        &&& !self.markers_removed
        &&& !self.executor_runtime_clean
        &&& !self.session_root_clean
    }

    /// A report before anything was tried.
    pub fn initial(platform: HostPlatform) -> (report: NativeLinuxMultiContainerSmokeReport)
        ensures
            report.claims_nothing(platform),
            report.status is Unavailable,
            report.reason is None,
            !report.succeeds(),
    {
        NativeLinuxMultiContainerSmokeReport {
            schema_version: NATIVE_LINUX_MULTI_CONTAINER_SCHEMA_VERSION.to_owned(),
            platform,
            status: CapabilityStatus::Unavailable,
            kvm_device_present: false,
            bundles_loaded: false,
            service_operations: Vec::new(),
            lifecycle: MultiContainerLifecycleEvidence::default(),
            markers_removed: false,
            executor_runtime_clean: false,
            session_root_clean: false,
            reason: None,
        }
    }

    /// The report of a host that is no Linux host.
    pub fn unsupported(platform: HostPlatform) -> (report: NativeLinuxMultiContainerSmokeReport)
        ensures
            report.claims_nothing(platform),
            report.status is Unsupported,
            report.reason is Some,
            report.reason->0@
                == "the native multi-container diagnostic requires a Linux host"@,
            !report.succeeds(),
    {
        NativeLinuxMultiContainerSmokeReport {
            status: CapabilityStatus::Unsupported,
            reason: Some(
                "the native multi-container diagnostic requires a Linux host".to_owned(),
            ),
            ..NativeLinuxMultiContainerSmokeReport::initial(platform)
        }
    }

    /// Whether both containers were killed as they had to be and nothing is left of
    /// them.
    pub open spec fn shown(self) -> bool {
        &&& self.bundles_loaded
        &&& self.service_operations@ == native_operations()
        &&& self.lifecycle.succeeds()
        &&& self.lifecycle.wait_status_a == Some(killed_status())
        &&& self.lifecycle.wait_status_b == self.lifecycle.wait_status_a
        &&& self.markers_removed
        &&& self.executor_runtime_clean
        &&& self.session_root_clean
    }

    /// Whether both containers were killed as they had to be and nothing is left of
    /// them.
    pub fn evidence_succeeded(&self) -> (holds: bool)
        ensures
            holds == self.shown(),
    {
        self.bundles_loaded && same_operations(&self.service_operations, &list_native_operations())
            && self.lifecycle.is_success() && is_killed(&self.lifecycle.wait_status_a)
            && self.markers_removed && self.executor_runtime_clean && self.session_root_clean
    }

    /// Whether the report is that of a success.
    pub open spec fn succeeds(self) -> bool {
        self.status is Available && self.shown() && self.reason is None
    }

    /// Whether the report is that of a success.
    pub fn is_success(&self) -> (holds: bool)
        ensures
            holds == self.succeeds(),
    {
        self.status == CapabilityStatus::Available && self.evidence_succeeded()
            && self.reason.is_none()
    }
}

/// What the bridge to the agent of a utility machine came to.
#[derive(Clone, Debug)]
pub struct BridgeReport {
    pub status: CapabilityStatus,
    pub succeeded: bool,
    pub reason: Option<String>,
}

/// The report of two containers inside one utility machine.
#[derive(Clone, Debug)]
pub struct OciVmMultiContainerSmokeReport {
    pub schema_version: String,
    pub platform: HostPlatform,
    pub status: CapabilityStatus,
    pub bundles_loaded: bool,
    pub lifecycle: MultiContainerLifecycleEvidence,
    pub markers_removed: bool,
    pub guest_runtime_clean: bool,
    pub bridge: BridgeReport,
    pub reason: Option<String>,
}

/// Ending by itself without a failure.
pub open spec fn clean_exit() -> ExitStatus {
    ExitStatus { exit_code: Some(0), signal: None, oom_killed: false }
}

fn is_clean_exit(status: &Option<ExitStatus>) -> (holds: bool)
    ensures
        holds == (*status == Some(clean_exit())),
{
    match status {
        Some(status) => *status == ExitStatus::exited(0),
        None => false,
    }
}

/// Why a host without a utility machine is not tried.
pub const MACHINE_REQUIRED: &'static str =
    "the utility-VM multi-container diagnostic is implemented only for Windows x86_64/WHPX and macOS aarch64/HVF";

impl OciVmMultiContainerSmokeReport {
    /// Whether nothing was tried on a host.
    pub open spec fn claims_nothing(self, platform: HostPlatform) -> bool {
        &&& self.schema_version@ == OCI_VM_MULTI_CONTAINER_SCHEMA_VERSION@
        &&& self.platform == platform
        &&& !self.bundles_loaded
        &&& self.lifecycle.shows_nothing()
        &&& !self.markers_removed
        &&& !self.guest_runtime_clean
    }

    /// A report before anything was tried.
    pub fn initial(platform: HostPlatform) -> (report: OciVmMultiContainerSmokeReport)
        ensures
            report.claims_nothing(platform),
            report.status is Unavailable,
            report.bridge == (BridgeReport {
                status: CapabilityStatus::Unavailable,
                succeeded: false,
                reason: None,
            }),
            report.reason is None,
            !report.succeeds(),
    {
        OciVmMultiContainerSmokeReport {
            schema_version: OCI_VM_MULTI_CONTAINER_SCHEMA_VERSION.to_owned(),
            platform,
            status: CapabilityStatus::Unavailable,
            bundles_loaded: false,
            lifecycle: MultiContainerLifecycleEvidence::default(),
            markers_removed: false,
            guest_runtime_clean: false,
            bridge: BridgeReport {
                status: CapabilityStatus::Unavailable,
                succeeded: false,
                reason: None,
            },
            reason: None,
        }
    }

    /// The report of a host without a utility machine.
    pub fn unsupported(platform: HostPlatform) -> (report: OciVmMultiContainerSmokeReport)
        ensures
            report.claims_nothing(platform),
            report.status is Unsupported,
            report.bridge.status is Unsupported,
            !report.bridge.succeeded,
            report.bridge.reason is Some,
            report.bridge.reason->0@ == "the authenticated guest bridge was not attempted"@,
            report.reason is Some,
            report.reason->0@ == MACHINE_REQUIRED@,
            !report.succeeds(),
    {
        OciVmMultiContainerSmokeReport {
            status: CapabilityStatus::Unsupported,
            bridge: BridgeReport {
                status: CapabilityStatus::Unsupported,
                succeeded: false,
                reason: Some("the authenticated guest bridge was not attempted".to_owned()),
            },
            reason: Some(MACHINE_REQUIRED.to_owned()),
            ..OciVmMultiContainerSmokeReport::initial(platform)
        }
    }

    /// Whether both containers ended by themselves and nothing is left of them.
    pub open spec fn shown(self) -> bool {
        &&& self.bundles_loaded
        &&& self.lifecycle.succeeds()
        &&& self.lifecycle.wait_status_a == Some(clean_exit())
        &&& self.lifecycle.wait_status_b == self.lifecycle.wait_status_a
        &&& self.markers_removed
        &&& self.guest_runtime_clean
        &&& self.bridge.succeeded
    }

    /// Whether both containers ended by themselves and nothing is left of them.
    pub fn evidence_succeeded(&self) -> (holds: bool)
        ensures
            holds == self.shown(),
    {
        self.bundles_loaded && self.lifecycle.is_success() && is_clean_exit(
            &self.lifecycle.wait_status_a,
        ) && self.markers_removed && self.guest_runtime_clean && self.bridge.succeeded
    }

    /// Whether the report is that of a success.
    pub open spec fn succeeds(self) -> bool {
        self.status is Available && self.shown() && self.reason is None
    }

    /// Whether the report is that of a success.
    pub fn is_success(&self) -> (holds: bool)
        ensures
            holds == self.succeeds(),
    {
        self.status == CapabilityStatus::Available && self.evidence_succeeded()
            && self.reason.is_none()
    }
}

/// Two containers that were told apart by generation and process stay so: the
/// second generation of the first follows its first, and both end the same way.
pub proof fn containers_are_told_apart(evidence: MultiContainerLifecycleEvidence)
    requires
        evidence.succeeds(),
    ensures
        evidence.recreated_generation_a->0 == evidence.initial_generation_a->0 + 1,
        evidence.wait_status_a == evidence.wait_status_b,
        evidence.b_unchanged_after_a_start,
        evidence.b_unchanged_after_a_kill,
        evidence.b_unchanged_after_a_delete,
        evidence.b_unchanged_after_replay_conflict,
{
}

/// Two containers have lived beside each other only where each of the gates was met.
pub proof fn lifecycle_success_needs_every_gate(evidence: MultiContainerLifecycleEvidence)
    requires
        evidence.succeeds(),
    ensures
        evidence.distinct_bundle_directories,
        evidence.distinct_rootfs_directories,
        evidence.both_created_before_start,
        evidence.initial_generation_a == Some(1u64),
        evidence.initial_generation_b == Some(1u64),
        evidence.recreated_generation_a == Some(2u64),
        evidence.created_pid_a is Some,
        evidence.created_pid_a->0 > 0,
        evidence.created_pid_b is Some,
        evidence.created_pid_b->0 > 0,
        evidence.distinct_created_pids,
        evidence.create_replays_exact,
        evidence.both_markers_absent_before_start,
        evidence.start_a_replayed,
        evidence.marker_a_verified,
        evidence.b_unchanged_after_a_start,
        evidence.marker_b_absent_after_a_start,
        evidence.wait_a_did_not_block_b,
        evidence.kill_a_replayed,
        evidence.a_stopped,
        evidence.wait_status_a is Some,
        valid_status(evidence.wait_status_a->0),
        evidence.wait_a_replayed,
        evidence.b_unchanged_after_a_kill,
        evidence.marker_b_absent_after_a_kill,
        evidence.delete_a_replayed,
        evidence.a_missing_after_delete,
        evidence.b_unchanged_after_a_delete,
        evidence.stale_generation_rejected,
        evidence.generation_a_monotonic,
        evidence.recreate_a_replayed,
        evidence.marker_a_absent_after_recreate,
        evidence.cross_container_operation_rejected,
        evidence.b_unchanged_after_replay_conflict,
        evidence.recreated_a_deleted,
        evidence.start_b_replayed,
        evidence.marker_b_verified,
        evidence.kill_b_replayed,
        evidence.b_stopped,
        evidence.wait_status_b is Some,
        valid_status(evidence.wait_status_b->0),
        evidence.wait_status_a == evidence.wait_status_b,
        evidence.wait_b_replayed,
        evidence.delete_b_replayed,
        evidence.b_missing_after_delete,
{
}

/// Nothing but these is asked for.
pub proof fn lifecycle_gates_suffice(evidence: MultiContainerLifecycleEvidence)
    requires
        evidence.distinct_bundle_directories,
        evidence.distinct_rootfs_directories,
        evidence.both_created_before_start,
        evidence.initial_generation_a == Some(1u64),
        evidence.initial_generation_b == Some(1u64),
        evidence.recreated_generation_a == Some(2u64),
        evidence.created_pid_a is Some,
        evidence.created_pid_a->0 > 0,
        evidence.created_pid_b is Some,
        evidence.created_pid_b->0 > 0,
        evidence.distinct_created_pids,
        evidence.create_replays_exact,
        evidence.both_markers_absent_before_start,
        evidence.start_a_replayed,
        evidence.marker_a_verified,
        evidence.b_unchanged_after_a_start,
        evidence.marker_b_absent_after_a_start,
        evidence.wait_a_did_not_block_b,
        evidence.kill_a_replayed,
        evidence.a_stopped,
        evidence.wait_status_a is Some,
        valid_status(evidence.wait_status_a->0),
        evidence.wait_a_replayed,
        evidence.b_unchanged_after_a_kill,
        evidence.marker_b_absent_after_a_kill,
        evidence.delete_a_replayed,
        evidence.a_missing_after_delete,
        evidence.b_unchanged_after_a_delete,
        evidence.stale_generation_rejected,
        evidence.generation_a_monotonic,
        evidence.recreate_a_replayed,
        evidence.marker_a_absent_after_recreate,
        evidence.cross_container_operation_rejected,
        evidence.b_unchanged_after_replay_conflict,
        evidence.recreated_a_deleted,
        evidence.start_b_replayed,
        evidence.marker_b_verified,
        evidence.kill_b_replayed,
        evidence.b_stopped,
        evidence.wait_status_b is Some,
        valid_status(evidence.wait_status_b->0),
        evidence.wait_status_a == evidence.wait_status_b,
        evidence.wait_b_replayed,
        evidence.delete_b_replayed,
        evidence.b_missing_after_delete,
    ensures
        evidence.succeeds(),
{
}

/// A native qualification of two containers succeeds only where each of its gates was met.
pub proof fn native_success_needs_every_gate(report: NativeLinuxMultiContainerSmokeReport)
    requires
        report.succeeds(),
    ensures
        report.status is Available,
        report.bundles_loaded,
        report.service_operations@ == native_operations(),
        report.lifecycle.succeeds(),
        report.lifecycle.wait_status_a == Some(
            ExitStatus { exit_code: None, signal: Some(9), oom_killed: false },
        ),
        report.lifecycle.wait_status_b == report.lifecycle.wait_status_a,
        report.markers_removed,
        report.executor_runtime_clean,
        report.session_root_clean,
        report.reason is None,
{
}

/// Nothing but these is asked for.
pub proof fn native_gates_suffice(report: NativeLinuxMultiContainerSmokeReport)
    requires
        report.status is Available,
        report.bundles_loaded,
        report.service_operations@ == native_operations(),
        report.lifecycle.succeeds(),
        report.lifecycle.wait_status_a == Some(
            ExitStatus { exit_code: None, signal: Some(9), oom_killed: false },
        ),
        report.lifecycle.wait_status_b == report.lifecycle.wait_status_a,
        report.markers_removed,
        report.executor_runtime_clean,
        report.session_root_clean,
        report.reason is None,
    ensures
        report.succeeds(),
{
}

/// A qualification of two containers in a machine succeeds only where each of its gates was
/// met.
pub proof fn machine_success_needs_every_gate(report: OciVmMultiContainerSmokeReport)
    requires
        report.succeeds(),
    ensures
        report.status is Available,
        report.bundles_loaded,
        report.lifecycle.succeeds(),
        report.lifecycle.wait_status_a == Some(clean_exit()),
        report.lifecycle.wait_status_b == report.lifecycle.wait_status_a,
        report.markers_removed,
        report.guest_runtime_clean,
        report.bridge.succeeded,
        report.reason is None,
{
}

/// Nothing but these is asked for.
pub proof fn machine_gates_suffice(report: OciVmMultiContainerSmokeReport)
    requires
        report.status is Available,
        report.bundles_loaded,
        report.lifecycle.succeeds(),
        report.lifecycle.wait_status_a == Some(clean_exit()),
        report.lifecycle.wait_status_b == report.lifecycle.wait_status_a,
        report.markers_removed,
        report.guest_runtime_clean,
        report.bridge.succeeded,
        report.reason is None,
    ensures
        report.succeeds(),
{
}

/// Before anything was tried nothing is claimed: each thing that is to be shown is not
/// shown yet.
pub proof fn fresh_lifecycles_show_nothing(fresh: MultiContainerLifecycleEvidence)
    requires
        fresh.shows_nothing(),
    ensures
        !fresh.distinct_bundle_directories,
        !fresh.distinct_rootfs_directories,
        !fresh.both_created_before_start,
        fresh.initial_generation_a is None,
        fresh.initial_generation_b is None,
        fresh.recreated_generation_a is None,
        fresh.created_pid_a is None,
        fresh.created_pid_b is None,
        !fresh.distinct_created_pids,
        !fresh.create_replays_exact,
        !fresh.both_markers_absent_before_start,
        !fresh.start_a_replayed,
        !fresh.marker_a_verified,
        !fresh.b_unchanged_after_a_start,
        !fresh.marker_b_absent_after_a_start,
        !fresh.wait_a_did_not_block_b,
        !fresh.kill_a_replayed,
        !fresh.a_stopped,
        fresh.wait_status_a is None,
        !fresh.wait_a_replayed,
        !fresh.b_unchanged_after_a_kill,
        !fresh.marker_b_absent_after_a_kill,
        !fresh.delete_a_replayed,
        !fresh.a_missing_after_delete,
        !fresh.b_unchanged_after_a_delete,
        !fresh.stale_generation_rejected,
        !fresh.generation_a_monotonic,
        !fresh.recreate_a_replayed,
        !fresh.marker_a_absent_after_recreate,
        !fresh.cross_container_operation_rejected,
        !fresh.b_unchanged_after_replay_conflict,
        !fresh.recreated_a_deleted,
        !fresh.start_b_replayed,
        !fresh.marker_b_verified,
        !fresh.kill_b_replayed,
        !fresh.b_stopped,
        fresh.wait_status_b is None,
        !fresh.wait_b_replayed,
        !fresh.delete_b_replayed,
        !fresh.b_missing_after_delete,
{
}

/// Before anything was tried nothing is claimed: each thing that is to be shown is not
/// shown yet.
pub proof fn fresh_native_reports_claim_nothing(
    fresh: NativeLinuxMultiContainerSmokeReport,
    platform: HostPlatform,
)
    requires
        fresh.claims_nothing(platform),
    ensures
        fresh.schema_version@ == NATIVE_LINUX_MULTI_CONTAINER_SCHEMA_VERSION@,
        fresh.platform == platform,
        !fresh.kvm_device_present,
        !fresh.bundles_loaded,
        fresh.service_operations@.len() == 0,
        fresh.lifecycle.shows_nothing(),
        !fresh.markers_removed,
        !fresh.executor_runtime_clean,
        !fresh.session_root_clean,
{
}

/// Before anything was tried nothing is claimed: each thing that is to be shown is not
/// shown yet.
pub proof fn fresh_vm_reports_claim_nothing(
    fresh: OciVmMultiContainerSmokeReport,
    platform: HostPlatform,
)
    requires
        fresh.claims_nothing(platform),
    ensures
        fresh.schema_version@ == OCI_VM_MULTI_CONTAINER_SCHEMA_VERSION@,
        fresh.platform == platform,
        !fresh.bundles_loaded,
        fresh.lifecycle.shows_nothing(),
        !fresh.markers_removed,
        !fresh.guest_runtime_clean,
{
}

/// A process ended in one way: by itself with a code, or by a signal, never both and never
/// neither.
pub proof fn statuses_tell_one_ending(status: ExitStatus)
    ensures
        valid_status(status) <==> (status.exit_code is Some) != (status.signal is Some),
        valid_status(ExitStatus { exit_code: None, signal: Some(9), oom_killed: false }),
        valid_status(ExitStatus { exit_code: Some(0), signal: None, oom_killed: false }),
{
}

/// A native report succeeds only with the seven operations of its service, in their order,
/// and with both containers killed; one of a machine only with both ended by themselves.
pub proof fn reports_need_their_own_ending(
    native: NativeLinuxMultiContainerSmokeReport,
    machine: OciVmMultiContainerSmokeReport,
)
    ensures
        native.succeeds() ==> native.service_operations@ == seq![
            RuntimeOperation::Features,
            RuntimeOperation::Create,
            RuntimeOperation::State,
            RuntimeOperation::Start,
            RuntimeOperation::Kill,
            RuntimeOperation::Delete,
            RuntimeOperation::Wait,
        ],
        native.succeeds() ==> native.lifecycle.wait_status_a == Some(
            ExitStatus { exit_code: None, signal: Some(9), oom_killed: false },
        ) && native.lifecycle.wait_status_b == native.lifecycle.wait_status_a,
        machine.succeeds() ==> machine.lifecycle.wait_status_a == Some(
            ExitStatus { exit_code: Some(0), signal: None, oom_killed: false },
        ) && machine.lifecycle.wait_status_b == machine.lifecycle.wait_status_a,
        machine.succeeds() ==> machine.bridge.succeeded,
{
}

} // verus!
