//! Safe recovery of a native Linux container whose owner died: what the owner
//! publishes before, and what its replacement has to show.

use vstd::prelude::*;
use crate::error::{Error, ErrorCode};
use crate::model::{CapabilityStatus, ContainerState, ContainerTarget, HostPlatform};
use crate::native_checkpoint::operation::ErrorView;
use crate::native_checkpoint::state::FileKind;
use crate::native_linux_driver::{DriverState, OpenMode};
use crate::text::{contains, contains_text, optional_view, starts_with_text, text_eq};

verus! {

/// The version of what an owner publishes when it is ready.
pub const NATIVE_LINUX_RECOVERY_OWNER_READY_SCHEMA_VERSION: &'static str =
    "a3s.oci.native-linux-recovery-owner-ready.v3";

/// The version of the report.
pub const NATIVE_LINUX_RECOVERY_SMOKE_SCHEMA_VERSION: &'static str =
    "a3s.oci.native-linux-recovery-smoke.v2";

/// The point of its lifecycle at which an owner is killed.
#[derive(Clone, Copy, Debug, PartialEq, Eq, Structural)]
pub enum NativeLinuxRecoveryPoint {
    Running,
    StartContainerHook,
}

/// What an owner publishes when it may be killed.
#[derive(Clone, Debug)]
pub struct NativeLinuxRecoveryOwnerReady {
    pub schema_version: String,
    pub status: CapabilityStatus,
    pub platform: HostPlatform,
    pub target: ContainerTarget,
    pub config_digest: String,
    pub recovery_point: NativeLinuxRecoveryPoint,
    pub owner_pid: u32,
    pub owner_start_time_ticks: u64,
    pub init_pid: i32,
    pub effective_uid: u32,
    pub effective_gid: u32,
    pub cgroup_delegation_requested: bool,
    pub cgroup_delegation_verified: bool,
    pub running_observed: bool,
}

/// What the recovery of a container has shown.
#[derive(Clone, Debug)]
pub struct NativeLinuxRecoverySmokeReport {
    pub schema_version: String,
    pub status: CapabilityStatus,
    pub platform: HostPlatform,
    pub target: ContainerTarget,
    pub replacement_owner_pid: u32,
    pub replacement_effective_uid: u32,
    pub replacement_effective_gid: u32,
    pub cgroup_delegation_requested: bool,
    pub cgroup_delegation_verified: bool,
    pub bundle_loaded: bool,
    pub host_service_reopened: bool,
    pub recorded_workload_terminated: bool,
    pub stopped_observed: bool,
    pub process_inventory_empty: bool,
    pub kill_idempotent: bool,
    pub exact_wait_evidence_refused: bool,
    pub stopped_delete_succeeded: bool,
    pub durable_record_removed: bool,
    pub current_driver_shutdown: bool,
    pub executor_transients_clean: bool,
    pub cgroup_delegation_clean: bool,
    pub reason: Option<String>,
}

/// The process that replaces a dead owner.
#[derive(Clone, Copy, Debug, PartialEq, Eq, Structural)]
pub struct Replacement {
    pub pid: u32,
    pub effective_uid: u32,
    pub effective_gid: u32,
}

impl NativeLinuxRecoverySmokeReport {
    /// Whether this is a report before anything was tried.
    pub open spec fn begins(
        self,
        target: ContainerTarget,
        cgroup_delegation_requested: bool,
        replacement: Replacement,
    ) -> bool {
        &&& self.schema_version@ == NATIVE_LINUX_RECOVERY_SMOKE_SCHEMA_VERSION@
        &&& self == (NativeLinuxRecoverySmokeReport {
            schema_version: self.schema_version,
            status: CapabilityStatus::Unavailable,
            platform: HostPlatform::Linux,
            target,
            replacement_owner_pid: replacement.pid,
            replacement_effective_uid: replacement.effective_uid,
            replacement_effective_gid: replacement.effective_gid,
            cgroup_delegation_requested,
            cgroup_delegation_verified: false,
            bundle_loaded: false,
            host_service_reopened: false,
            recorded_workload_terminated: false,
            stopped_observed: false,
            process_inventory_empty: false,
            kill_idempotent: false,
            exact_wait_evidence_refused: false,
            stopped_delete_succeeded: false,
            durable_record_removed: false,
            current_driver_shutdown: false,
            executor_transients_clean: false,
            cgroup_delegation_clean: false,
            reason: None,
        })
    }

    /// A report before anything was tried.
    pub fn initial(
        target: ContainerTarget,
        cgroup_delegation_requested: bool,
        replacement: Replacement,
    ) -> (report: NativeLinuxRecoverySmokeReport)
        ensures
            report.begins(target, cgroup_delegation_requested, replacement),
            !report.succeeds(),
    {
        NativeLinuxRecoverySmokeReport {
            schema_version: NATIVE_LINUX_RECOVERY_SMOKE_SCHEMA_VERSION.to_owned(),
            status: CapabilityStatus::Unavailable,
            platform: HostPlatform::Linux,
            target,
            replacement_owner_pid: replacement.pid,
            replacement_effective_uid: replacement.effective_uid,
            replacement_effective_gid: replacement.effective_gid,
            cgroup_delegation_requested,
            cgroup_delegation_verified: false,
            bundle_loaded: false,
            host_service_reopened: false,
            recorded_workload_terminated: false,
            stopped_observed: false,
            process_inventory_empty: false,
            kill_idempotent: false,
            exact_wait_evidence_refused: false,
            stopped_delete_succeeded: false,
            durable_record_removed: false,
            current_driver_shutdown: false,
            executor_transients_clean: false,
            cgroup_delegation_clean: false,
            reason: None,
        }
    }

    /// Whether everything was shown that a safe recovery asks for.
    pub open spec fn complete(self) -> bool {
        &&& self.bundle_loaded
        &&& self.host_service_reopened
        &&& self.recorded_workload_terminated
        &&& self.stopped_observed
        &&& self.process_inventory_empty
        &&& self.kill_idempotent
        &&& self.exact_wait_evidence_refused
        &&& self.stopped_delete_succeeded
        &&& self.durable_record_removed
        &&& self.current_driver_shutdown
        &&& self.executor_transients_clean
        &&& self.cgroup_delegation_clean
        &&& self.cgroup_delegation_requested == self.cgroup_delegation_verified
        &&& self.reason is None
    }

    /// Whether everything was shown that a safe recovery asks for.
    pub fn contract_complete(&self) -> (holds: bool)
        ensures
            holds == self.complete(),
    {
        self.bundle_loaded && self.host_service_reopened && self.recorded_workload_terminated
            && self.stopped_observed && self.process_inventory_empty && self.kill_idempotent
            && self.exact_wait_evidence_refused && self.stopped_delete_succeeded
            && self.durable_record_removed && self.current_driver_shutdown
            && self.executor_transients_clean && self.cgroup_delegation_clean
            && self.cgroup_delegation_requested == self.cgroup_delegation_verified
            && self.reason.is_none()
    }

    /// Whether the report is that of a safe recovery.
    pub open spec fn succeeds(self) -> bool {
        self.status is Available && self.complete()
    }

    /// Whether the report is that of a safe recovery.
    pub fn is_success(&self) -> (holds: bool)
        ensures
            holds == self.succeeds(),
    {
        self.status == CapabilityStatus::Available && self.contract_complete()
    }
}

/// A reason with another put behind it, unless it is the same.
pub open spec fn with_reason(existing: Option<Seq<char>>, reason: Seq<char>) -> Seq<char> {
    match existing {
        Some(existing) => if existing != reason {
            existing + "; "@ + reason
        } else {
            existing
        },
        None => reason,
    }
}

/// Puts a reason behind another, unless it is the same.
pub fn append_reason(existing: Option<String>, reason: String) -> (all: Option<String>)
    ensures
        all is Some,
        all->0@ == with_reason(optional_view(existing), reason@),
{
    match existing {
        Some(existing) => {
            if text_eq(&existing, &reason) {
                return Some(existing);
            }
            let mut all = existing;
            all.append("; ");
            all.append(&reason);
            Some(all)
        },
        None => Some(reason),
    }
}

/// Whatever comes after a reason, it stays at the front.
pub proof fn reasons_are_kept(existing: Seq<char>, reason: Seq<char>)
    ensures
        existing.is_prefix_of(with_reason(Some(existing), reason)),
{
    let all = with_reason(Some(existing), reason);
    assert(all.take(existing.len() as int) =~= existing);
}

/// A reason that was given once is not given again right behind itself.
pub proof fn repeated_reasons_count_once(existing: Option<Seq<char>>, reason: Seq<char>)
    requires
        existing is None || existing == Some(reason),
    ensures
        with_reason(existing, reason) == reason,
        with_reason(Some(with_reason(existing, reason)), reason) == reason,
{
}

/// How a replacement gets at the driver.
#[derive(Debug)]
pub enum RecoveryDriverAccess {
    /// With the host's own authority.
    Host,
    /// With a delegated control group.
    Delegation(String),
    /// With a delegated control group and a helper that prepares devices.
    DeviceBootstrap(String),
}

impl RecoveryDriverAccess {
    /// The access that a delegated control group gives, if there is one.
    pub fn from_delegation(delegated_cgroup_root: Option<String>) -> (access: RecoveryDriverAccess)
        ensures
            match delegated_cgroup_root {
                Some(root) => access == RecoveryDriverAccess::Delegation(root),
                None => access is Host,
            },
    {
        match delegated_cgroup_root {
            Some(root) => RecoveryDriverAccess::Delegation(root),
            None => RecoveryDriverAccess::Host,
        }
    }

    /// The delegated control group, if there is one.
    pub open spec fn root(self) -> Option<Seq<char>> {
        match self {
            RecoveryDriverAccess::Host => None,
            RecoveryDriverAccess::Delegation(root) => Some(root@),
            RecoveryDriverAccess::DeviceBootstrap(root) => Some(root@),
        }
    }

    /// The delegated control group, if there is one.
    pub fn delegation_root(&self) -> (root: Option<&str>)
        ensures
            match root {
                Some(root) => self.root() == Some(root@),
                None => self.root() is None,
            },
    {
        match self {
            RecoveryDriverAccess::Host => None,
            RecoveryDriverAccess::Delegation(root) => Some(root.as_str()),
            RecoveryDriverAccess::DeviceBootstrap(root) => Some(root.as_str()),
        }
    }

    /// How the driver is opened.
    pub fn open_mode(&self) -> (mode: OpenMode)
        ensures
            mode == match *self {
                RecoveryDriverAccess::Host => OpenMode::Experimental,
                RecoveryDriverAccess::Delegation(_) => OpenMode::RootlessCgroupDelegation,
                RecoveryDriverAccess::DeviceBootstrap(_) => OpenMode::RootlessDevicePolicy,
            },
    {
        match self {
            RecoveryDriverAccess::Host => OpenMode::Experimental,
            RecoveryDriverAccess::Delegation(_) => OpenMode::RootlessCgroupDelegation,
            RecoveryDriverAccess::DeviceBootstrap(_) => OpenMode::RootlessDevicePolicy,
        }
    }
}

/// One entry of a delegated control group.
#[derive(Debug)]
pub struct DelegationEntry {
    pub is_directory: bool,
    /// Its name, unless that is no text.
    pub name: Option<String>,
}

/// Whether an entry of a delegated control group may belong to the runtime.
pub open spec fn runtime_child(entry: DelegationEntry) -> bool {
    entry.is_directory && (entry.name is None || "a3s-oci-"@.is_prefix_of(entry.name->0@))
}

fn is_runtime_child(entry: &DelegationEntry) -> (holds: bool)
    ensures
        holds == runtime_child(*entry),
{
    if !entry.is_directory {
        return false;
    }
    match &entry.name {
        Some(name) => starts_with_text(name, "a3s-oci-"),
        None => true,
    }
}

/// What a walk over a delegated control group comes to: the first entry that may
/// belong to the runtime, or that could not be read, decides.
pub open spec fn delegation_state(entries: Seq<Result<DelegationEntry, String>>) -> Result<
    bool,
    Seq<char>,
>
    decreases entries.len(),
{
    if entries.len() == 0 {
        Ok(true)
    } else {
        match entries[0] {
            Err(message) => Err(message@),
            Ok(entry) => if runtime_child(entry) {
                Ok(false)
            } else {
                delegation_state(entries.skip(1))
            },
        }
    }
}

/// Whether a delegated control group holds nothing of the runtime.
pub fn delegated_cgroup_has_no_runtime_children(
    entries: &Vec<Result<DelegationEntry, String>>,
) -> (result: Result<bool, String>)
    ensures
        match result {
            Ok(clean) => delegation_state(entries@) == Ok::<bool, Seq<char>>(clean),
            Err(message) => delegation_state(entries@) == Err::<bool, Seq<char>>(message@),
        },
{
    let mut next: usize = 0;
    assert(entries@.skip(0) =~= entries@);
    while next < entries.len()
        invariant
            next <= entries@.len(),
            delegation_state(entries@) == delegation_state(entries@.skip(next as int)),
        decreases entries@.len() - next,
    {
        proof {
            assert(entries@.skip(next as int)[0] == entries@[next as int]);
            assert(entries@.skip(next as int).skip(1) =~= entries@.skip(next + 1));
        }
        match &entries[next] {
            Err(message) => return Err(message.clone()),
            Ok(entry) => if is_runtime_child(entry) {
                return Ok(false);
            },
        }
        next = next + 1;
    }
    Ok(true)
}

/// The operation that the failures of an owner are attributed to.
pub const OWNER_OPERATION: &'static str = "native-linux-recovery-owner";

/// A failure of an owner.
pub open spec fn owner_failure(code: ErrorCode, message: Seq<char>) -> ErrorView {
    ErrorView { code, message, operation: Some(OWNER_OPERATION@), retryable: false }
}

/// A failure of an owner that something was not as it has to be.
pub fn owner_error(message: &str) -> (error: Error)
    ensures
        error@ == owner_failure(ErrorCode::FailedPrecondition, message@),
{
    Error::new(ErrorCode::FailedPrecondition, message.to_owned()).for_operation(OWNER_OPERATION)
}

/// The failure of an owner that nobody killed.
pub fn owner_timeout() -> (error: Error)
    ensures
        error@ == owner_failure(
            ErrorCode::DeadlineExceeded,
            "the native recovery owner was not externally terminated within five minutes"@,
        ),
{
    Error::new(
        ErrorCode::DeadlineExceeded,
        "the native recovery owner was not externally terminated within five minutes".to_owned(),
    ).for_operation(OWNER_OPERATION)
}

/// Checks that a directory of a recovery is a real one that only its owner may
/// use.
pub fn check_private_directory(path: &str, label: &str, kind: FileKind, mode: u32) -> (result: Result<
    (),
    Error,
>)
    ensures
        match result {
            Ok(()) => kind is Directory && mode & 0o777 == 0o700,
            Err(error) => !(kind is Directory && mode & 0o777 == 0o700) && error@ == owner_failure(
                ErrorCode::FailedPrecondition,
                label@ + " must be a real mode-0700 directory: "@ + path@,
            ),
        },
{
    if kind == FileKind::Directory && mode & 0o777 == 0o700 {
        return Ok(());
    }
    let mut message = label.to_owned();
    message.append(" must be a real mode-0700 directory: ");
    message.append(path);
    Err(owner_error(&message))
}

/// Checks that nothing is at the path that readiness is published at.
pub fn check_ready_path(path: &str, taken: bool) -> (result: Result<(), Error>)
    ensures
        match result {
            Ok(()) => !taken,
            Err(error) => taken && error@ == owner_failure(
                ErrorCode::FailedPrecondition,
                "refusing to overwrite native recovery readiness: "@ + path@,
            ),
        },
{
    if !taken {
        return Ok(());
    }
    let mut message = "refusing to overwrite native recovery readiness: ".to_owned();
    message.append(path);
    Err(owner_error(&message))
}

/// The process that owns a container.
#[derive(Clone, Copy, Debug, PartialEq, Eq, Structural)]
pub struct OwnerProcess {
    pub pid: u32,
    pub start_time_ticks: u64,
    pub effective_uid: u32,
    pub effective_gid: u32,
}

/// One step of an owner.
#[derive(Clone, Copy, Debug, PartialEq, Eq, Structural)]
pub enum OwnerStep {
    /// Create the container.
    Create,
    /// Publish that the owner may be killed.
    Publish,
    /// Start the container.
    Start,
    /// Wait to be killed, and give up after a while.
    Linger,
    /// Clean up after a hook that did not hold the owner.
    CleanUp,
    /// The owner has failed.
    Failed,
}

/// An owner under way.
#[derive(Debug)]
pub struct OwnerRun {
    pub step: OwnerStep,
    pub point: NativeLinuxRecoveryPoint,
    pub delegated: bool,
    pub ready: Option<NativeLinuxRecoveryOwnerReady>,
    pub failure: Option<Error>,
}

/// Why a created container does not do for an owner, if it does not.
pub open spec fn created_fault(status: ContainerState, pid: Option<i32>) -> Option<Seq<char>> {
    if !(status is Created) {
        Some("native recovery owner create did not retain the OCI created barrier"@)
    } else if pid is None {
        Some("native recovery owner create returned no configured init PID"@)
    } else {
        None
    }
}

/// Why a start that came back ends an owner that should have died in a hook.
pub open spec fn hook_fault(started: Result<(), String>) -> Seq<char> {
    match started {
        Ok(()) => "startContainer Hook completed before qualification owner death"@,
        Err(cause) => "startContainer Hook stopped retaining the qualification owner: "@ + cause@,
    }
}

impl OwnerRun {
    /// What holds of an owner by the time it is at its step: a hook's owner has
    /// published before it starts, and one that lingers has seen its container
    /// run.
    pub open spec fn shown(self) -> bool {
        &&& self.ready is Some ==> {
            let ready = self.ready->0;
            &&& ready.recovery_point == self.point
            &&& ready.cgroup_delegation_requested == self.delegated
            &&& ready.cgroup_delegation_verified == self.delegated
            &&& ready.target.generation is Some
            &&& ready.running_observed ==> self.point is Running
        }
        &&& self.step is Create ==> self.ready is None
        &&& self.step is Publish || self.step is Start ==> self.ready is Some
        &&& self.step is Publish ==> self.ready->0.running_observed == (self.point is Running)
        &&& self.step is Start ==> !self.ready->0.running_observed
        &&& self.step is Linger ==> self.ready is Some && self.ready->0.running_observed
        &&& self.step is CleanUp || self.step is Failed ==> self.failure is Some
    }

    /// An owner before its first step.
    pub fn start(point: NativeLinuxRecoveryPoint, delegated: bool) -> (run: OwnerRun)
        ensures
            run == (OwnerRun {
                step: OwnerStep::Create,
                point,
                delegated,
                ready: None,
                failure: None,
            }),
            run.shown(),
    {
        OwnerRun { step: OwnerStep::Create, point, delegated, ready: None, failure: None }
    }

    /// Takes what the create answered and the identity of the owner, or why it is not
    /// known. Where the owner is to die in a hook it publishes before the start, else
    /// after it.
    pub fn created(
        self,
        target: ContainerTarget,
        status: ContainerState,
        pid: Option<i32>,
        config_digest: String,
        owner: Result<OwnerProcess, String>,
    ) -> (after: OwnerRun)
        requires
            target.generation is Some,
        ensures
            if self.step is Create {
                match (created_fault(status, pid), owner) {
                    (Some(fault), _) => {
                        &&& after.step is Failed
                        &&& after.failure is Some
                        &&& after.failure->0@ == owner_failure(
                            ErrorCode::FailedPrecondition,
                            fault,
                        )
                        &&& after.ready == self.ready
                    },
                    (None, Err(cause)) => {
                        &&& after.step is Failed
                        &&& after.failure is Some
                        &&& after.failure->0@ == owner_failure(
                            ErrorCode::FailedPrecondition,
                            cause@,
                        )
                        &&& after.ready == self.ready
                    },
                    (None, Ok(owner)) => {
                        &&& after.step == if self.point is StartContainerHook {
                            OwnerStep::Publish
                        } else {
                            OwnerStep::Start
                        }
                        &&& after.ready is Some
                        &&& after.ready->0.schema_version@
                            == NATIVE_LINUX_RECOVERY_OWNER_READY_SCHEMA_VERSION@
                        &&& after.ready->0 == (NativeLinuxRecoveryOwnerReady {
                            schema_version: after.ready->0.schema_version,
                            status: CapabilityStatus::Available,
                            platform: HostPlatform::Linux,
                            target,
                            config_digest,
                            recovery_point: self.point,
                            owner_pid: owner.pid,
                            owner_start_time_ticks: owner.start_time_ticks,
                            init_pid: pid->0,
                            effective_uid: owner.effective_uid,
                            effective_gid: owner.effective_gid,
                            cgroup_delegation_requested: self.delegated,
                            cgroup_delegation_verified: self.delegated,
                            running_observed: false,
                        })
                        &&& after.failure == self.failure
                    },
                }
            } else {
                after == self
            },
            after.point == self.point && after.delegated == self.delegated,
            self.shown() ==> after.shown(),
    {
        if self.step != OwnerStep::Create {
            return self;
        }
        let fault: Option<&str> = if status != ContainerState::Created {
            Some("native recovery owner create did not retain the OCI created barrier")
        } else if pid.is_none() {
            Some("native recovery owner create returned no configured init PID")
        } else {
            None
        };
        if let Some(fault) = fault {
            return OwnerRun {
                step: OwnerStep::Failed,
                failure: Some(owner_error(fault)),
                ..self
            };
        }
        let owner = match owner {
            Ok(owner) => owner,
            Err(cause) => {
                return OwnerRun {
                    step: OwnerStep::Failed,
                    failure: Some(owner_error(&cause)),
                    ..self
                };
            },
        };
        let init_pid = pid.unwrap();
        let step = if self.point == NativeLinuxRecoveryPoint::StartContainerHook {
            OwnerStep::Publish
        } else {
            OwnerStep::Start
        };
        let ready = NativeLinuxRecoveryOwnerReady {
            schema_version: NATIVE_LINUX_RECOVERY_OWNER_READY_SCHEMA_VERSION.to_owned(),
            status: CapabilityStatus::Available,
            platform: HostPlatform::Linux,
            target,
            config_digest,
            recovery_point: self.point,
            owner_pid: owner.pid,
            owner_start_time_ticks: owner.start_time_ticks,
            init_pid,
            effective_uid: owner.effective_uid,
            effective_gid: owner.effective_gid,
            cgroup_delegation_requested: self.delegated,
            cgroup_delegation_verified: self.delegated,
            running_observed: false,
        };
        OwnerRun { step, ready: Some(ready), ..self }
    }

    /// Takes that readiness was published.
    pub fn published(self) -> (after: OwnerRun)
        ensures
            if self.step is Publish {
                after == (OwnerRun {
                    step: if self.point is StartContainerHook {
                        OwnerStep::Start
                    } else {
                        OwnerStep::Linger
                    },
                    ..self
                })
            } else {
                after == self
            },
            self.shown() ==> after.shown(),
    {
        if self.step != OwnerStep::Publish {
            return self;
        }
        if self.point == NativeLinuxRecoveryPoint::StartContainerHook {
            OwnerRun { step: OwnerStep::Start, ..self }
        } else {
            OwnerRun { step: OwnerStep::Linger, ..self }
        }
    }

    /// Takes that a start came back although the owner should have died in a hook.
    pub fn hook_returned(self, started: Result<(), String>) -> (after: OwnerRun)
        ensures
            if self.step is Start && self.point is StartContainerHook {
                &&& after.step is CleanUp
                &&& after.failure is Some
                &&& after.failure->0@ == owner_failure(
                    ErrorCode::FailedPrecondition,
                    hook_fault(started),
                )
                &&& after == (OwnerRun {
                    step: OwnerStep::CleanUp,
                    failure: after.failure,
                    ..self
                })
            } else {
                after == self
            },
            self.shown() ==> after.shown(),
    {
        if self.step != OwnerStep::Start || self.point
            != NativeLinuxRecoveryPoint::StartContainerHook {
            return self;
        }
        let message = match started {
            Ok(()) => "startContainer Hook completed before qualification owner death".to_owned(),
            Err(cause) => {
                let mut message =
                    "startContainer Hook stopped retaining the qualification owner: ".to_owned();
                message.append(&cause);
                message
            },
        };
        OwnerRun { step: OwnerStep::CleanUp, failure: Some(owner_error(&message)), ..self }
    }

    /// Takes what the start answered where the owner is to die while its container
    /// runs.
    pub fn started(self, status: ContainerState, pid: Option<i32>) -> (after: OwnerRun)
        ensures
            if self.step is Start && self.point is Running && self.ready is Some {
                if status is Running && pid == Some(self.ready->0.init_pid) {
                    after == (OwnerRun {
                        step: OwnerStep::Publish,
                        ready: Some(
                            NativeLinuxRecoveryOwnerReady {
                                running_observed: true,
                                ..self.ready->0
                            },
                        ),
                        ..self
                    })
                } else {
                    &&& after == (OwnerRun {
                        step: OwnerStep::Failed,
                        failure: after.failure,
                        ..self
                    })
                    &&& after.failure is Some
                    &&& after.failure->0@ == owner_failure(
                        ErrorCode::FailedPrecondition,
                        "native recovery owner start did not retain the exact running init"@,
                    )
                }
            } else {
                after == self
            },
            self.shown() ==> after.shown(),
    {
        if self.step != OwnerStep::Start || self.point != NativeLinuxRecoveryPoint::Running {
            return self;
        }
        let OwnerRun { step, point, delegated, ready, failure } = self;
        let ready = match ready {
            Some(ready) => ready,
            None => return OwnerRun { step, point, delegated, ready: None, failure },
        };
        let same = match pid {
            Some(pid) => pid == ready.init_pid,
            None => false,
        };
        if status != ContainerState::Running || !same {
            return OwnerRun {
                step: OwnerStep::Failed,
                point,
                delegated,
                ready: Some(ready),
                failure: Some(
                    owner_error(
                        "native recovery owner start did not retain the exact running init",
                    ),
                ),
            };
        }
        let ready = NativeLinuxRecoveryOwnerReady { running_observed: true, ..ready };
        OwnerRun { step: OwnerStep::Publish, point, delegated, ready: Some(ready), failure }
    }

    /// Takes that nobody killed the owner in time.
    pub fn lingered(self) -> (after: OwnerRun)
        ensures
            if self.step is Linger {
                &&& after == (OwnerRun { step: OwnerStep::CleanUp, failure: after.failure, ..self })
                &&& after.failure is Some
                &&& after.failure->0@ == owner_failure(
                    ErrorCode::DeadlineExceeded,
                    "the native recovery owner was not externally terminated within five minutes"@,
                )
            } else {
                after == self
            },
            self.shown() ==> after.shown(),
    {
        if self.step != OwnerStep::Linger {
            return self;
        }
        OwnerRun { step: OwnerStep::CleanUp, failure: Some(owner_timeout()), ..self }
    }
}

/// An owner that is to die in a hook publishes before it starts its container; one
/// that is to die later publishes only once it has seen its container run.
pub proof fn readiness_is_honest(run: OwnerRun)
    requires
        run.shown(),
        run.step is Publish,
    ensures
        run.ready is Some,
        run.ready->0.running_observed <==> run.point is Running,
{
}

/// One step of a recovery.
#[derive(Clone, Copy, Debug, PartialEq, Eq, Structural)]
pub enum ResumeStep {
    /// Load the bundle again.
    LoadBundle,
    /// Prepare the directories.
    Layout,
    /// Open the driver again.
    OpenDriver,
    /// Open the host service over its durable state.
    OpenService,
    /// Ask for the container.
    State,
    /// Ask for its processes.
    Processes,
    /// Kill it, twice with one operation.
    Kill,
    /// Wait for its end.
    Wait,
    /// Delete it.
    Delete,
    /// Ask for it again.
    Gone,
    /// Shut the driver down.
    Shutdown,
    /// Look into the executor's directory.
    Executor,
    /// Look into the delegated control group.
    Delegation,
    /// The report is final.
    Done,
}

/// The step that follows a step.
pub open spec fn resume_step_successor(step: ResumeStep) -> ResumeStep {
    match step {
        ResumeStep::LoadBundle => ResumeStep::Layout,
        ResumeStep::Layout => ResumeStep::OpenDriver,
        ResumeStep::OpenDriver => ResumeStep::OpenService,
        ResumeStep::OpenService => ResumeStep::State,
        ResumeStep::State => ResumeStep::Processes,
        ResumeStep::Processes => ResumeStep::Kill,
        ResumeStep::Kill => ResumeStep::Wait,
        ResumeStep::Wait => ResumeStep::Delete,
        ResumeStep::Delete => ResumeStep::Gone,
        ResumeStep::Gone => ResumeStep::Shutdown,
        ResumeStep::Shutdown => ResumeStep::Executor,
        ResumeStep::Executor => ResumeStep::Delegation,
        ResumeStep::Delegation => ResumeStep::Done,
        ResumeStep::Done => ResumeStep::Done,
    }
}

fn resume_step_after(step: ResumeStep) -> (next: ResumeStep)
    ensures
        next == resume_step_successor(step),
{
    match step {
        ResumeStep::LoadBundle => ResumeStep::Layout,
        ResumeStep::Layout => ResumeStep::OpenDriver,
        ResumeStep::OpenDriver => ResumeStep::OpenService,
        ResumeStep::OpenService => ResumeStep::State,
        ResumeStep::State => ResumeStep::Processes,
        ResumeStep::Processes => ResumeStep::Kill,
        ResumeStep::Kill => ResumeStep::Wait,
        ResumeStep::Wait => ResumeStep::Delete,
        ResumeStep::Delete => ResumeStep::Gone,
        ResumeStep::Gone => ResumeStep::Shutdown,
        ResumeStep::Shutdown => ResumeStep::Executor,
        ResumeStep::Executor => ResumeStep::Delegation,
        ResumeStep::Delegation => ResumeStep::Done,
        ResumeStep::Done => ResumeStep::Done,
    }
}

/// A recovery under way. What went wrong is kept beside its report until the end.
#[derive(Debug)]
pub struct ResumeRun {
    pub step: ResumeStep,
    pub reason: Option<String>,
    pub report: NativeLinuxRecoverySmokeReport,
}

/// Whether a recovery went on: it has shown this, and a reason was put behind
/// those before where there is one.
pub open spec fn went_on(
    before: ResumeRun,
    report: NativeLinuxRecoverySmokeReport,
    reason: Option<Seq<char>>,
    after: ResumeRun,
) -> bool {
    &&& after.step == resume_step_successor(before.step)
    &&& after.report == report
    &&& match reason {
        Some(reason) => after.reason is Some && after.reason->0@ == with_reason(
            optional_view(before.reason),
            reason,
        ),
        None => after.reason == before.reason,
    }
}

/// Whether a recovery stopped for a reason.
pub open spec fn stopped(before: ResumeRun, reason: Seq<char>, after: ResumeRun) -> bool {
    &&& after.step is Done
    &&& after.report == before.report
    &&& after.reason is Some
    &&& after.reason->0@ == reason
}

fn worded(words: &str, cause: &str) -> (text: String)
    ensures
        text@ == words@ + cause@,
{
    let mut text = words.to_owned();
    text.append(cause);
    text
}

/// What the two kills of a stopped container answered.
#[derive(Debug)]
pub enum KillReplay {
    /// The first failed.
    Failed(String),
    /// The second failed.
    ReplayFailed(String),
    Answered(DriverState, DriverState),
}

/// What a wait for a container without an exit status answered.
#[derive(Debug)]
pub enum WaitReply {
    /// It was refused with a code and a message, and these are its words.
    Refused(ErrorCode, String, String),
    /// It gave a status, shown in these words.
    Answered(String),
}

/// What a container was looked for with.
#[derive(Debug)]
pub enum StateReply {
    Missing,
    /// It failed in another way.
    Failed(String),
    /// It is there, shown in these words.
    Found(String),
}

/// What a recovered container looks like.
#[derive(Debug)]
pub struct RecoveredState {
    pub status: ContainerState,
    pub pid: Option<i32>,
    pub config_digest: String,
}

/// Whether a wait was refused because nobody could have seen the exit.
pub open spec fn wait_refused(reply: WaitReply) -> bool {
    match reply {
        WaitReply::Refused(code, message, _) => code == ErrorCode::FailedPrecondition && contains(
            message@,
            "no authenticated parent remained"@,
        ),
        WaitReply::Answered(_) => false,
    }
}

fn is_wait_refused(reply: &WaitReply) -> (holds: bool)
    ensures
        holds == wait_refused(*reply),
{
    match reply {
        WaitReply::Refused(code, message, _) => *code == ErrorCode::FailedPrecondition
            && contains_text(message, "no authenticated parent remained"),
        WaitReply::Answered(_) => false,
    }
}

/// What is wrong with the answer of a wait, if anything.
pub open spec fn wait_reason(reply: WaitReply) -> Option<Seq<char>> {
    match reply {
        WaitReply::Refused(_, _, words) => if wait_refused(reply) {
            None
        } else {
            Some("recovered wait returned the wrong error: "@ + words@)
        },
        WaitReply::Answered(words) => Some("recovered wait invented terminal evidence: "@ + words@),
    }
}

fn reason_of_wait(reply: &WaitReply, refused: bool) -> (reason: Option<String>)
    requires
        refused == wait_refused(*reply),
    ensures
        optional_view(reason) == wait_reason(*reply),
{
    match reply {
        WaitReply::Refused(_, _, words) => if refused {
            None
        } else {
            Some(worded("recovered wait returned the wrong error: ", words))
        },
        WaitReply::Answered(words) => Some(
            worded("recovered wait invented terminal evidence: ", words),
        ),
    }
}

/// Whether two kills of a stopped container answered the same.
pub open spec fn kill_replayed(reply: KillReplay) -> bool {
    match reply {
        KillReplay::Answered(first, second) => first == second && first.status is Stopped
            && first.pid is None,
        _ => false,
    }
}

impl ResumeRun {
    /// Whether the report says nothing of the outcome yet.
    pub open spec fn shown(self) -> bool {
        self.report.status is Unavailable && self.report.reason is None
    }

    /// A recovery before its first step.
    pub fn start(
        target: ContainerTarget,
        access: &RecoveryDriverAccess,
        replacement: Replacement,
    ) -> (run: ResumeRun)
        ensures
            run.step is LoadBundle,
            run.reason is None,
            run.report.begins(target, access.root() is Some, replacement),
            run.shown(),
    {
        let requested = access.delegation_root().is_some();
        ResumeRun {
            step: ResumeStep::LoadBundle,
            reason: None,
            report: NativeLinuxRecoverySmokeReport::initial(target, requested, replacement),
        }
    }

    fn go_on(
        step: ResumeStep,
        before: Option<String>,
        report: NativeLinuxRecoverySmokeReport,
        reason: Option<String>,
    ) -> (after: ResumeRun)
        ensures
            after.step == resume_step_successor(step),
            after.report == report,
            match reason {
                Some(reason) => after.reason is Some && after.reason->0@ == with_reason(
                    optional_view(before),
                    reason@,
                ),
                None => after.reason == before,
            },
    {
        let step = resume_step_after(step);
        match reason {
            Some(reason) => ResumeRun { step, reason: append_reason(before, reason), report },
            None => ResumeRun { step, reason: before, report },
        }
    }

    /// Stops for a reason that takes the place of any before.
    pub fn abandon(self, reason: String) -> (after: ResumeRun)
        ensures
            if self.step is Done {
                after == self
            } else {
                stopped(self, reason@, after)
            },
            self.shown() ==> after.shown(),
    {
        if self.step == ResumeStep::Done {
            return self;
        }
        ResumeRun { step: ResumeStep::Done, reason: Some(reason), report: self.report }
    }

    /// The report of a recovery that has come to its end: it is available if all
    /// was shown and nothing went wrong.
    pub fn conclude(self) -> (report: Option<NativeLinuxRecoverySmokeReport>)
        ensures
            match report {
                Some(report) => self.step is Done && report == settled(
                    NativeLinuxRecoverySmokeReport { reason: self.reason, ..self.report },
                ),
                None => !(self.step is Done),
            },
    {
        if self.step != ResumeStep::Done {
            return None;
        }
        let ResumeRun { step: _, reason, report } = self;
        Some(settle(NativeLinuxRecoverySmokeReport { reason, ..report }))
    }

    /// Takes whether the bundle was loaded again.
    pub fn bundle_loaded(self, result: Result<(), String>) -> (after: ResumeRun)
        ensures
            if self.step is LoadBundle {
                match result {
                    Ok(()) => went_on(
                        self,
                        NativeLinuxRecoverySmokeReport { bundle_loaded: true, ..self.report },
                        None,
                        after,
                    ),
                    Err(cause) => stopped(
                        self,
                        "failed to reload recovery bundle: "@ + cause@,
                        after,
                    ),
                }
            } else {
                after == self
            },
            self.shown() ==> after.shown(),
    {
        if self.step != ResumeStep::LoadBundle {
            return self;
        }
        if let Err(cause) = result {
            return self.abandon(worded("failed to reload recovery bundle: ", &cause));
        }
        let ResumeRun { step, reason: before, report } = self;
        let shown = NativeLinuxRecoverySmokeReport { bundle_loaded: true, ..report };
        Self::go_on(step, before, shown, None)
    }

    /// Takes whether the directories are prepared.
    pub fn layout_prepared(self, result: Result<(), String>) -> (after: ResumeRun)
        ensures
            if self.step is Layout {
                match result {
                    Ok(()) => went_on(
                        self,
                        self.report,
                        None,
                        after,
                    ),
                    Err(cause) => stopped(
                        self,
                        "failed to reopen recovery layout: "@ + cause@,
                        after,
                    ),
                }
            } else {
                after == self
            },
            self.shown() ==> after.shown(),
    {
        if self.step != ResumeStep::Layout {
            return self;
        }
        if let Err(cause) = result {
            return self.abandon(worded("failed to reopen recovery layout: ", &cause));
        }
        let ResumeRun { step, reason: before, report } = self;
        let shown = report;
        Self::go_on(step, before, shown, None)
    }

    /// Takes whether the driver was opened again.
    pub fn driver_opened(self, result: Result<(), String>) -> (after: ResumeRun)
        ensures
            if self.step is OpenDriver {
                match result {
                    Ok(()) => went_on(
                        self,
                        NativeLinuxRecoverySmokeReport {
                            cgroup_delegation_verified: self.report.cgroup_delegation_requested,
                            ..self.report
                        },
                        None,
                        after,
                    ),
                    Err(cause) => stopped(
                        self,
                        "failed to reopen native driver: "@ + cause@,
                        after,
                    ),
                }
            } else {
                after == self
            },
            self.shown() ==> after.shown(),
    {
        if self.step != ResumeStep::OpenDriver {
            return self;
        }
        if let Err(cause) = result {
            return self.abandon(worded("failed to reopen native driver: ", &cause));
        }
        let ResumeRun { step, reason: before, report } = self;
        let verified = report.cgroup_delegation_requested;
        let shown = NativeLinuxRecoverySmokeReport {
            cgroup_delegation_verified: verified,
            ..report
        };
        Self::go_on(step, before, shown, None)
    }

    /// Takes whether the host service was opened. It opens only once the processes
    /// of the recorded workload were seen to have ended. Where it does not open, the
    /// driver is shut down.
    pub fn service_opened(self, result: Result<(), String>) -> (after: ResumeRun)
        ensures
            if self.step is OpenService {
                match result {
                    Ok(()) => went_on(
                        self,
                        NativeLinuxRecoverySmokeReport {
                            host_service_reopened: true,
                            recorded_workload_terminated: true,
                            ..self.report
                        },
                        None,
                        after,
                    ),
                    Err(cause) => stopped(
                        self,
                        "failed to recover durable host service: "@ + cause@,
                        after,
                    ),
                }
            } else {
                after == self
            },
            self.shown() ==> after.shown(),
    {
        if self.step != ResumeStep::OpenService {
            return self;
        }
        if let Err(cause) = result {
            return self.abandon(worded("failed to recover durable host service: ", &cause));
        }
        let ResumeRun { step, reason: before, report } = self;
        let shown = NativeLinuxRecoverySmokeReport {
            host_service_reopened: true,
            recorded_workload_terminated: true,
            ..report
        };
        Self::go_on(step, before, shown, None)
    }

    /// Takes the container as the host service knows it.
    pub fn state_read(self, result: Result<RecoveredState, String>, config_digest: &str) -> (after:
        ResumeRun
    )
        ensures
            if self.step is State {
                went_on(
                    self,
                    NativeLinuxRecoverySmokeReport {
                        stopped_observed: state_stopped(result, config_digest@),
                        ..self.report
                    },
                    match result {
                        Ok(_) => None,
                        Err(cause) => Some("recovered state failed: "@ + cause@),
                    },
                    after,
                )
            } else {
                after == self
            },
            self.shown() ==> after.shown(),
    {
        if self.step != ResumeStep::State {
            return self;
        }
        let ResumeRun { step, reason: before, report } = self;
        let stopped = match &result {
            Ok(state) => state.status == ContainerState::Stopped && state.pid.is_none() && text_eq(
                &state.config_digest,
                config_digest,
            ),
            Err(_) => false,
        };
        let reason: Option<String> = match &result {
            Ok(_) => None,
            Err(cause) => Some(worded("recovered state failed: ", cause)),
        };
        let shown = NativeLinuxRecoverySmokeReport { stopped_observed: stopped, ..report };
        Self::go_on(step, before, shown, reason)
    }

    /// Takes whether the container has no processes.
    pub fn processes_listed(self, result: Result<bool, String>) -> (after: ResumeRun)
        ensures
            if self.step is Processes {
                went_on(
                    self,
                    NativeLinuxRecoverySmokeReport {
                        process_inventory_empty: result == Ok::<bool, String>(true),
                        ..self.report
                    },
                    match result {
                        Ok(_) => None,
                        Err(cause) => Some("recovered process inventory failed: "@ + cause@),
                    },
                    after,
                )
            } else {
                after == self
            },
            self.shown() ==> after.shown(),
    {
        if self.step != ResumeStep::Processes {
            return self;
        }
        let ResumeRun { step, reason: before, report } = self;
        let empty = match &result {
            Ok(empty) => *empty,
            Err(_) => false,
        };
        let reason: Option<String> = match &result {
            Ok(_) => None,
            Err(cause) => Some(worded("recovered process inventory failed: ", cause)),
        };
        let shown = NativeLinuxRecoverySmokeReport { process_inventory_empty: empty, ..report };
        Self::go_on(step, before, shown, reason)
    }

    /// Takes what the two kills answered.
    pub fn killed(self, reply: KillReplay) -> (after: ResumeRun)
        ensures
            if self.step is Kill {
                went_on(
                    self,
                    NativeLinuxRecoverySmokeReport {
                        kill_idempotent: kill_replayed(reply),
                        ..self.report
                    },
                    match reply {
                        KillReplay::Failed(cause) => Some(
                            "recovered driver tombstone kill failed: "@ + cause@,
                        ),
                        KillReplay::ReplayFailed(cause) => Some(
                            "repeated recovered driver tombstone kill failed: "@ + cause@,
                        ),
                        KillReplay::Answered(..) => None,
                    },
                    after,
                )
            } else {
                after == self
            },
            self.shown() ==> after.shown(),
    {
        if self.step != ResumeStep::Kill {
            return self;
        }
        let ResumeRun { step, reason: before, report } = self;
        let replayed = match &reply {
            KillReplay::Answered(first, second) => *first == *second && first.status
                == ContainerState::Stopped && first.pid.is_none(),
            _ => false,
        };
        let reason: Option<String> = match &reply {
            KillReplay::Failed(cause) => Some(
                worded("recovered driver tombstone kill failed: ", cause),
            ),
            KillReplay::ReplayFailed(cause) => Some(
                worded("repeated recovered driver tombstone kill failed: ", cause),
            ),
            KillReplay::Answered(..) => None,
        };
        let shown = NativeLinuxRecoverySmokeReport { kill_idempotent: replayed, ..report };
        Self::go_on(step, before, shown, reason)
    }

    /// Takes what the wait answered.
    pub fn waited(self, reply: WaitReply) -> (after: ResumeRun)
        ensures
            if self.step is Wait {
                went_on(
                    self,
                    NativeLinuxRecoverySmokeReport {
                        exact_wait_evidence_refused: wait_refused(reply),
                        ..self.report
                    },
                    wait_reason(reply),
                    after,
                )
            } else {
                after == self
            },
            self.shown() ==> after.shown(),
    {
        if self.step != ResumeStep::Wait {
            return self;
        }
        let ResumeRun { step, reason: before, report } = self;
        let refused = is_wait_refused(&reply);
        let reason: Option<String> = reason_of_wait(&reply, refused);
        let shown = NativeLinuxRecoverySmokeReport {
            exact_wait_evidence_refused: refused,
            ..report
        };
        Self::go_on(step, before, shown, reason)
    }

    /// Takes whether the container was deleted.
    pub fn deleted(self, result: Result<(), String>) -> (after: ResumeRun)
        ensures
            if self.step is Delete {
                went_on(
                    self,
                    NativeLinuxRecoverySmokeReport {
                        stopped_delete_succeeded: result is Ok,
                        ..self.report
                    },
                    match result {
                        Ok(_) => None,
                        Err(cause) => Some("recovered delete failed: "@ + cause@),
                    },
                    after,
                )
            } else {
                after == self
            },
            self.shown() ==> after.shown(),
    {
        if self.step != ResumeStep::Delete {
            return self;
        }
        let ResumeRun { step, reason: before, report } = self;
        let succeeded = result.is_ok();
        let reason: Option<String> = match &result {
            Ok(_) => None,
            Err(cause) => Some(worded("recovered delete failed: ", cause)),
        };
        let shown = NativeLinuxRecoverySmokeReport {
            stopped_delete_succeeded: succeeded,
            ..report
        };
        Self::go_on(step, before, shown, reason)
    }

    /// Takes whether the container is gone.
    pub fn looked_for(self, reply: StateReply) -> (after: ResumeRun)
        ensures
            if self.step is Gone {
                went_on(
                    self,
                    NativeLinuxRecoverySmokeReport {
                        durable_record_removed: reply is Missing,
                        ..self.report
                    },
                    match reply {
                        StateReply::Missing => None,
                        StateReply::Failed(cause) => Some(
                            "post-delete state returned the wrong error: "@ + cause@,
                        ),
                        StateReply::Found(words) => Some(
                            "post-delete durable record still exists: "@ + words@,
                        ),
                    },
                    after,
                )
            } else {
                after == self
            },
            self.shown() ==> after.shown(),
    {
        if self.step != ResumeStep::Gone {
            return self;
        }
        let ResumeRun { step, reason: before, report } = self;
        let removed = match &reply {
            StateReply::Missing => true,
            _ => false,
        };
        let reason: Option<String> = match &reply {
            StateReply::Missing => None,
            StateReply::Failed(cause) => Some(
                worded("post-delete state returned the wrong error: ", cause),
            ),
            StateReply::Found(words) => Some(
                worded("post-delete durable record still exists: ", words),
            ),
        };
        let shown = NativeLinuxRecoverySmokeReport { durable_record_removed: removed, ..report };
        Self::go_on(step, before, shown, reason)
    }

    /// Takes whether the driver was shut down.
    pub fn shut_down(self, result: Result<(), String>) -> (after: ResumeRun)
        ensures
            if self.step is Shutdown {
                went_on(
                    self,
                    NativeLinuxRecoverySmokeReport {
                        current_driver_shutdown: result is Ok,
                        ..self.report
                    },
                    match result {
                        Ok(_) => None,
                        Err(cause) => Some("replacement shutdown failed: "@ + cause@),
                    },
                    after,
                )
            } else {
                after == self
            },
            self.shown() ==> after.shown(),
    {
        if self.step != ResumeStep::Shutdown {
            return self;
        }
        let ResumeRun { step, reason: before, report } = self;
        let succeeded = result.is_ok();
        let reason: Option<String> = match &result {
            Ok(_) => None,
            Err(cause) => Some(worded("replacement shutdown failed: ", cause)),
        };
        let shown = NativeLinuxRecoverySmokeReport { current_driver_shutdown: succeeded, ..report };
        Self::go_on(step, before, shown, reason)
    }

    /// Takes whether the executor's directory is empty.
    pub fn executor_checked(self, result: Result<bool, String>) -> (after: ResumeRun)
        ensures
            if self.step is Executor {
                went_on(
                    self,
                    NativeLinuxRecoverySmokeReport {
                        executor_transients_clean: result == Ok::<bool, String>(true),
                        ..self.report
                    },
                    match result {
                        Ok(_) => None,
                        Err(message) => Some(message@),
                    },
                    after,
                )
            } else {
                after == self
            },
            self.shown() ==> after.shown(),
    {
        if self.step != ResumeStep::Executor {
            return self;
        }
        let ResumeRun { step, reason: before, report } = self;
        let clean = match &result {
            Ok(clean) => *clean,
            Err(_) => false,
        };
        let reason: Option<String> = match result {
            Ok(_) => None,
            Err(message) => Some(message),
        };
        let shown = NativeLinuxRecoverySmokeReport { executor_transients_clean: clean, ..report };
        Self::go_on(step, before, shown, reason)
    }

    /// Takes whether the delegated control group, if there is one, holds nothing of
    /// the runtime.
    pub fn delegation_checked(self, result: Option<Result<bool, String>>) -> (after: ResumeRun)
        ensures
            if self.step is Delegation {
                went_on(
                    self,
                    NativeLinuxRecoverySmokeReport {
                        cgroup_delegation_clean: delegation_clean(result),
                        ..self.report
                    },
                    match result {
                        Some(Err(message)) => Some(message@),
                        _ => None,
                    },
                    after,
                )
            } else {
                after == self
            },
            self.shown() ==> after.shown(),
    {
        if self.step != ResumeStep::Delegation {
            return self;
        }
        let ResumeRun { step, reason: before, report } = self;
        let clean = match &result {
            Some(Ok(clean)) => *clean,
            Some(Err(_)) => false,
            None => true,
        };
        let reason: Option<String> = match result {
            Some(Err(message)) => Some(message),
            _ => None,
        };
        let shown = NativeLinuxRecoverySmokeReport { cgroup_delegation_clean: clean, ..report };
        Self::go_on(step, before, shown, reason)
    }

}

/// Whether a delegated control group, if there is one, holds nothing of the
/// runtime.
pub open spec fn delegation_clean(result: Option<Result<bool, String>>) -> bool {
    match result {
        Some(Ok(clean)) => clean,
        Some(Err(_)) => false,
        None => true,
    }
}

/// A report that is available if all was shown.
pub open spec fn settled(report: NativeLinuxRecoverySmokeReport) -> NativeLinuxRecoverySmokeReport {
    if report.complete() {
        NativeLinuxRecoverySmokeReport { status: CapabilityStatus::Available, ..report }
    } else {
        report
    }
}

fn settle(report: NativeLinuxRecoverySmokeReport) -> (after: NativeLinuxRecoverySmokeReport)
    ensures
        after == settled(report),
{
    if report.contract_complete() {
        NativeLinuxRecoverySmokeReport { status: CapabilityStatus::Available, ..report }
    } else {
        report
    }
}

/// Whether a recovered container is stopped and still of the same configuration.
pub open spec fn state_stopped(
    result: Result<RecoveredState, String>,
    config_digest: Seq<char>,
) -> bool {
    match result {
        Ok(state) => state.status is Stopped && state.pid is None && state.config_digest@
            == config_digest,
        Err(_) => false,
    }
}

/// The report of a recovery that has come to its end is available just where it is
/// that of a success, and never where anything went wrong.
pub proof fn final_recoveries_succeed_when_available(run: ResumeRun)
    requires
        run.shown(),
    ensures
        ({
            let report = settled(
                NativeLinuxRecoverySmokeReport { reason: run.reason, ..run.report },
            );
            &&& report.status is Available <==> report.succeeds()
            &&& run.reason is Some ==> !report.succeeds()
        }),
{
}

/// A recovery succeeds only where each of its gates was met.
pub proof fn recovery_success_needs_every_gate(report: NativeLinuxRecoverySmokeReport)
    requires
        report.succeeds(),
    ensures
        report.status is Available,
        report.bundle_loaded,
        report.host_service_reopened,
        report.recorded_workload_terminated,
        report.stopped_observed,
        report.process_inventory_empty,
        report.kill_idempotent,
        report.exact_wait_evidence_refused,
        report.stopped_delete_succeeded,
        report.durable_record_removed,
        report.current_driver_shutdown,
        report.executor_transients_clean,
        report.cgroup_delegation_clean,
        report.cgroup_delegation_requested == report.cgroup_delegation_verified,
        report.reason is None,
{
}

/// Nothing but these is asked for.
pub proof fn recovery_gates_suffice(report: NativeLinuxRecoverySmokeReport)
    requires
        report.status is Available,
        report.bundle_loaded,
        report.host_service_reopened,
        report.recorded_workload_terminated,
        report.stopped_observed,
        report.process_inventory_empty,
        report.kill_idempotent,
        report.exact_wait_evidence_refused,
        report.stopped_delete_succeeded,
        report.durable_record_removed,
        report.current_driver_shutdown,
        report.executor_transients_clean,
        report.cgroup_delegation_clean,
        report.cgroup_delegation_requested == report.cgroup_delegation_verified,
        report.reason is None,
    ensures
        report.succeeds(),
{
}

/// Where a recovery is that met no fault in so many steps.
pub open spec fn faultless_step(count: nat) -> ResumeStep
    decreases count,
{
    if count == 0 {
        ResumeStep::LoadBundle
    } else {
        resume_step_successor(faultless_step((count - 1) as nat))
    }
}

/// A recovery that meets no fault takes every step, each behind the one it rests on, before it is
/// complete, and none after that.
pub proof fn no_step_is_left_out(count: nat)
    ensures
        faultless_step(0) is LoadBundle,
        faultless_step(1) is Layout,
        faultless_step(2) is OpenDriver,
        faultless_step(3) is OpenService,
        faultless_step(4) is State,
        faultless_step(5) is Processes,
        faultless_step(6) is Kill,
        faultless_step(7) is Wait,
        faultless_step(8) is Delete,
        faultless_step(9) is Gone,
        faultless_step(10) is Shutdown,
        faultless_step(11) is Executor,
        faultless_step(12) is Delegation,
        count >= 13 ==> faultless_step(count) is Done,
    decreases count,
{
    assert(faultless_step(0) is LoadBundle);
    assert(faultless_step(1) is Layout);
    assert(faultless_step(2) is OpenDriver);
    assert(faultless_step(3) is OpenService);
    assert(faultless_step(4) is State);
    assert(faultless_step(5) is Processes);
    assert(faultless_step(6) is Kill);
    assert(faultless_step(7) is Wait);
    assert(faultless_step(8) is Delete);
    assert(faultless_step(9) is Gone);
    assert(faultless_step(10) is Shutdown);
    assert(faultless_step(11) is Executor);
    assert(faultless_step(12) is Delegation);
    assert(faultless_step(13) is Done);
    if count > 13 {
        no_step_is_left_out((count - 1) as nat);
    }
}

/// A delegated control group is clean exactly where every entry could be read and none is
/// a directory that may belong to the runtime.
pub proof fn clean_delegations_hold_nothing(entries: Seq<Result<DelegationEntry, String>>)
    ensures
        delegation_state(entries) == Ok::<bool, Seq<char>>(true) <==> forall|i: int|
            0 <= i < entries.len() ==> (#[trigger] entries[i]) is Ok && !(
            entries[i]->Ok_0.is_directory && (entries[i]->Ok_0.name is None
                || "a3s-oci-"@.is_prefix_of(entries[i]->Ok_0.name->0@))),
        delegation_state(entries) == Ok::<bool, Seq<char>>(false) ==> exists|i: int|
            0 <= i < entries.len() && (#[trigger] entries[i]) is Ok
                && entries[i]->Ok_0.is_directory,
        delegation_state(entries) matches Err(cause) ==> exists|i: int|
            0 <= i < entries.len() && (#[trigger] entries[i]) is Err && entries[i]->Err_0@
                == cause,
    decreases entries.len(),
{
    if entries.len() > 0 {
        let rest = entries.skip(1);
        clean_delegations_hold_nothing(rest);
        assert(forall|i: int| 0 <= i < rest.len() ==> #[trigger] rest[i] == entries[i + 1]);
        assert(entries[0] == entries[0]);
        if entries[0] is Ok && !runtime_child(entries[0]->Ok_0) {
            assert(delegation_state(entries) == delegation_state(rest));
            if delegation_state(rest) == Ok::<bool, Seq<char>>(true) {
                assert forall|i: int| 0 <= i < entries.len() implies (#[trigger] entries[i]) is Ok
                    && !(entries[i]->Ok_0.is_directory && (entries[i]->Ok_0.name is None
                    || "a3s-oci-"@.is_prefix_of(entries[i]->Ok_0.name->0@))) by {
                    if i > 0 {
                        assert(rest[i - 1] == entries[i]);
                    }
                }
            } else if delegation_state(rest) is Ok {
                assert(!delegation_state(rest)->Ok_0);
                assert(delegation_state(rest) == Ok::<bool, Seq<char>>(false));
                let k = choose|i: int|
                    0 <= i < rest.len() && (#[trigger] rest[i]) is Ok
                        && rest[i]->Ok_0.is_directory;
                assert(entries[k + 1] == rest[k]);
                if forall|i: int|
                    0 <= i < entries.len() ==> (#[trigger] entries[i]) is Ok && !(
                    entries[i]->Ok_0.is_directory && (entries[i]->Ok_0.name is None
                        || "a3s-oci-"@.is_prefix_of(entries[i]->Ok_0.name->0@))) {
                    assert forall|i: int| 0 <= i < rest.len() implies (#[trigger] rest[i]) is Ok
                        && !(rest[i]->Ok_0.is_directory && (rest[i]->Ok_0.name is None
                        || "a3s-oci-"@.is_prefix_of(rest[i]->Ok_0.name->0@))) by {
                        assert(entries[i + 1] == rest[i]);
                    }
                }
            } else {
                let k = choose|i: int|
                    0 <= i < rest.len() && (#[trigger] rest[i]) is Err && rest[i]->Err_0@
                        == delegation_state(rest)->Err_0;
                assert(entries[k + 1] == rest[k]);
            }
        }
    }
}

/// An owner goes on from a create only where the container waits at its barrier with a
/// process.
pub proof fn owners_hold_a_created_container(status: ContainerState, pid: Option<i32>)
    ensures
        created_fault(status, pid) is None <==> status is Created && pid is Some,
{
}

/// A wait on a container whose parent died must be refused, and for that very reason: an
/// answer is evidence that nobody could have seen.
pub proof fn recovered_waits_invent_nothing(reply: WaitReply)
    ensures
        reply is Answered ==> !wait_refused(reply) && wait_reason(reply) is Some,
        wait_reason(reply) is None <==> wait_refused(reply),
        reply matches WaitReply::Refused(code, message, words) ==> (wait_refused(reply)
            <==> code is FailedPrecondition && exists|place: int|
            0 <= place && place + "no authenticated parent remained"@.len() <= message@.len()
                && #[trigger] message@.subrange(
                place,
                place + "no authenticated parent remained"@.len(),
            ) == "no authenticated parent remained"@),
{
    if let WaitReply::Refused(code, message, words) = reply {
        let needle = "no authenticated parent remained"@;
        if contains(message@, needle) {
            let place = choose|place: int| #[trigger]
                crate::text::stands_at(message@, needle, place);
            assert(message@.subrange(place, place + needle.len()) == needle);
        }
        if exists|place: int|
            0 <= place && place + needle.len() <= message@.len() && #[trigger] message@.subrange(
                place,
                place + needle.len(),
            ) == needle {
            let place = choose|place: int|
                0 <= place && place + needle.len() <= message@.len()
                    && #[trigger] message@.subrange(place, place + needle.len()) == needle;
            assert(crate::text::stands_at(message@, needle, place));
        }
    }
}

/// A kill of a recovered container counts as repeatable only where both answers are the
/// same, and show it stopped and without a process.
pub proof fn repeated_kills_answer_the_same(reply: KillReplay)
    ensures
        kill_replayed(reply) ==> reply is Answered,
        reply matches KillReplay::Answered(first, second) ==> (kill_replayed(reply) <==> first
            == second && first.status is Stopped && first.pid is None),
{
}

/// A control group that could not be looked at is not clean; where none was delegated
/// there is nothing to clean.
pub proof fn unseen_delegations_are_not_clean(result: Option<Result<bool, String>>)
    ensures
        delegation_clean(result) <==> result is None || result == Some(Ok::<bool, String>(true)),
{
}

/// A report becomes available exactly where everything was shown, and nothing else of it
/// changes.
pub proof fn settled_reports_claim_what_was_shown(report: NativeLinuxRecoverySmokeReport)
    ensures
        settled(report) == (NativeLinuxRecoverySmokeReport {
            status: settled(report).status,
            ..report
        }),
        report.complete() ==> settled(report).status is Available,
        !report.complete() ==> settled(report).status == report.status,
{
}

/// A recovered container counts as stopped only where it is, without a process and with
/// the configuration it had.
pub proof fn stopped_containers_keep_their_configuration(
    result: Result<RecoveredState, String>,
    config_digest: Seq<char>,
)
    ensures
        state_stopped(result, config_digest) <==> result is Ok && result->Ok_0.status is Stopped
            && result->Ok_0.pid is None && result->Ok_0.config_digest@ == config_digest,
{
}

/// A recovery that goes on keeps every reason it had and adds what was wrong, and one that
/// has a reason never loses it.
pub proof fn recoveries_keep_their_reasons(
    before: ResumeRun,
    report: NativeLinuxRecoverySmokeReport,
    reason: Option<Seq<char>>,
    after: ResumeRun,
)
    requires
        went_on(before, report, reason, after),
    ensures
        after.report == report,
        after.step == resume_step_successor(before.step),
        reason is None ==> after.reason == before.reason,
        reason is Some ==> after.reason is Some,
        before.reason is Some ==> after.reason is Some && before.reason->0@.is_prefix_of(
            after.reason->0@,
        ),
        before.reason is None && reason is Some ==> after.reason->0@ == reason->0,
{
    if before.reason is Some && reason is Some {
        reasons_are_kept(before.reason->0@, reason->0);
    }
}

/// A recovery that stops keeps what it has shown and says why, and does nothing more.
pub proof fn stopped_recoveries_say_why(before: ResumeRun, reason: Seq<char>, after: ResumeRun)
    requires
        stopped(before, reason, after),
    ensures
        after.step is Done,
        after.reason matches Some(words) && words@ == reason,
        after.report == before.report,
{
}

/// Which control group a driver is opened with: none on a plain host, and the delegated
/// one where there is one.
pub proof fn delegated_drivers_know_their_root(access: RecoveryDriverAccess)
    ensures
        access is Host <==> access.root() is None,
        access matches RecoveryDriverAccess::Delegation(root) ==> access.root() == Some(root@),
        access matches RecoveryDriverAccess::DeviceBootstrap(root) ==> access.root() == Some(
            root@,
        ),
{
}

/// Before anything was tried nothing is claimed: each thing that is to be shown is not
/// shown yet.
pub proof fn fresh_reports_claim_nothing(
    fresh: NativeLinuxRecoverySmokeReport,
    target: ContainerTarget,
    cgroup_delegation_requested: bool,
    replacement: Replacement,
)
    requires
        fresh.begins(target, cgroup_delegation_requested, replacement),
    ensures
        fresh.schema_version@ == NATIVE_LINUX_RECOVERY_SMOKE_SCHEMA_VERSION@,
        fresh.status == CapabilityStatus::Unavailable,
        fresh.platform == HostPlatform::Linux,
        fresh.target == target,
        fresh.replacement_owner_pid == replacement.pid,
        fresh.replacement_effective_uid == replacement.effective_uid,
        fresh.replacement_effective_gid == replacement.effective_gid,
        fresh.cgroup_delegation_requested == cgroup_delegation_requested,
        !fresh.cgroup_delegation_verified,
        !fresh.bundle_loaded,
        !fresh.host_service_reopened,
        !fresh.recorded_workload_terminated,
        !fresh.stopped_observed,
        !fresh.process_inventory_empty,
        !fresh.kill_idempotent,
        !fresh.exact_wait_evidence_refused,
        !fresh.stopped_delete_succeeded,
        !fresh.durable_record_removed,
        !fresh.current_driver_shutdown,
        !fresh.executor_transients_clean,
        !fresh.cgroup_delegation_clean,
        fresh.reason is None,
{
}

/// An owner that gave up or failed knows why, and one that starts or publishes knows what
/// it announces.
pub proof fn failed_owners_know_why(run: OwnerRun)
    requires
        run.shown(),
    ensures
        run.step is CleanUp || run.step is Failed ==> run.failure is Some,
        run.step is Create ==> run.ready is None,
        run.step is Publish || run.step is Start || run.step is Linger ==> run.ready is Some,
        run.step is Linger ==> run.ready->0.running_observed && run.point is Running,
{
}

/// A start that came back is told with its cause where it has one.
pub proof fn returned_starts_are_told(started: Result<(), String>)
    ensures
        started matches Err(cause) ==> cause@.is_suffix_of(hook_fault(started)),
{
    if let Err(cause) = started {
        let told = hook_fault(started);
        assert(told.subrange(told.len() - cause@.len(), told.len() as int) =~= cause@);
    }
}

} // verus!
