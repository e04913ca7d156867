//! Plain values that requests, records and reports are made of.

use vstd::prelude::*;
use crate::text::{optional_eq, optional_view, text_eq};

verus! {

/// Result of probing one capability.
#[derive(Clone, Copy, Debug, PartialEq, Eq, Structural)]
pub enum CapabilityStatus {
    Available,
    Unavailable,
    Unsupported,
}

/// Operating system a report was made on.
#[derive(Clone, Copy, Debug, PartialEq, Eq, Structural)]
pub enum HostPlatform {
    Linux,
    Macos,
    Windows,
    Other,
}

/// Backend that runs containers.
#[derive(Clone, Copy, Debug, PartialEq, Eq, Structural)]
pub enum DriverKind {
    NativeLinux,
    LibkrunKvm,
    LibkrunHvf,
    Other,
}

/// What separates a container from its host.
#[derive(Clone, Copy, Debug, PartialEq, Eq, Structural)]
pub enum IsolationClass {
    SharedHostKernel,
    DedicatedVm,
    Other,
}

/// Maturity of a driver.
#[derive(Clone, Copy, Debug, PartialEq, Eq, Structural)]
pub enum DriverReadiness {
    Experimental,
    Stable,
    Unavailable,
}

/// Lifecycle state of a container.
#[derive(Clone, Copy, Debug, PartialEq, Eq, Structural)]
pub enum ContainerState {
    Creating,
    Created,
    Running,
    Stopped,
}

/// How an init process ended.
#[derive(Clone, Copy, Debug, PartialEq, Eq, Structural)]
pub struct ExitStatus {
    pub exit_code: Option<i32>,
    pub signal: Option<i32>,
    pub oom_killed: bool,
}

/// The signal number of an uncatchable kill.
pub const SIGKILL: i32 = 9;

/// Ending by an uncatchable kill, without memory pressure.
pub open spec fn killed_status() -> ExitStatus {
    ExitStatus { exit_code: None, signal: Some(SIGKILL), oom_killed: false }
}

impl ExitStatus {
    /// Ended by itself with an exit code.
    pub fn exited(code: i32) -> (status: ExitStatus)
        ensures
            status == (ExitStatus { exit_code: Some(code), signal: None, oom_killed: false }),
    {
        ExitStatus { exit_code: Some(code), signal: None, oom_killed: false }
    }

    /// Ended by a signal.
    pub fn signaled(signal: i32, oom_killed: bool) -> (status: ExitStatus)
        ensures
            status == (ExitStatus { exit_code: None, signal: Some(signal), oom_killed }),
    {
        ExitStatus { exit_code: None, signal: Some(signal), oom_killed }
    }
}

/// Whether a wait reported an uncatchable kill.
pub fn is_killed(status: &Option<ExitStatus>) -> (holds: bool)
    ensures
        holds == (*status == Some(killed_status())),
{
    match status {
        Some(status) => *status == ExitStatus::signaled(SIGKILL, false),
        None => false,
    }
}

/// One container, at one generation or at the current one.
#[derive(Clone, Debug)]
pub struct ContainerTarget {
    pub id: String,
    pub generation: Option<u64>,
}

/// What a container target names.
pub struct TargetView {
    pub id: Seq<char>,
    pub generation: Option<u64>,
}

impl View for ContainerTarget {
    type V = TargetView;

    open spec fn view(&self) -> TargetView {
        TargetView { id: self.id@, generation: self.generation }
    }
}

impl ContainerTarget {
    /// A container at one generation.
    pub fn exact(id: &str, generation: u64) -> (target: ContainerTarget)
        ensures
            target@ == (TargetView { id: id@, generation: Some(generation) }),
    {
        ContainerTarget { id: id.to_owned(), generation: Some(generation) }
    }

    /// A container at whatever generation is current.
    pub fn current(id: &str) -> (target: ContainerTarget)
        ensures
            target@ == (TargetView { id: id@, generation: None }),
    {
        ContainerTarget { id: id.to_owned(), generation: None }
    }

    /// The same target again.
    pub fn copy(&self) -> (target: ContainerTarget)
        ensures
            target == *self,
    {
        ContainerTarget { id: self.id.clone(), generation: self.generation }
    }

    /// Whether two targets name the same container and generation.
    pub fn same(&self, other: &ContainerTarget) -> (equal: bool)
        ensures
            equal == (self@ == other@),
    {
        text_eq(&self.id, &other.id) && self.generation == other.generation
    }
}

/// Released runtime that made or reads a checkpoint.
#[derive(Clone, Debug)]
pub struct RuntimeArtifact {
    pub name: String,
    pub version: String,
    pub digest: String,
    pub source_revision: Option<String>,
}

/// What a runtime artifact is identified by.
pub struct RuntimeArtifactView {
    pub name: Seq<char>,
    pub version: Seq<char>,
    pub digest: Seq<char>,
    pub source_revision: Option<Seq<char>>,
}

impl View for RuntimeArtifact {
    type V = RuntimeArtifactView;

    open spec fn view(&self) -> RuntimeArtifactView {
        RuntimeArtifactView {
            name: self.name@,
            version: self.version@,
            digest: self.digest@,
            source_revision: optional_view(self.source_revision),
        }
    }
}

impl RuntimeArtifact {
    /// Whether two runtime artifacts are the same.
    pub fn same(&self, other: &RuntimeArtifact) -> (equal: bool)
        ensures
            equal == (self@ == other@),
    {
        text_eq(&self.name, &other.name) && text_eq(&self.version, &other.version) && text_eq(
            &self.digest,
            &other.digest,
        ) && optional_eq(&self.source_revision, &other.source_revision)
    }
}

/// Encoding of checkpoint artifacts.
#[derive(Clone, Debug)]
pub struct CheckpointFormat {
    pub name: String,
    pub version: u16,
}

/// What a checkpoint format is identified by.
pub struct FormatView {
    pub name: Seq<char>,
    pub version: u16,
}

impl View for CheckpointFormat {
    type V = FormatView;

    open spec fn view(&self) -> FormatView {
        FormatView { name: self.name@, version: self.version }
    }
}

impl CheckpointFormat {
    /// Whether two formats are the same.
    pub fn same(&self, other: &CheckpointFormat) -> (equal: bool)
        ensures
            equal == (self@ == other@),
    {
        text_eq(&self.name, &other.name) && self.version == other.version
    }
}

/// Stack that a checkpoint can be restored on.
#[derive(Clone, Debug)]
pub struct CheckpointCompatibility {
    pub driver: DriverKind,
    pub isolation: IsolationClass,
    pub platform: HostPlatform,
    pub architecture: String,
    pub runtime_artifact: RuntimeArtifact,
    pub driver_build_digest: String,
    pub format: CheckpointFormat,
}

/// What decides whether a checkpoint can be restored.
pub struct CompatibilityView {
    pub driver: DriverKind,
    pub isolation: IsolationClass,
    pub platform: HostPlatform,
    pub architecture: Seq<char>,
    pub runtime_artifact: RuntimeArtifactView,
    pub driver_build_digest: Seq<char>,
    pub format: FormatView,
}

impl View for CheckpointCompatibility {
    type V = CompatibilityView;

    open spec fn view(&self) -> CompatibilityView {
        CompatibilityView {
            driver: self.driver,
            isolation: self.isolation,
            platform: self.platform,
            architecture: self.architecture@,
            runtime_artifact: self.runtime_artifact@,
            driver_build_digest: self.driver_build_digest@,
            format: self.format@,
        }
    }
}

impl CheckpointCompatibility {
    /// Whether two stacks are the same.
    pub fn same(&self, other: &CheckpointCompatibility) -> (equal: bool)
        ensures
            equal == (self@ == other@),
    {
        self.driver == other.driver && self.isolation == other.isolation && self.platform
            == other.platform && text_eq(&self.architecture, &other.architecture)
            && self.runtime_artifact.same(&other.runtime_artifact) && text_eq(
            &self.driver_build_digest,
            &other.driver_build_digest,
        ) && self.format.same(&other.format)
    }
}

/// Durable record of one container generation. The fields hold what decisions rest
/// on; the document is the whole record as the service writes it, in one canonical
/// text, with the bundle, the annotations and whatever else the service keeps.
#[derive(Clone, Debug)]
pub struct ContainerRecord {
    pub id: String,
    pub generation: u64,
    pub status: ContainerState,
    pub pid: Option<i32>,
    pub paused: bool,
    pub driver: DriverKind,
    pub isolation: IsolationClass,
    pub config_digest: String,
    pub attachments_digest: Option<String>,
    pub document: String,
}

/// What a container record says.
pub struct RecordView {
    pub id: Seq<char>,
    pub generation: u64,
    pub status: ContainerState,
    pub pid: Option<i32>,
    pub paused: bool,
    pub driver: DriverKind,
    pub isolation: IsolationClass,
    pub config_digest: Seq<char>,
    pub attachments_digest: Option<Seq<char>>,
    pub document: Seq<char>,
}

impl View for ContainerRecord {
    type V = RecordView;

    open spec fn view(&self) -> RecordView {
        RecordView {
            id: self.id@,
            generation: self.generation,
            status: self.status,
            pid: self.pid,
            paused: self.paused,
            driver: self.driver,
            isolation: self.isolation,
            config_digest: self.config_digest@,
            attachments_digest: optional_view(self.attachments_digest),
            document: self.document@,
        }
    }
}

impl ContainerRecord {
    /// Whether two records say the same, in every field and in the whole document.
    pub fn same(&self, other: &ContainerRecord) -> (equal: bool)
        ensures
            equal == (self@ == other@),
    {
        text_eq(&self.id, &other.id) && self.generation == other.generation && self.status
            == other.status && self.pid == other.pid && self.paused == other.paused && self.driver
            == other.driver && self.isolation == other.isolation && text_eq(
            &self.config_digest,
            &other.config_digest,
        ) && optional_eq(&self.attachments_digest, &other.attachments_digest) && text_eq(
            &self.document,
            &other.document,
        )
    }

    /// The record's container at the record's generation.
    pub fn target(&self) -> (target: ContainerTarget)
        ensures
            target@ == (TargetView { id: self.id@, generation: Some(self.generation) }),
    {
        ContainerTarget::exact(&self.id, self.generation)
    }
}

} // verus!
