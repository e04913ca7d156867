//! Decisions of the native Linux driver: how it opens, where an operation on a
//! container goes after a restart, and how a container is recovered.

use vstd::prelude::*;
use crate::error::{Error, ErrorCode};
use crate::model::{
    CapabilityStatus, ContainerRecord, ContainerState, ContainerTarget, DriverReadiness, ExitStatus,
    IsolationClass, RecordView, TargetView,
};
use crate::native_checkpoint::operation::ErrorView;
use crate::operations::{agent_operation_list, agent_operations, RuntimeOperation};
use crate::text::{append_decimal, decimal};
use crate::text_map::TextMap;

verus! {

/// A failure that a driver operation reports and that should not simply be
/// repeated, as values.
pub open spec fn driver_failure(
    code: ErrorCode,
    message: Seq<char>,
    operation: Seq<char>,
) -> ErrorView {
    ErrorView { code, message, operation: Some(operation), retryable: false }
}

fn driver_error(code: ErrorCode, message: String, operation: &str) -> (error: Error)
    ensures
        error@ == driver_failure(code, message@, operation@),
{
    Error::new(code, message).for_operation(operation)
}

/// Named facts about a driver, as texts.
#[derive(Debug)]
pub struct Evidence {
    facts: TextMap<String>,
}

impl View for Evidence {
    type V = Map<Seq<char>, Seq<char>>;

    closed spec fn view(&self) -> Map<Seq<char>, Seq<char>> {
        self.facts@.map_values(|fact: String| fact@)
    }
}

impl Evidence {
    /// Whether the facts are in order.
    pub closed spec fn wf(&self) -> bool {
        self.facts.wf()
    }

    /// No facts.
    pub fn new() -> (evidence: Evidence)
        ensures
            evidence.wf(),
            evidence@ == Map::<Seq<char>, Seq<char>>::empty(),
    {
        let evidence = Evidence { facts: TextMap::new() };
        assert(evidence@ =~= Map::<Seq<char>, Seq<char>>::empty());
        evidence
    }

    /// States a fact, in place of an earlier one of that name.
    pub fn insert(&mut self, name: &str, fact: &str)
        requires
            old(self).wf(),
        ensures
            final(self).wf(),
            final(self)@ == old(self)@.insert(name@, fact@),
    {
        self.facts.insert(name, fact.to_owned());
        assert(self@ =~= old(self)@.insert(name@, fact@));
    }

    /// A fact by its name.
    pub fn get(&self, name: &str) -> (fact: Option<&str>)
        requires
            self.wf(),
        ensures
            match fact {
                Some(fact) => self@.dom().contains(name@) && fact@ == self@[name@],
                None => !self@.dom().contains(name@),
            },
    {
        match self.facts.get(name) {
            Some(fact) => Some(fact.as_str()),
            None => None,
        }
    }
}

/// What a driver says of itself.
#[derive(Debug)]
pub struct DriverCapability {
    pub status: CapabilityStatus,
    pub reason: Option<String>,
    pub readiness: DriverReadiness,
    pub evidence: Evidence,
}

/// How the native driver is opened.
#[derive(Clone, Copy, Debug, PartialEq, Eq, Structural)]
pub enum OpenMode {
    /// With the host's own cgroup authority.
    Experimental,
    /// With a cgroup subtree that the host delegated to an unprivileged user.
    RootlessCgroupDelegation,
    /// With a delegated subtree and a helper that keeps device authority.
    RootlessDevicePolicy,
}

/// The facts that a driver states once it was opened.
pub open spec fn opening_evidence(
    evidence: Map<Seq<char>, Seq<char>>,
    mode: OpenMode,
) -> Map<Seq<char>, Seq<char>> {
    let common = evidence.insert("execution_path"@, "shared-linux-executor"@).insert(
        "kvm_required"@,
        "false"@,
    );
    match mode {
        OpenMode::Experimental => common.insert("opt_in"@, "open-experimental"@),
        OpenMode::RootlessCgroupDelegation => common.insert(
            "rootless_cgroup_delegation"@,
            "explicit-v1"@,
        ),
        OpenMode::RootlessDevicePolicy => common.insert(
            "rootless_cgroup_delegation"@,
            "explicit-v1"@,
        ).insert("rootless_device_policy"@, "parent-bound-helper-v1"@),
    }
}

/// The failure of opening a driver on a host that lacks what it needs.
pub open spec fn opening_failure(reason: Option<String>) -> ErrorView {
    driver_failure(
        ErrorCode::Unavailable,
        match reason {
            Some(reason) => reason@,
            None => "native Linux prerequisites are unavailable"@,
        },
        "open-native-linux-driver"@,
    )
}

/// Decides whether the driver may be opened, and what it then says of itself.
pub fn open_capability(capability: DriverCapability, mode: OpenMode) -> (result: Result<
    DriverCapability,
    Error,
>)
    requires
        capability.evidence.wf(),
    ensures
        match result {
            Ok(opened) => {
                &&& capability.status is Available
                &&& opened.status is Available
                &&& opened.reason == capability.reason
                &&& opened.readiness is Experimental
                &&& opened.evidence.wf()
                &&& opened.evidence@ == opening_evidence(capability.evidence@, mode)
            },
            Err(error) => {
                &&& !(capability.status is Available)
                &&& error@ == opening_failure(capability.reason)
            },
        },
{
    let mut capability = capability;
    if capability.status != CapabilityStatus::Available {
        let message = match capability.reason {
            Some(reason) => reason,
            None => "native Linux prerequisites are unavailable".to_owned(),
        };
        return Err(driver_error(ErrorCode::Unavailable, message, "open-native-linux-driver"));
    }
    capability.readiness = DriverReadiness::Experimental;
    capability.evidence.insert("execution_path", "shared-linux-executor");
    capability.evidence.insert("kvm_required", "false");
    match mode {
        OpenMode::Experimental => {
            capability.evidence.insert("opt_in", "open-experimental");
        },
        OpenMode::RootlessCgroupDelegation => {
            capability.evidence.insert("rootless_cgroup_delegation", "explicit-v1");
        },
        OpenMode::RootlessDevicePolicy => {
            capability.evidence.insert("rootless_cgroup_delegation", "explicit-v1");
            capability.evidence.insert("rootless_device_policy", "parent-bound-helper-v1");
        },
    }
    Ok(capability)
}

/// Version of the attachment contract.
#[derive(Clone, Copy, Debug, PartialEq, Eq, Structural)]
pub enum AttachmentSchema {
    V1,
    V2,
    V3,
}

/// An extension of the attachment contract.
#[derive(Clone, Copy, Debug, PartialEq, Eq, Structural)]
pub enum AttachmentExtension {
    NetworkEnforcement,
    RuntimeBundleHandoff,
    AmdSevSnpLaunch,
    IntelTdxLaunch,
}

/// Version of the network enforcement extension.
pub const NETWORK_ENFORCEMENT_EXTENSION_VERSION: u32 = 1;

/// Version of the extensions that launch confidential machines.
pub const TEE_LAUNCH_EXTENSION_VERSION: u32 = 1;

/// Attachments that a driver can carry out.
#[derive(Clone, Copy, Debug, PartialEq, Eq)]
pub struct AttachmentCapabilities {
    /// The newest contract; the earlier ones hold too.
    pub newest: AttachmentSchema,
    /// The one extension and its version.
    pub extension: Option<(AttachmentExtension, u32)>,
}

/// The number of a contract version.
pub open spec fn schema_number(schema: AttachmentSchema) -> int {
    match schema {
        AttachmentSchema::V1 => 1,
        AttachmentSchema::V2 => 2,
        AttachmentSchema::V3 => 3,
    }
}

fn number_of(schema: AttachmentSchema) -> (number: u8)
    ensures
        number == schema_number(schema),
{
    match schema {
        AttachmentSchema::V1 => 1,
        AttachmentSchema::V2 => 2,
        AttachmentSchema::V3 => 3,
    }
}

impl AttachmentCapabilities {
    /// Whether requests under a contract version are carried out.
    pub fn supports_schema(&self, schema: AttachmentSchema) -> (supported: bool)
        ensures
            supported == (schema_number(schema) <= schema_number(self.newest)),
    {
        number_of(schema) <= number_of(self.newest)
    }

    /// Whether a version of an extension is carried out.
    pub fn supports_extension(&self, extension: AttachmentExtension, version: u32) -> (supported:
        bool)
        ensures
            supported == (self.extension == Some((extension, version))),
    {
        match self.extension {
            Some((held, at)) => held == extension && at == version,
            None => false,
        }
    }
}

/// The attachments of a driver, given whether it may attach network devices.
pub open spec fn attachments_for(has_network_device_authority: bool) -> AttachmentCapabilities {
    if has_network_device_authority {
        AttachmentCapabilities {
            newest: AttachmentSchema::V3,
            extension: Some(
                (AttachmentExtension::NetworkEnforcement, NETWORK_ENFORCEMENT_EXTENSION_VERSION),
            ),
        }
    } else {
        AttachmentCapabilities { newest: AttachmentSchema::V2, extension: None }
    }
}

/// The attachments of a driver, given whether it may attach network devices.
pub fn native_attachment_capabilities(has_network_device_authority: bool) -> (capabilities:
    AttachmentCapabilities)
    ensures
        capabilities == attachments_for(has_network_device_authority),
{
    if has_network_device_authority {
        AttachmentCapabilities {
            newest: AttachmentSchema::V3,
            extension: Some(
                (AttachmentExtension::NetworkEnforcement, NETWORK_ENFORCEMENT_EXTENSION_VERSION),
            ),
        }
    } else {
        AttachmentCapabilities { newest: AttachmentSchema::V2, extension: None }
    }
}

/// Observed state of a container.
#[derive(Clone, Copy, Debug, PartialEq, Eq, Structural)]
pub struct DriverState {
    pub status: ContainerState,
    pub pid: Option<i32>,
    pub paused: bool,
}

impl DriverState {
    /// A container whose process has not started its workload.
    pub fn created(pid: i32) -> (state: DriverState)
        ensures
            state == (DriverState {
                status: ContainerState::Created,
                pid: Some(pid),
                paused: false,
            }),
    {
        DriverState { status: ContainerState::Created, pid: Some(pid), paused: false }
    }

    /// A container that runs.
    pub fn running(pid: i32) -> (state: DriverState)
        ensures
            state == (DriverState {
                status: ContainerState::Running,
                pid: Some(pid),
                paused: false,
            }),
    {
        DriverState { status: ContainerState::Running, pid: Some(pid), paused: false }
    }

    /// A container without processes.
    pub fn stopped() -> (state: DriverState)
        ensures
            state == (DriverState { status: ContainerState::Stopped, pid: None, paused: false }),
    {
        DriverState { status: ContainerState::Stopped, pid: None, paused: false }
    }
}

/// The state of a container whose init process lives.
pub open spec fn live_init_state(
    durable_status: ContainerState,
    pid: i32,
    frozen: bool,
) -> DriverState {
    DriverState {
        status: if durable_status is Created || durable_status is Creating {
            ContainerState::Created
        } else {
            ContainerState::Running
        },
        pid: Some(pid),
        paused: frozen,
    }
}

/// What a live init process shows: its state by the durable record, and
/// whether its cgroup is frozen. Where the freezer cannot be read the container
/// counts as not paused.
pub fn observe_live_init(
    durable_status: ContainerState,
    pid: i32,
    paused: Result<bool, Error>,
) -> (result: Result<DriverState, Error>)
    ensures
        match paused {
            Err(error) if error.code != ErrorCode::Unavailable => result matches Err(reported)
                && reported@ == (ErrorView {
                operation: Some("native-linux-state"@),
                ..error@
            }),
            _ => result == Ok::<DriverState, Error>(
                DriverState {
                    status: if durable_status is Created || durable_status is Creating {
                        ContainerState::Created
                    } else {
                        ContainerState::Running
                    },
                    pid: Some(pid),
                    paused: paused == Ok::<bool, Error>(true),
                },
            ),
        },
        result matches Ok(state) ==> state == live_init_state(
            durable_status,
            pid,
            paused == Ok::<bool, Error>(true),
        ),
{
    let mut state = match durable_status {
        ContainerState::Created | ContainerState::Creating => DriverState::created(pid),
        _ => DriverState::running(pid),
    };
    let frozen = match paused {
        Ok(frozen) => frozen,
        Err(error) => {
            if error.code != ErrorCode::Unavailable {
                return Err(error.for_operation("native-linux-state"));
            }
            false
        },
    };
    state.paused = frozen;
    Ok(state)
}

/// What a container without a live init process shows: a live launcher has
/// created it, and else it is stopped.
pub fn observe_launcher(launcher: Option<i32>) -> (state: DriverState)
    ensures
        match launcher {
            Some(pid) => state.status is Created && state.pid == Some(pid),
            None => state.status is Stopped && state.pid is None,
        },
        !state.paused,
{
    match launcher {
        Some(pid) => DriverState::created(pid),
        None => DriverState::stopped(),
    }
}

/// How a wait status word ends a process: the low seven bits hold a signal, and
/// where they are zero the next byte but one holds the exit code.
pub open spec fn wait_outcome(raw: i32) -> Option<ExitStatus> {
    if raw & 0x7f == 0 {
        Some(
            ExitStatus { exit_code: Some((raw >> 8) & 0xff), signal: None, oom_killed: false },
        )
    } else if raw & 0x7f != 0x7f {
        Some(ExitStatus { exit_code: None, signal: Some(raw & 0x7f), oom_killed: false })
    } else {
        None
    }
}

/// Reads the wait status word of a supervised process.
pub fn supervised_wait_status(raw: i32, operation: &str) -> (result: Result<ExitStatus, Error>)
    ensures
        match wait_outcome(raw) {
            Some(status) => result == Ok::<ExitStatus, Error>(status),
            None => result matches Err(error) && error@ == driver_failure(
                ErrorCode::Internal,
                "supervised process returned unsupported wait status "@ + signed_decimal(
                    raw as int,
                ),
                operation@,
            ),
        },
{
    let low = raw & 0x7f;
    if low == 0 {
        return Ok(ExitStatus::exited((raw >> 8) & 0xff));
    }
    if low != 0x7f {
        return Ok(ExitStatus::signaled(low, false));
    }
    let mut message = "supervised process returned unsupported wait status ".to_owned();
    append_signed(&mut message, raw);
    Err(driver_error(ErrorCode::Internal, message, operation))
}

/// A number in decimal, with its sign.
pub open spec fn signed_decimal(value: int) -> Seq<char> {
    if value < 0 {
        "-"@ + decimal((-value) as nat)
    } else {
        decimal(value as nat)
    }
}

/// Puts a number in decimal behind a text.
pub fn append_signed(text: &mut String, value: i32)
    ensures
        final(text)@ == old(text)@ + signed_decimal(value as int),
{
    if value < 0 {
        text.append("-");
        let magnitude: i64 = -(value as i64);
        append_decimal(text, magnitude as u64);
        assert(text@ =~= old(text)@ + signed_decimal(value as int));
    } else {
        append_decimal(text, value as u64);
    }
}

/// A process that exits by itself with a code is reported with that code.
pub proof fn exit_codes_are_kept(code: u8)
    ensures
        wait_outcome(((code as u32) << 8) as i32) == Some(
            ExitStatus { exit_code: Some(code as i32), signal: None, oom_killed: false },
        ),
{
    let raw = ((code as u32) << 8) as i32;
    assert(((((code as u32) << 8) as i32) & 0x7f) == 0) by (bit_vector);
    assert((((((code as u32) << 8) as i32) >> 8) & 0xff) == code as i32) by (bit_vector);
}

/// A generation as it is printed for debugging: the number of an exact one.
pub open spec fn generation_text(generation: Option<u64>) -> Seq<char> {
    match generation {
        Some(number) => "Some(Generation("@ + decimal(number as nat) + "))"@,
        None => "None"@,
    }
}

/// Puts a generation behind a text.
pub fn append_generation(text: &mut String, generation: Option<u64>)
    ensures
        final(text)@ == old(text)@ + generation_text(generation),
{
    match generation {
        Some(number) => {
            text.append("Some(Generation(");
            append_decimal(text, number);
            text.append("))");
            assert(text@ =~= old(text)@ + generation_text(generation));
        },
        None => {
            text.append("None");
        },
    }
}


/// What the checkpoint backend says of itself.
#[derive(Debug)]
pub struct CriuEvidence {
    pub format_name: String,
    pub format_version: u16,
    pub tool_version: String,
    pub tool_digest: String,
    pub driver_build_digest: String,
    pub source_revision: Option<String>,
}

/// The facts that a driver with a checkpoint backend states.
pub open spec fn criu_evidence(
    evidence: Map<Seq<char>, Seq<char>>,
    criu: CriuEvidence,
) -> Map<Seq<char>, Seq<char>> {
    evidence.insert("checkpoint_backend"@, "criu"@).insert(
        "checkpoint_format"@,
        criu.format_name@ + "-v"@ + decimal(criu.format_version as nat),
    ).insert("checkpoint_criu_version"@, criu.tool_version@).insert(
        "checkpoint_criu_digest"@,
        criu.tool_digest@,
    ).insert("checkpoint_driver_build_digest"@, criu.driver_build_digest@).insert(
        "checkpoint_source_revision"@,
        match criu.source_revision {
            Some(revision) => revision@,
            None => "unavailable"@,
        },
    ).insert("checkpoint_opt_in"@, "open-experimental-with-criu"@).insert(
        "restore_backend"@,
        "criu"@,
    )
}

/// An operation of the driver on one container.
#[derive(Clone, Copy, Debug, PartialEq, Eq, Structural)]
pub enum DriverCall {
    State,
    Start,
    Kill,
    Delete,
    Wait,
    Exec,
    SignalProcess,
    WaitProcess,
    Pause,
    Resume,
    Processes,
    Update,
    Stats,
    ReadOutput,
    WriteStdin,
    CloseStdin,
    Resize,
    File,
    Filesystem,
    Checkpoint,
}

/// What failures of a driver operation are attributed to.
pub open spec fn call_name(call: DriverCall) -> Seq<char> {
    match call {
        DriverCall::State => "native-linux-state"@,
        DriverCall::Start => "native-linux-start"@,
        DriverCall::Kill => "native-linux-kill"@,
        DriverCall::Delete => "native-linux-delete"@,
        DriverCall::Wait => "native-linux-wait"@,
        DriverCall::Exec => "native-linux-exec"@,
        DriverCall::SignalProcess => "native-linux-signal-process"@,
        DriverCall::WaitProcess => "native-linux-wait-process"@,
        DriverCall::Pause => "native-linux-pause"@,
        DriverCall::Resume => "native-linux-resume"@,
        DriverCall::Processes => "native-linux-processes"@,
        DriverCall::Update => "native-linux-update"@,
        DriverCall::Stats => "native-linux-stats"@,
        DriverCall::ReadOutput => "native-linux-read-output"@,
        DriverCall::WriteStdin => "native-linux-write-stdin"@,
        DriverCall::CloseStdin => "native-linux-close-stdin"@,
        DriverCall::Resize => "native-linux-resize"@,
        DriverCall::File => "native-linux-file"@,
        DriverCall::Filesystem => "native-linux-filesystem"@,
        DriverCall::Checkpoint => "native-linux-checkpoint"@,
    }
}

/// What failures of a driver operation are attributed to.
pub fn call_text(call: DriverCall) -> (name: &'static str)
    ensures
        name@ == call_name(call),
{
    match call {
        DriverCall::State => "native-linux-state",
        DriverCall::Start => "native-linux-start",
        DriverCall::Kill => "native-linux-kill",
        DriverCall::Delete => "native-linux-delete",
        DriverCall::Wait => "native-linux-wait",
        DriverCall::Exec => "native-linux-exec",
        DriverCall::SignalProcess => "native-linux-signal-process",
        DriverCall::WaitProcess => "native-linux-wait-process",
        DriverCall::Pause => "native-linux-pause",
        DriverCall::Resume => "native-linux-resume",
        DriverCall::Processes => "native-linux-processes",
        DriverCall::Update => "native-linux-update",
        DriverCall::Stats => "native-linux-stats",
        DriverCall::ReadOutput => "native-linux-read-output",
        DriverCall::WriteStdin => "native-linux-write-stdin",
        DriverCall::CloseStdin => "native-linux-close-stdin",
        DriverCall::Resize => "native-linux-resize",
        DriverCall::File => "native-linux-file",
        DriverCall::Filesystem => "native-linux-filesystem",
        DriverCall::Checkpoint => "native-linux-checkpoint",
    }
}

/// Generations that a driver found at its start, by container.
pub type Generations = Map<Seq<char>, Option<u64>>;

/// What a driver knows of one container.
pub enum Standing {
    /// Nothing: the agent is asked.
    Agent,
    /// The generation lives on under a session supervisor.
    Live,
    /// The generation was stopped after its owner was gone.
    Recovered,
    /// Another generation lives on.
    OtherLive(Option<u64>),
    /// Another generation was stopped.
    OtherRecovered(Option<u64>),
}

/// What a driver knows of a target. A generation that lives on comes first.
pub open spec fn standing(
    live: Generations,
    recovered: Generations,
    target: TargetView,
) -> Standing {
    if live.dom().contains(target.id) {
        if live[target.id] == target.generation {
            Standing::Live
        } else {
            Standing::OtherLive(live[target.id])
        }
    } else if recovered.dom().contains(target.id) {
        if recovered[target.id] == target.generation {
            Standing::Recovered
        } else {
            Standing::OtherRecovered(recovered[target.id])
        }
    } else {
        Standing::Agent
    }
}

/// The message for a generation other than the one that lives on or was stopped.
pub open spec fn other_generation_message(
    target: TargetView,
    evidence: Seq<char>,
    held: Option<u64>,
) -> Seq<char> {
    "container "@ + target.id + " has "@ + evidence + " for generation "@ + generation_text(held)
        + ", not requested generation "@ + generation_text(target.generation)
}

fn other_generation_error(
    target: &ContainerTarget,
    evidence: &str,
    held: Option<u64>,
    operation: &str,
) -> (error: Error)
    ensures
        error@ == driver_failure(
            ErrorCode::Conflict,
            other_generation_message(target@, evidence@, held),
            operation@,
        ),
{
    let mut message = "container ".to_owned();
    message.append(&target.id);
    message.append(" has ");
    message.append(evidence);
    message.append(" for generation ");
    append_generation(&mut message, held);
    message.append(", not requested generation ");
    append_generation(&mut message, target.generation);
    driver_error(ErrorCode::Conflict, message, operation)
}

/// The start of the messages about one generation of a container.
pub open spec fn named_generation(id: Seq<char>, generation: Option<u64>) -> Seq<char> {
    "container "@ + id + " generation "@ + generation_text(generation)
}

fn name_generation(id: &str, generation: Option<u64>) -> (text: String)
    ensures
        text@ == named_generation(id@, generation),
{
    let mut text = "container ".to_owned();
    text.append(id);
    text.append(" generation ");
    append_generation(&mut text, generation);
    text
}

/// The failure of a live operation on a generation that was stopped.
pub open spec fn recovered_stopped_failure(
    id: Seq<char>,
    generation: Option<u64>,
    operation: Seq<char>,
) -> ErrorView {
    driver_failure(
        ErrorCode::FailedPrecondition,
        named_generation(id, generation)
            + " was safely terminated after its native Linux owner exited; delete this stopped generation before another live operation"@,
        operation,
    )
}

/// The failure of a live operation on a generation that was stopped.
pub fn recovered_stopped_error(id: &str, generation: Option<u64>, operation: &str) -> (error: Error)
    ensures
        error@ == recovered_stopped_failure(id@, generation, operation@),
{
    let mut message = name_generation(id, generation);
    message.append(
        " was safely terminated after its native Linux owner exited; delete this stopped generation before another live operation",
    );
    driver_error(ErrorCode::FailedPrecondition, message, operation)
}

/// The failure of waiting for a generation that was stopped.
pub open spec fn recovered_exit_evidence_failure(
    id: Seq<char>,
    generation: Option<u64>,
    operation: Seq<char>,
) -> ErrorView {
    driver_failure(
        ErrorCode::FailedPrecondition,
        named_generation(id, generation)
            + " was safely terminated by native Linux owner-death cleanup, but no authenticated parent remained to retain its exact init exit status"@,
        operation,
    )
}

/// The failure of waiting for a generation that was stopped.
pub fn recovered_exit_evidence_error(
    id: &str,
    generation: Option<u64>,
    operation: &str,
) -> (error: Error)
    ensures
        error@ == recovered_exit_evidence_failure(id@, generation, operation@),
{
    let mut message = name_generation(id, generation);
    message.append(
        " was safely terminated by native Linux owner-death cleanup, but no authenticated parent remained to retain its exact init exit status",
    );
    driver_error(ErrorCode::FailedPrecondition, message, operation)
}

/// The failure of an operation that a session supervisor cannot carry out.
pub open spec fn session_lost_failure(target: TargetView, operation: Seq<char>) -> ErrorView {
    driver_failure(
        ErrorCode::Unavailable,
        named_generation(target.id, target.generation)
            + " is retained through a reattached session supervisor without a restored PreparedProcess; "@
            + operation + " requires full process-session restore"@,
        operation,
    )
}

fn session_lost_error(target: &ContainerTarget, operation: &str) -> (error: Error)
    ensures
        error@ == session_lost_failure(target@, operation@),
{
    let mut message = name_generation(&target.id, target.generation);
    message.append(
        " is retained through a reattached session supervisor without a restored PreparedProcess; ",
    );
    message.append(operation);
    message.append(" requires full process-session restore");
    driver_error(ErrorCode::Unavailable, message, operation)
}

/// Who carries a driver operation out, or what is answered at once.
#[derive(Clone, Copy, Debug, PartialEq, Eq, Structural)]
pub enum Dispatch {
    /// The agent.
    Agent,
    /// The session supervisor of the generation.
    Session,
    /// The answer is that the container is stopped.
    Stopped,
    /// The answer is that there are no processes.
    NoProcesses,
    /// What is left of the stopped generation is deleted.
    DeleteStopped,
}

/// Whether a session supervisor can carry an operation out.
pub open spec fn session_serves(call: DriverCall) -> bool {
    match call {
        DriverCall::Start | DriverCall::Update | DriverCall::Resize | DriverCall::File
        | DriverCall::Filesystem | DriverCall::Checkpoint => false,
        _ => true,
    }
}

/// What becomes of an operation on a generation that was stopped.
pub open spec fn stopped_dispatch(call: DriverCall, target: TargetView) -> Result<
    Dispatch,
    ErrorView,
> {
    match call {
        DriverCall::State | DriverCall::Kill => Ok(Dispatch::Stopped),
        DriverCall::Processes => Ok(Dispatch::NoProcesses),
        DriverCall::Delete => Ok(Dispatch::DeleteStopped),
        DriverCall::Wait | DriverCall::WaitProcess => Err(
            recovered_exit_evidence_failure(target.id, target.generation, call_name(call)),
        ),
        _ => Err(recovered_stopped_failure(target.id, target.generation, call_name(call))),
    }
}

/// The failure of an operation that only a checkpoint backend carries out.
pub open spec fn backend_failure(operation: Seq<char>) -> ErrorView {
    driver_failure(
        ErrorCode::Unsupported,
        "operation is not supported: "@ + operation,
        "native-linux-"@ + operation,
    )
}

/// The failure of an operation that needs a checkpoint backend, if there is none.
pub open spec fn backend_fault(checkpoints: bool, operation: Seq<char>) -> Option<ErrorView> {
    if checkpoints {
        None
    } else {
        Some(backend_failure(operation))
    }
}

/// The failure that keeps an artifact from being validated for a restore, if any,
/// before it is looked at.
pub open spec fn validation_fault(checkpoints: bool) -> Option<ErrorView> {
    backend_fault(checkpoints, "restore"@)
}

/// Who carries an operation on a target out, or what is answered. Without a
/// checkpoint backend nothing is asked of the target of a checkpoint.
pub open spec fn dispatched(
    checkpoints: bool,
    live: Generations,
    recovered: Generations,
    call: DriverCall,
    target: TargetView,
) -> Result<Dispatch, ErrorView> {
    if call is Checkpoint && !checkpoints {
        Err(backend_failure("checkpoint"@))
    } else {
        dispatched_by_standing(live, recovered, call, target)
    }
}

/// Who carries an operation on a target out, or what is answered, by what the
/// driver knows of the target.
pub open spec fn dispatched_by_standing(
    live: Generations,
    recovered: Generations,
    call: DriverCall,
    target: TargetView,
) -> Result<Dispatch, ErrorView> {
    match standing(live, recovered, target) {
        Standing::Agent => Ok(Dispatch::Agent),
        Standing::Live => if session_serves(call) {
            Ok(Dispatch::Session)
        } else {
            Err(session_lost_failure(target, call_name(call)))
        },
        Standing::Recovered => stopped_dispatch(call, target),
        Standing::OtherLive(held) => Err(
            driver_failure(
                ErrorCode::Conflict,
                other_generation_message(target, "live supervised recovery"@, held),
                call_name(call),
            ),
        ),
        Standing::OtherRecovered(held) => Err(
            driver_failure(
                ErrorCode::Conflict,
                other_generation_message(target, "native recovery evidence"@, held),
                call_name(call),
            ),
        ),
    }
}

/// What a new container asks of the driver.
#[derive(Clone, Copy, Debug, PartialEq, Eq, Structural)]
pub enum Arrival {
    Create,
    Restore,
}

/// What failures of a new container are attributed to.
pub open spec fn arrival_name(arrival: Arrival) -> Seq<char> {
    match arrival {
        Arrival::Create => "native-linux-create"@,
        Arrival::Restore => "native-linux-restore"@,
    }
}

/// The failure that keeps a new container out, if any. A restore needs a
/// checkpoint backend before anything else.
pub open spec fn arrival_fault(
    checkpoints: bool,
    live: Generations,
    recovered: Generations,
    arrival: Arrival,
    isolation: IsolationClass,
    id: Seq<char>,
) -> Option<ErrorView> {
    let word = match arrival {
        Arrival::Create => "create"@,
        Arrival::Restore => "restore"@,
    };
    if arrival is Restore && !checkpoints {
        Some(backend_failure("restore"@))
    } else if !(isolation is SharedHostKernel) {
        Some(
            driver_failure(
                ErrorCode::Unsupported,
                match arrival {
                    Arrival::Create =>
                        "native Linux execution requires shared-host-kernel isolation"@,
                    Arrival::Restore =>
                        "native Linux restore requires shared-host-kernel isolation"@,
                },
                arrival_name(arrival),
            ),
        )
    } else if recovered.dom().contains(id) {
        Some(recovered_stopped_failure(id, recovered[id], arrival_name(arrival)))
    } else if live.dom().contains(id) {
        Some(
            driver_failure(
                ErrorCode::FailedPrecondition,
                named_generation(id, live[id])
                    + " is retained through a reattached session supervisor; "@ + word
                    + " requires a fresh generation"@,
                arrival_name(arrival),
            ),
        )
    } else {
        None
    }
}

/// The native Linux driver: what it says of itself, and the generations that it
/// found at its start.
#[derive(Debug)]
pub struct NativeLinuxDriver {
    capability: DriverCapability,
    attachment_capabilities: AttachmentCapabilities,
    operations: Vec<RuntimeOperation>,
    checkpoint: bool,
    recovered: TextMap<Option<u64>>,
    live: TextMap<Option<u64>>,
}

/// The operations that a driver carries out: those of its agent, and those of a
/// checkpoint backend where there is one.
pub open spec fn offered_operations(checkpoint: bool) -> Seq<RuntimeOperation> {
    if checkpoint {
        agent_operation_list().push(RuntimeOperation::Checkpoint).push(RuntimeOperation::Restore)
    } else {
        agent_operation_list()
    }
}

impl NativeLinuxDriver {
    /// Whether the driver's tables are in order.
    pub closed spec fn wf(&self) -> bool {
        &&& self.capability.evidence.wf()
        &&& self.recovered.wf()
        &&& self.live.wf()
        &&& self.operations@ == offered_operations(self.checkpoint)
    }

    /// What the driver says of itself.
    pub closed spec fn stated(&self) -> DriverCapability {
        self.capability
    }

    /// The attachments that the driver carries out.
    pub closed spec fn attachments(&self) -> AttachmentCapabilities {
        self.attachment_capabilities
    }

    /// The operations that the driver carries out.
    pub closed spec fn offered(&self) -> Seq<RuntimeOperation> {
        self.operations@
    }

    /// Whether there is a checkpoint backend.
    pub closed spec fn checkpoints(&self) -> bool {
        self.checkpoint
    }

    /// Generations that were stopped after their owner was gone.
    pub closed spec fn recovered_generations(&self) -> Generations {
        self.recovered@
    }

    /// Generations that live on under a session supervisor.
    pub closed spec fn live_generations(&self) -> Generations {
        self.live@
    }

    /// Whether the driver was opened in a mode, without a checkpoint backend and
    /// without recovered generations.
    pub open spec fn opened(
        &self,
        capability: DriverCapability,
        mode: OpenMode,
        has_network_device_authority: bool,
    ) -> bool {
        &&& self.wf()
        &&& self.stated() == (DriverCapability {
            readiness: DriverReadiness::Experimental,
            evidence: self.stated().evidence,
            ..capability
        })
        &&& self.stated().evidence@ == opening_evidence(capability.evidence@, mode)
        &&& self.attachments() == attachments_for(has_network_device_authority)
        &&& self.offered() == offered_operations(false)
        &&& !self.checkpoints()
        &&& self.recovered_generations() == Map::<Seq<char>, Option<u64>>::empty()
        &&& self.live_generations() == Map::<Seq<char>, Option<u64>>::empty()
    }

    fn open_in(
        capability: DriverCapability,
        mode: OpenMode,
        has_network_device_authority: bool,
    ) -> (result: Result<NativeLinuxDriver, Error>)
        requires
            capability.evidence.wf(),
        ensures
            match result {
                Ok(driver) => capability.status is Available && driver.opened(
                    capability,
                    mode,
                    has_network_device_authority,
                ),
                Err(error) => !(capability.status is Available) && error@ == opening_failure(
                    capability.reason,
                ),
            },
    {
        match open_capability(capability, mode) {
            Ok(capability) => Ok(
                NativeLinuxDriver {
                    capability,
                    attachment_capabilities: native_attachment_capabilities(
                        has_network_device_authority,
                    ),
                    operations: agent_operations(),
                    checkpoint: false,
                    recovered: TextMap::new(),
                    live: TextMap::new(),
                },
            ),
            Err(error) => Err(error),
        }
    }

    /// Opens the driver with the cgroup authority of the host.
    pub fn open_experimental(
        capability: DriverCapability,
        has_network_device_authority: bool,
    ) -> (result: Result<NativeLinuxDriver, Error>)
        requires
            capability.evidence.wf(),
        ensures
            match result {
                Ok(driver) => capability.status is Available && driver.opened(
                    capability,
                    OpenMode::Experimental,
                    has_network_device_authority,
                ),
                Err(error) => !(capability.status is Available) && error@ == opening_failure(
                    capability.reason,
                ),
            },
    {
        NativeLinuxDriver::open_in(
            capability,
            OpenMode::Experimental,
            has_network_device_authority,
        )
    }

    /// Opens the driver with a cgroup subtree that the host delegated to an
    /// unprivileged user.
    pub fn open_experimental_with_rootless_cgroup_delegation(
        capability: DriverCapability,
        has_network_device_authority: bool,
    ) -> (result: Result<NativeLinuxDriver, Error>)
        requires
            capability.evidence.wf(),
        ensures
            match result {
                Ok(driver) => capability.status is Available && driver.opened(
                    capability,
                    OpenMode::RootlessCgroupDelegation,
                    has_network_device_authority,
                ),
                Err(error) => !(capability.status is Available) && error@ == opening_failure(
                    capability.reason,
                ),
            },
    {
        NativeLinuxDriver::open_in(
            capability,
            OpenMode::RootlessCgroupDelegation,
            has_network_device_authority,
        )
    }

    /// Opens the driver with a delegated cgroup subtree and a helper that keeps
    /// device authority.
    pub fn open_experimental_with_rootless_device_policy(
        capability: DriverCapability,
        has_network_device_authority: bool,
    ) -> (result: Result<NativeLinuxDriver, Error>)
        requires
            capability.evidence.wf(),
        ensures
            match result {
                Ok(driver) => capability.status is Available && driver.opened(
                    capability,
                    OpenMode::RootlessDevicePolicy,
                    has_network_device_authority,
                ),
                Err(error) => !(capability.status is Available) && error@ == opening_failure(
                    capability.reason,
                ),
            },
    {
        NativeLinuxDriver::open_in(
            capability,
            OpenMode::RootlessDevicePolicy,
            has_network_device_authority,
        )
    }

    /// Opens the driver with the cgroup authority of the host and one exact CRIU
    /// executable, with which it checkpoints and restores.
    pub fn open_experimental_with_criu(
        capability: DriverCapability,
        has_network_device_authority: bool,
        criu: CriuEvidence,
    ) -> (result: Result<NativeLinuxDriver, Error>)
        requires
            capability.evidence.wf(),
        ensures
            match result {
                Ok(driver) => {
                    &&& capability.status is Available
                    &&& driver.wf()
                    &&& driver.stated() == (DriverCapability {
                        readiness: DriverReadiness::Experimental,
                        evidence: driver.stated().evidence,
                        ..capability
                    })
                    &&& driver.stated().evidence@ == criu_evidence(
                        opening_evidence(capability.evidence@, OpenMode::Experimental),
                        criu,
                    )
                    &&& driver.attachments() == attachments_for(has_network_device_authority)
                    &&& driver.offered() == offered_operations(true)
                    &&& driver.checkpoints()
                    &&& driver.recovered_generations() == Map::<Seq<char>, Option<u64>>::empty()
                    &&& driver.live_generations() == Map::<Seq<char>, Option<u64>>::empty()
                },
                Err(error) => !(capability.status is Available) && error@ == opening_failure(
                    capability.reason,
                ),
            },
    {
        let mut capability = match open_capability(capability, OpenMode::Experimental) {
            Ok(capability) => capability,
            Err(error) => return Err(error),
        };
        let mut operations = agent_operations();
        operations.push(RuntimeOperation::Checkpoint);
        operations.push(RuntimeOperation::Restore);
        let mut format = criu.format_name.clone();
        format.append("-v");
        append_decimal(&mut format, criu.format_version as u64);
        let revision = match &criu.source_revision {
            Some(revision) => revision.as_str(),
            None => "unavailable",
        };
        capability.evidence.insert("checkpoint_backend", "criu");
        capability.evidence.insert("checkpoint_format", &format);
        capability.evidence.insert("checkpoint_criu_version", &criu.tool_version);
        capability.evidence.insert("checkpoint_criu_digest", &criu.tool_digest);
        capability.evidence.insert(
            "checkpoint_driver_build_digest",
            &criu.driver_build_digest,
        );
        capability.evidence.insert("checkpoint_source_revision", revision);
        capability.evidence.insert("checkpoint_opt_in", "open-experimental-with-criu");
        capability.evidence.insert("restore_backend", "criu");
        Ok(
            NativeLinuxDriver {
                capability,
                attachment_capabilities: native_attachment_capabilities(
                    has_network_device_authority,
                ),
                operations,
                checkpoint: true,
                recovered: TextMap::new(),
                live: TextMap::new(),
            },
        )
    }

    /// What the driver says of itself.
    pub fn capability(&self) -> (capability: &DriverCapability)
        ensures
            *capability == self.stated(),
    {
        &self.capability
    }

    /// The operations that the driver carries out.
    pub fn operations(&self) -> (operations: &Vec<RuntimeOperation>)
        ensures
            operations@ == self.offered(),
    {
        &self.operations
    }

    /// The attachments that the driver carries out.
    pub fn attachment_capabilities(&self) -> (capabilities: AttachmentCapabilities)
        ensures
            capabilities == self.attachments(),
    {
        self.attachment_capabilities
    }

    /// Whether there is a checkpoint backend.
    pub fn has_checkpoint(&self) -> (present: bool)
        ensures
            present == self.checkpoints(),
    {
        self.checkpoint
    }

    /// Checks that there is a checkpoint backend for an operation that needs one:
    /// checkpoints, restores, and the validation of what is to be restored.
    pub fn check_backend(&self, operation: &str) -> (result: Result<(), Error>)
        ensures
            match backend_fault(self.checkpoints(), operation@) {
                Some(failure) => result matches Err(error) && error@ == failure,
                None => result is Ok,
            },
    {
        if self.checkpoint {
            return Ok(());
        }
        let mut message = "operation is not supported: ".to_owned();
        message.append(operation);
        let mut name = "native-linux-".to_owned();
        name.append(operation);
        Err(driver_error(ErrorCode::Unsupported, message, &name))
    }

    /// Checks that an artifact may be looked at before it is restored.
    pub fn check_restore_validation(&self) -> (result: Result<(), Error>)
        ensures
            match validation_fault(self.checkpoints()) {
                Some(failure) => result matches Err(error) && error@ == failure,
                None => result is Ok,
            },
    {
        self.check_backend("restore")
    }

    /// Whether the target lives on under a session supervisor.
    pub fn live_for(&self, target: &ContainerTarget, operation: &str) -> (result: Result<
        bool,
        Error,
    >)
        requires
            self.wf(),
        ensures
            ({
                let live = self.live_generations();
                if !live.dom().contains(target@.id) {
                    result == Ok::<bool, Error>(false)
                } else if live[target@.id] == target@.generation {
                    result == Ok::<bool, Error>(true)
                } else {
                    result matches Err(error) && error@ == driver_failure(
                        ErrorCode::Conflict,
                        other_generation_message(
                            target@,
                            "live supervised recovery"@,
                            live[target@.id],
                        ),
                        operation@,
                    )
                }
            }),
    {
        match self.live.get(&target.id) {
            None => Ok(false),
            Some(held) => {
                if *held == target.generation {
                    Ok(true)
                } else {
                    Err(
                        other_generation_error(
                            target,
                            "live supervised recovery",
                            *held,
                            operation,
                        ),
                    )
                }
            },
        }
    }

    /// Whether the target was stopped after its owner was gone.
    pub fn recovered_for(&self, target: &ContainerTarget, operation: &str) -> (result: Result<
        bool,
        Error,
    >)
        requires
            self.wf(),
        ensures
            ({
                let recovered = self.recovered_generations();
                if !recovered.dom().contains(target@.id) {
                    result == Ok::<bool, Error>(false)
                } else if recovered[target@.id] == target@.generation {
                    result == Ok::<bool, Error>(true)
                } else {
                    result matches Err(error) && error@ == driver_failure(
                        ErrorCode::Conflict,
                        other_generation_message(
                            target@,
                            "native recovery evidence"@,
                            recovered[target@.id],
                        ),
                        operation@,
                    )
                }
            }),
    {
        match self.recovered.get(&target.id) {
            None => Ok(false),
            Some(held) => {
                if *held == target.generation {
                    Ok(true)
                } else {
                    Err(
                        other_generation_error(
                            target,
                            "native recovery evidence",
                            *held,
                            operation,
                        ),
                    )
                }
            },
        }
    }

    /// Decides who carries an operation on a target out, or what is answered at
    /// once.
    pub fn dispatch(&self, call: DriverCall, target: &ContainerTarget) -> (result: Result<
        Dispatch,
        Error,
    >)
        requires
            self.wf(),
        ensures
            match dispatched(
                self.checkpoints(),
                self.live_generations(),
                self.recovered_generations(),
                call,
                target@,
            ) {
                Ok(dispatch) => result == Ok::<Dispatch, Error>(dispatch),
                Err(failure) => result matches Err(error) && error@ == failure,
            },
    {
        if call == DriverCall::Checkpoint {
            match self.check_backend("checkpoint") {
                Ok(()) => {},
                Err(error) => return Err(error),
            }
        }
        let operation = call_text(call);
        match self.live_for(target, operation) {
            Err(error) => return Err(error),
            Ok(true) => {
                return match call {
                    DriverCall::Start | DriverCall::Update | DriverCall::Resize
                    | DriverCall::File | DriverCall::Filesystem | DriverCall::Checkpoint => Err(
                        session_lost_error(target, operation),
                    ),
                    _ => Ok(Dispatch::Session),
                };
            },
            Ok(false) => {},
        }
        match self.recovered_for(target, operation) {
            Err(error) => return Err(error),
            Ok(true) => {},
            Ok(false) => return Ok(Dispatch::Agent),
        }
        match call {
            DriverCall::State | DriverCall::Kill => Ok(Dispatch::Stopped),
            DriverCall::Processes => Ok(Dispatch::NoProcesses),
            DriverCall::Delete => Ok(Dispatch::DeleteStopped),
            DriverCall::Wait | DriverCall::WaitProcess => Err(
                recovered_exit_evidence_error(&target.id, target.generation, operation),
            ),
            _ => Err(recovered_stopped_error(&target.id, target.generation, operation)),
        }
    }

    /// Checks that a new container may be created or restored.
    pub fn check_arrival(&self, arrival: Arrival, isolation: IsolationClass, id: &str) -> (result: Result<
        (),
        Error,
    >)
        requires
            self.wf(),
        ensures
            match arrival_fault(
                self.checkpoints(),
                self.live_generations(),
                self.recovered_generations(),
                arrival,
                isolation,
                id@,
            ) {
                Some(failure) => result matches Err(error) && error@ == failure,
                None => result is Ok,
            },
    {
        if arrival == Arrival::Restore {
            match self.check_backend("restore") {
                Ok(()) => {},
                Err(error) => return Err(error),
            }
        }
        let (operation, word) = match arrival {
            Arrival::Create => ("native-linux-create", "create"),
            Arrival::Restore => ("native-linux-restore", "restore"),
        };
        if isolation != IsolationClass::SharedHostKernel {
            let message = match arrival {
                Arrival::Create => "native Linux execution requires shared-host-kernel isolation",
                Arrival::Restore => "native Linux restore requires shared-host-kernel isolation",
            };
            return Err(driver_error(ErrorCode::Unsupported, message.to_owned(), operation));
        }
        if let Some(held) = self.recovered.get(id) {
            return Err(recovered_stopped_error(id, *held, operation));
        }
        if let Some(held) = self.live.get(id) {
            let mut message = name_generation(id, *held);
            message.append(" is retained through a reattached session supervisor; ");
            message.append(word);
            message.append(" requires a fresh generation");
            return Err(driver_error(ErrorCode::FailedPrecondition, message, operation));
        }
        Ok(())
    }

    /// Forgets a generation that lived on and was deleted.
    pub fn forget_live(&mut self, id: &str)
        requires
            old(self).wf(),
        ensures
            final(self).wf(),
            final(self).live_generations() == old(self).live_generations().remove(id@),
            final(self).recovered_generations() == old(self).recovered_generations(),
            final(self).stated() == old(self).stated(),
            final(self).offered() == old(self).offered(),
            final(self).attachments() == old(self).attachments(),
            final(self).checkpoints() == old(self).checkpoints(),
    {
        self.live.remove(id);
    }

    /// Forgets a stopped generation that was deleted; another one of the same
    /// container is kept.
    pub fn forget_recovered(&mut self, target: &ContainerTarget)
        requires
            old(self).wf(),
        ensures
            final(self).wf(),
            final(self).recovered_generations() == (if old(
                self,
            ).recovered_generations().dom().contains(target@.id) && old(
                self,
            ).recovered_generations()[target@.id] == target@.generation {
                old(self).recovered_generations().remove(target@.id)
            } else {
                old(self).recovered_generations()
            }),
            final(self).live_generations() == old(self).live_generations(),
            final(self).stated() == old(self).stated(),
            final(self).offered() == old(self).offered(),
            final(self).attachments() == old(self).attachments(),
            final(self).checkpoints() == old(self).checkpoints(),
    {
        let current = match self.recovered.get(&target.id) {
            Some(held) => *held == target.generation,
            None => false,
        };
        if current {
            self.recovered.remove(&target.id);
        }
    }
}


/// One step of recovering a container after a restart.
#[derive(Clone, Copy, Debug, PartialEq, Eq, Structural)]
pub enum RecoveryStep {
    /// Let the checkpoint backend recover a restore.
    RecoverRestore,
    /// Read the state of the container that was restored again.
    MapRestored,
    /// Ask the agent for the state of the container.
    QueryState,
    /// Ask the agent for the exit status of the stopped container.
    WaitExit,
    /// Look for what an earlier owner left behind.
    RecoverStale,
    /// Delete what an earlier owner left behind.
    DeleteStale,
    /// Observe the generation that lives on.
    ObserveLive,
}

/// What came of a step of recovering a container.
#[derive(Debug)]
pub enum RecoveryEvent {
    /// No restore made the container.
    NotRestored,
    /// The restore is to be asked for again.
    RestorePending,
    /// The container was restored again.
    RestoreRecreated,
    /// The container was observed.
    Observed(DriverState),
    /// The container's init ended like this.
    Exited(ExitStatus),
    /// An earlier owner left nothing behind.
    NoStale,
    /// An earlier owner left a generation that is now stopped.
    StaleStopped,
    /// An earlier owner left a generation that lives on.
    StaleLive,
    /// The step is done.
    Done,
    /// The step failed.
    Failed(Error),
}

/// What came of a step of recovering a container, as values.
pub enum RecoveryEventView {
    NotRestored,
    RestorePending,
    RestoreRecreated,
    Observed(DriverState),
    Exited(ExitStatus),
    NoStale,
    StaleStopped,
    StaleLive,
    Done,
    Failed(ErrorView),
}

impl View for RecoveryEvent {
    type V = RecoveryEventView;

    open spec fn view(&self) -> RecoveryEventView {
        match *self {
            RecoveryEvent::NotRestored => RecoveryEventView::NotRestored,
            RecoveryEvent::RestorePending => RecoveryEventView::RestorePending,
            RecoveryEvent::RestoreRecreated => RecoveryEventView::RestoreRecreated,
            RecoveryEvent::Observed(state) => RecoveryEventView::Observed(state),
            RecoveryEvent::Exited(status) => RecoveryEventView::Exited(status),
            RecoveryEvent::NoStale => RecoveryEventView::NoStale,
            RecoveryEvent::StaleStopped => RecoveryEventView::StaleStopped,
            RecoveryEvent::StaleLive => RecoveryEventView::StaleLive,
            RecoveryEvent::Done => RecoveryEventView::Done,
            RecoveryEvent::Failed(error) => RecoveryEventView::Failed(error@),
        }
    }
}

/// What the driver tells its host of a recovered container.
#[derive(Clone, Copy, Debug, PartialEq, Eq, Structural)]
pub enum DriverRecovery {
    /// Nothing that changes the durable record.
    Nothing,
    /// The container was restored again and is paused.
    RecreatedPausedRunning(DriverState),
    /// The container has stopped, with this exit status.
    StoppedWithExit(ExitStatus),
    /// The container was observed.
    Observed(DriverState),
}

/// Where the recovery of a container stands; each state says what is done next.
#[derive(Debug)]
pub enum RecoveryState {
    /// The step is done next.
    At(RecoveryStep),
    /// The outcome is handed to the host.
    Recovered(DriverRecovery),
    /// The failure is handed to the host.
    Refused(Error),
    /// The event was not one that the step can have.
    Confused,
}

/// Where the recovery of a container stands, as values.
pub enum RecoveryStateView {
    At(RecoveryStep),
    Recovered(DriverRecovery),
    Refused(ErrorView),
    Confused,
}

impl View for RecoveryState {
    type V = RecoveryStateView;

    open spec fn view(&self) -> RecoveryStateView {
        match *self {
            RecoveryState::At(step) => RecoveryStateView::At(step),
            RecoveryState::Recovered(recovery) => RecoveryStateView::Recovered(recovery),
            RecoveryState::Refused(error) => RecoveryStateView::Refused(error@),
            RecoveryState::Confused => RecoveryStateView::Confused,
        }
    }
}

/// The message for a container that another generation is known of.
pub open spec fn already_message(id: Seq<char>, evidence: Seq<char>, held: Option<u64>) -> Seq<
    char,
> {
    "container "@ + id + " already has "@ + evidence + " for generation "@ + generation_text(held)
}

/// A table with a generation registered, where no other generation of the
/// container is in it.
pub open spec fn registered(
    generations: Generations,
    target: TargetView,
) -> Option<Generations> {
    if !generations.dom().contains(target.id) {
        Some(generations.insert(target.id, target.generation))
    } else if generations[target.id] == target.generation {
        Some(generations)
    } else {
        None
    }
}

/// The target of a durable record.
pub open spec fn record_target(record: RecordView) -> TargetView {
    TargetView { id: record.id, generation: Some(record.generation) }
}

/// A container as it is known after it was found stopped.
pub open spec fn stopped_state() -> DriverState {
    DriverState { status: ContainerState::Stopped, pid: None, paused: false }
}

/// Where a recovery stands after an event. A container that was still being
/// created is never reported as stopped or running.
pub open spec fn next_recovery(
    live: Generations,
    recovered: Generations,
    record: RecordView,
    step: RecoveryStep,
    event: RecoveryEventView,
) -> RecoveryStateView {
    let creating = record.status is Creating;
    match (step, event) {
        (_, RecoveryEventView::Failed(error)) => if step is QueryState && error.code
            == ErrorCode::NotFound {
            RecoveryStateView::At(RecoveryStep::RecoverStale)
        } else {
            RecoveryStateView::Refused(error)
        },
        (RecoveryStep::RecoverRestore, RecoveryEventView::NotRestored) => RecoveryStateView::At(
            RecoveryStep::QueryState,
        ),
        (RecoveryStep::RecoverRestore, RecoveryEventView::RestorePending) =>
            RecoveryStateView::Recovered(DriverRecovery::Nothing),
        (RecoveryStep::RecoverRestore, RecoveryEventView::RestoreRecreated) =>
            RecoveryStateView::At(RecoveryStep::MapRestored),
        (RecoveryStep::MapRestored, RecoveryEventView::Observed(state)) =>
            RecoveryStateView::Recovered(DriverRecovery::RecreatedPausedRunning(state)),
        (RecoveryStep::QueryState, RecoveryEventView::Observed(state)) => if creating {
            RecoveryStateView::Recovered(DriverRecovery::Nothing)
        } else if state.status is Stopped {
            RecoveryStateView::At(RecoveryStep::WaitExit)
        } else {
            RecoveryStateView::Recovered(DriverRecovery::Observed(state))
        },
        (RecoveryStep::WaitExit, RecoveryEventView::Exited(status)) =>
            RecoveryStateView::Recovered(DriverRecovery::StoppedWithExit(status)),
        (RecoveryStep::RecoverStale, RecoveryEventView::NoStale) => if creating {
            RecoveryStateView::Recovered(DriverRecovery::Nothing)
        } else {
            RecoveryStateView::Refused(
                driver_failure(
                    ErrorCode::FailedPrecondition,
                    "no authenticated native recovery record exists for "@ + named_generation(
                        record.id,
                        Some(record.generation),
                    ),
                    "native-linux-recover"@,
                ),
            )
        },
        (RecoveryStep::RecoverStale, RecoveryEventView::StaleStopped) => if creating {
            RecoveryStateView::At(RecoveryStep::DeleteStale)
        } else if registered(recovered, record_target(record)) is Some {
            RecoveryStateView::Recovered(DriverRecovery::Observed(stopped_state()))
        } else {
            RecoveryStateView::Refused(
                driver_failure(
                    ErrorCode::Conflict,
                    already_message(record.id, "native recovery evidence"@, recovered[record.id]),
                    "native-linux-recover"@,
                ),
            )
        },
        (RecoveryStep::RecoverStale, RecoveryEventView::StaleLive) => if creating {
            RecoveryStateView::Recovered(DriverRecovery::Nothing)
        } else {
            RecoveryStateView::At(RecoveryStep::ObserveLive)
        },
        (RecoveryStep::DeleteStale, RecoveryEventView::Done) => RecoveryStateView::Recovered(
            DriverRecovery::Nothing,
        ),
        (RecoveryStep::ObserveLive, RecoveryEventView::Observed(state)) => if registered(
            live,
            record_target(record),
        ) is Some {
            RecoveryStateView::Recovered(DriverRecovery::Observed(state))
        } else {
            RecoveryStateView::Refused(
                driver_failure(
                    ErrorCode::Conflict,
                    already_message(record.id, "live supervised recovery"@, live[record.id]),
                    "native-linux-recover"@,
                ),
            )
        },
        _ => RecoveryStateView::Confused,
    }
}

/// The generations that live on, after an event of a recovery.
pub open spec fn live_after(
    live: Generations,
    record: RecordView,
    step: RecoveryStep,
    event: RecoveryEventView,
) -> Generations {
    if step is RecoverStale && event is StaleLive && record.status is Creating {
        live.insert(record.id, Some(record.generation))
    } else if step is ObserveLive && event is Observed {
        match registered(live, record_target(record)) {
            Some(generations) => generations,
            None => live,
        }
    } else {
        live
    }
}

/// The generations that were stopped, after an event of a recovery.
pub open spec fn recovered_after(
    recovered: Generations,
    record: RecordView,
    step: RecoveryStep,
    event: RecoveryEventView,
) -> Generations {
    if step is RecoverStale && event is StaleStopped && !(record.status is Creating) {
        match registered(recovered, record_target(record)) {
            Some(generations) => generations,
            None => recovered,
        }
    } else {
        recovered
    }
}

fn already_error(id: &str, evidence: &str, held: Option<u64>) -> (error: Error)
    ensures
        error@ == driver_failure(
            ErrorCode::Conflict,
            already_message(id@, evidence@, held),
            "native-linux-recover"@,
        ),
{
    let mut message = "container ".to_owned();
    message.append(id);
    message.append(" already has ");
    message.append(evidence);
    message.append(" for generation ");
    append_generation(&mut message, held);
    driver_error(ErrorCode::Conflict, message, "native-linux-recover")
}

/// Registers a generation, unless another one of the container is there.
fn register(generations: &mut TextMap<Option<u64>>, id: &str, generation: u64) -> (result: Result<
    (),
    Option<u64>,
>)
    requires
        old(generations).wf(),
    ensures
        final(generations).wf(),
        ({
            let target = TargetView { id: id@, generation: Some(generation) };
            match registered(old(generations)@, target) {
                Some(after) => result is Ok && final(generations)@ == after,
                None => result == Err::<(), Option<u64>>(old(generations)@[id@])
                    && final(generations)@ == old(generations)@,
            }
        }),
{
    let held = match generations.get(id) {
        Some(held) => Some(*held),
        None => None,
    };
    match held {
        None => {
            generations.insert(id, Some(generation));
            Ok(())
        },
        Some(held) => {
            if held == Some(generation) {
                Ok(())
            } else {
                Err(held)
            }
        },
    }
}

impl NativeLinuxDriver {
    /// The first step of recovering a container.
    pub fn begin_recovery(&self) -> (state: RecoveryState)
        ensures
            state@ == RecoveryStateView::At(
                if self.checkpoints() {
                    RecoveryStep::RecoverRestore
                } else {
                    RecoveryStep::QueryState
                },
            ),
    {
        if self.checkpoint {
            RecoveryState::At(RecoveryStep::RecoverRestore)
        } else {
            RecoveryState::At(RecoveryStep::QueryState)
        }
    }

    /// Where the recovery of a container stands after an event of a step.
    pub fn recover(
        &mut self,
        record: &ContainerRecord,
        step: RecoveryStep,
        event: RecoveryEvent,
    ) -> (state: RecoveryState)
        requires
            old(self).wf(),
        ensures
            final(self).wf(),
            state@ == next_recovery(
                old(self).live_generations(),
                old(self).recovered_generations(),
                record@,
                step,
                event@,
            ),
            final(self).live_generations() == live_after(
                old(self).live_generations(),
                record@,
                step,
                event@,
            ),
            final(self).recovered_generations() == recovered_after(
                old(self).recovered_generations(),
                record@,
                step,
                event@,
            ),
            final(self).stated() == old(self).stated(),
            final(self).offered() == old(self).offered(),
            final(self).attachments() == old(self).attachments(),
            final(self).checkpoints() == old(self).checkpoints(),
    {
        let creating = record.status == ContainerState::Creating;
        match event {
            RecoveryEvent::Failed(error) => {
                if step == RecoveryStep::QueryState && error.code == ErrorCode::NotFound {
                    RecoveryState::At(RecoveryStep::RecoverStale)
                } else {
                    RecoveryState::Refused(error)
                }
            },
            RecoveryEvent::NotRestored => match step {
                RecoveryStep::RecoverRestore => RecoveryState::At(RecoveryStep::QueryState),
                _ => RecoveryState::Confused,
            },
            RecoveryEvent::RestorePending => match step {
                RecoveryStep::RecoverRestore => RecoveryState::Recovered(DriverRecovery::Nothing),
                _ => RecoveryState::Confused,
            },
            RecoveryEvent::RestoreRecreated => match step {
                RecoveryStep::RecoverRestore => RecoveryState::At(RecoveryStep::MapRestored),
                _ => RecoveryState::Confused,
            },
            RecoveryEvent::Observed(state) => match step {
                RecoveryStep::MapRestored => RecoveryState::Recovered(
                    DriverRecovery::RecreatedPausedRunning(state),
                ),
                RecoveryStep::QueryState => {
                    if creating {
                        RecoveryState::Recovered(DriverRecovery::Nothing)
                    } else if state.status == ContainerState::Stopped {
                        RecoveryState::At(RecoveryStep::WaitExit)
                    } else {
                        RecoveryState::Recovered(DriverRecovery::Observed(state))
                    }
                },
                RecoveryStep::ObserveLive => {
                    match register(&mut self.live, &record.id, record.generation) {
                        Ok(()) => RecoveryState::Recovered(DriverRecovery::Observed(state)),
                        Err(held) => RecoveryState::Refused(
                            already_error(&record.id, "live supervised recovery", held),
                        ),
                    }
                },
                _ => RecoveryState::Confused,
            },
            RecoveryEvent::Exited(status) => match step {
                RecoveryStep::WaitExit => RecoveryState::Recovered(
                    DriverRecovery::StoppedWithExit(status),
                ),
                _ => RecoveryState::Confused,
            },
            RecoveryEvent::NoStale => match step {
                RecoveryStep::RecoverStale => {
                    if creating {
                        RecoveryState::Recovered(DriverRecovery::Nothing)
                    } else {
                        let mut message =
                            "no authenticated native recovery record exists for ".to_owned();
                        message.append(&name_generation(&record.id, Some(record.generation)));
                        RecoveryState::Refused(
                            driver_error(
                                ErrorCode::FailedPrecondition,
                                message,
                                "native-linux-recover",
                            ),
                        )
                    }
                },
                _ => RecoveryState::Confused,
            },
            RecoveryEvent::StaleStopped => match step {
                RecoveryStep::RecoverStale => {
                    if creating {
                        RecoveryState::At(RecoveryStep::DeleteStale)
                    } else {
                        match register(&mut self.recovered, &record.id, record.generation) {
                            Ok(()) => RecoveryState::Recovered(
                                DriverRecovery::Observed(DriverState::stopped()),
                            ),
                            Err(held) => RecoveryState::Refused(
                                already_error(&record.id, "native recovery evidence", held),
                            ),
                        }
                    }
                },
                _ => RecoveryState::Confused,
            },
            RecoveryEvent::StaleLive => match step {
                RecoveryStep::RecoverStale => {
                    if creating {
                        self.live.insert(&record.id, Some(record.generation));
                        RecoveryState::Recovered(DriverRecovery::Nothing)
                    } else {
                        RecoveryState::At(RecoveryStep::ObserveLive)
                    }
                },
                _ => RecoveryState::Confused,
            },
            RecoveryEvent::Done => match step {
                RecoveryStep::DeleteStale => RecoveryState::Recovered(DriverRecovery::Nothing),
                _ => RecoveryState::Confused,
            },
        }
    }
}

/// A driver with a checkpoint backend offers what its agent does and behind it
/// checkpoints and restores; any other offers what its agent does, and neither
/// checkpoints nor restores.
pub proof fn only_criu_drivers_checkpoint(driver: NativeLinuxDriver)
    requires
        driver.wf(),
    ensures
        driver.offered() == (if driver.checkpoints() {
            agent_operation_list().push(RuntimeOperation::Checkpoint).push(
                RuntimeOperation::Restore,
            )
        } else {
            agent_operation_list()
        }),
        driver.offered().contains(RuntimeOperation::Checkpoint) <==> driver.checkpoints(),
        driver.offered().contains(RuntimeOperation::Restore) <==> driver.checkpoints(),
{
    if driver.checkpoints() {
        let last = driver.offered().len() - 1;
        assert(driver.offered()[last] == RuntimeOperation::Restore);
        assert(driver.offered()[last - 1] == RuntimeOperation::Checkpoint);
    } else {
        assert(forall|i: int|
            0 <= i < driver.offered().len() ==> driver.offered()[i] != RuntimeOperation::Restore
                && driver.offered()[i] != RuntimeOperation::Checkpoint);
    }
}

/// A driver that was opened without CRIU, in whatever mode, offers what its agent
/// does, and refuses every checkpoint, every restore and every validation of an
/// artifact as unsupported, whatever the container.
pub proof fn drivers_without_criu_refuse(
    driver: NativeLinuxDriver,
    capability: DriverCapability,
    mode: OpenMode,
    has_network_device_authority: bool,
    target: TargetView,
    isolation: IsolationClass,
)
    requires
        driver.opened(capability, mode, has_network_device_authority),
    ensures
        driver.offered() == agent_operation_list(),
        dispatched(
            driver.checkpoints(),
            driver.live_generations(),
            driver.recovered_generations(),
            DriverCall::Checkpoint,
            target,
        ) == Err::<Dispatch, ErrorView>(backend_failure("checkpoint"@)),
        arrival_fault(
            driver.checkpoints(),
            driver.live_generations(),
            driver.recovered_generations(),
            Arrival::Restore,
            isolation,
            target.id,
        ) == Some(backend_failure("restore"@)),
        validation_fault(driver.checkpoints()) == Some(backend_failure("restore"@)),
        backend_failure("checkpoint"@).code is Unsupported,
        backend_failure("restore"@).code is Unsupported,
{
}

/// A container that was still being created when its owner died is never
/// committed as stopped or running, except where a restore made it.
pub proof fn unfinished_containers_are_not_committed(
    live: Generations,
    recovered: Generations,
    record: RecordView,
    step: RecoveryStep,
    event: RecoveryEventView,
)
    requires
        record.status is Creating,
        next_recovery(live, recovered, record, step, event) is Recovered,
        !(step is MapRestored),
        !(step is WaitExit),
        !(step is ObserveLive),
    ensures
        next_recovery(live, recovered, record, step, event) == RecoveryStateView::Recovered(
            DriverRecovery::Nothing,
        ),
{
}

/// The steps that would commit a container are not reached by one that was still
/// being created.
pub proof fn unfinished_containers_reach_no_commit(
    live: Generations,
    recovered: Generations,
    record: RecordView,
    step: RecoveryStep,
    event: RecoveryEventView,
)
    requires
        record.status is Creating,
    ensures
        next_recovery(live, recovered, record, step, event) != RecoveryStateView::At(
            RecoveryStep::WaitExit,
        ),
        next_recovery(live, recovered, record, step, event) != RecoveryStateView::At(
            RecoveryStep::ObserveLive,
        ),
{
}

/// Recovering one container changes what is known of no other.
pub proof fn recovery_touches_one_container(
    live: Generations,
    recovered: Generations,
    record: RecordView,
    step: RecoveryStep,
    event: RecoveryEventView,
    other: Seq<char>,
)
    requires
        other != record.id,
    ensures
        live_after(live, record, step, event).dom().contains(other) == live.dom().contains(other),
        live.dom().contains(other) ==> live_after(live, record, step, event)[other] == live[other],
        recovered_after(recovered, record, step, event).dom().contains(other)
            == recovered.dom().contains(other),
        recovered.dom().contains(other) ==> recovered_after(
            recovered,
            record,
            step,
            event,
        )[other] == recovered[other],
{
}

/// A generation that is known of is never replaced by another one, except by
/// one that is still being created.
pub proof fn known_generations_stay(
    live: Generations,
    recovered: Generations,
    record: RecordView,
    step: RecoveryStep,
    event: RecoveryEventView,
    id: Seq<char>,
)
    ensures
        recovered.dom().contains(id) ==> recovered_after(
            recovered,
            record,
            step,
            event,
        ).dom().contains(id) && recovered_after(recovered, record, step, event)[id]
            == recovered[id],
        live.dom().contains(id) && !(record.status is Creating) ==> live_after(
            live,
            record,
            step,
            event,
        ).dom().contains(id) && live_after(live, record, step, event)[id] == live[id],
{
}

/// What is found stopped is answered as stopped: after a container was
/// recovered as stopped, its state is stopped without asking the agent, and
/// live operations on it are refused, unless the generation lives on.
pub proof fn recovered_containers_answer_stopped(
    checkpoints: bool,
    live: Generations,
    recovered: Generations,
    record: RecordView,
)
    requires
        !(record.status is Creating),
        !live.dom().contains(record.id),
        registered(recovered, record_target(record)) is Some,
    ensures
        ({
            let after = recovered_after(
                recovered,
                record,
                RecoveryStep::RecoverStale,
                RecoveryEventView::StaleStopped,
            );
            let target = record_target(record);
            &&& dispatched(checkpoints, live, after, DriverCall::State, target) == Ok::<Dispatch, ErrorView>(
                Dispatch::Stopped,
            )
            &&& dispatched(checkpoints, live, after, DriverCall::Delete, target) == Ok::<Dispatch, ErrorView>(
                Dispatch::DeleteStopped,
            )
            &&& dispatched(checkpoints, live, after, DriverCall::Exec, target) is Err
            &&& dispatched(checkpoints, live, after, DriverCall::Wait, target) is Err
        }),
{
}

/// A container that neither lives on nor was stopped is left to the agent.
pub proof fn unknown_containers_go_to_the_agent(
    checkpoints: bool,
    live: Generations,
    recovered: Generations,
    call: DriverCall,
    target: TargetView,
)
    requires
        !live.dom().contains(target.id),
        !recovered.dom().contains(target.id),
        call is Checkpoint ==> checkpoints,
    ensures
        dispatched(checkpoints, live, recovered, call, target) == Ok::<Dispatch, ErrorView>(Dispatch::Agent),
{
}

/// A recovery reports what it was told, unchanged: the exit status with which the agent
/// says that the container ended, and the state in which it was observed. The one state
/// that is reported without having been observed is that of a generation that an earlier
/// owner left and that was stopped: it has no process and is not paused.
pub proof fn recoveries_report_what_was_observed(
    live: Generations,
    recovered: Generations,
    record: RecordView,
    step: RecoveryStep,
    event: RecoveryEventView,
)
    ensures
        match next_recovery(live, recovered, record, step, event) {
            RecoveryStateView::Recovered(DriverRecovery::StoppedWithExit(status)) => {
                &&& step is WaitExit
                &&& event matches RecoveryEventView::Exited(told)
                &&& status.exit_code == told.exit_code
                &&& status.signal == told.signal
                &&& status.oom_killed == told.oom_killed
            },
            RecoveryStateView::Recovered(DriverRecovery::RecreatedPausedRunning(state)) => {
                &&& step is MapRestored
                &&& event matches RecoveryEventView::Observed(seen)
                &&& state == seen
            },
            RecoveryStateView::Recovered(DriverRecovery::Observed(state)) => {
                ||| {
                    &&& step is QueryState || step is ObserveLive
                    &&& event matches RecoveryEventView::Observed(seen)
                    &&& state == seen
                }
                ||| {
                    &&& step is RecoverStale && event is StaleStopped
                    &&& state.status is Stopped && state.pid is None && !state.paused
                }
            },
            RecoveryStateView::Recovered(DriverRecovery::Nothing) => record.status is Creating
                || event is RestorePending || step is DeleteStale,
            _ => true,
        },
        step is WaitExit && event is Exited ==> next_recovery(live, recovered, record, step, event)
            == RecoveryStateView::Recovered(DriverRecovery::StoppedWithExit(event->Exited_0)),
        step is MapRestored && event is Observed ==> next_recovery(
            live,
            recovered,
            record,
            step,
            event,
        ) == RecoveryStateView::Recovered(
            DriverRecovery::RecreatedPausedRunning(event->Observed_0),
        ),
        step is QueryState && event is Observed && !(record.status is Creating) && !(
        event->Observed_0.status is Stopped) ==> next_recovery(live, recovered, record, step, event)
            == RecoveryStateView::Recovered(DriverRecovery::Observed(event->Observed_0)),
{
}

/// Each step of a recovery follows from what was found: the agent is asked once no restore
/// made the container, the exit status is asked for once the agent has observed the
/// container stopped, what an earlier owner left is looked for once the agent does not
/// know the container, a live generation is observed once one was found, and a stopped
/// one is deleted only where the container was still being created.
pub proof fn recovery_steps_follow_what_was_found(
    live: Generations,
    recovered: Generations,
    record: RecordView,
    step: RecoveryStep,
    event: RecoveryEventView,
)
    requires
        next_recovery(live, recovered, record, step, event) is At,
    ensures
        match next_recovery(live, recovered, record, step, event)->At_0 {
            RecoveryStep::RecoverRestore => false,
            RecoveryStep::MapRestored => step is RecoverRestore && event is RestoreRecreated,
            RecoveryStep::QueryState => step is RecoverRestore && event is NotRestored,
            RecoveryStep::WaitExit => step is QueryState && event is Observed
                && event->Observed_0.status is Stopped && !(record.status is Creating),
            RecoveryStep::RecoverStale => step is QueryState && event is Failed
                && event->Failed_0.code is NotFound,
            RecoveryStep::DeleteStale => step is RecoverStale && event is StaleStopped
                && record.status is Creating,
            RecoveryStep::ObserveLive => step is RecoverStale && event is StaleLive && !(
            record.status is Creating),
        },
{
}

/// Every answer that a step of a recovery can have leads on or to an outcome.
pub proof fn recoveries_are_never_stuck(
    live: Generations,
    recovered: Generations,
    record: RecordView,
    step: RecoveryStep,
    event: RecoveryEventView,
)
    requires
        match step {
            RecoveryStep::RecoverRestore => event is NotRestored || event is RestorePending || event
                is RestoreRecreated,
            RecoveryStep::MapRestored => event is Observed,
            RecoveryStep::QueryState => event is Observed,
            RecoveryStep::WaitExit => event is Exited,
            RecoveryStep::RecoverStale => event is NoStale || event is StaleStopped || event
                is StaleLive,
            RecoveryStep::DeleteStale => event is Done,
            RecoveryStep::ObserveLive => event is Observed,
        } || event is Failed,
    ensures
        !(next_recovery(live, recovered, record, step, event) is Confused),
{
}

/// A recovery that fails reports exactly the failure of its step. Only an agent that does
/// not know the container is no failure. A recovery that is refused for another reason
/// has found nothing of a container that should be there, or knows another generation of
/// it.
pub proof fn refused_recoveries_have_a_reason(
    live: Generations,
    recovered: Generations,
    record: RecordView,
    step: RecoveryStep,
    event: RecoveryEventView,
)
    ensures
        event is Failed && !(step is QueryState && event->Failed_0.code is NotFound)
            ==> next_recovery(live, recovered, record, step, event) == RecoveryStateView::Refused(
            event->Failed_0,
        ),
        next_recovery(live, recovered, record, step, event) matches RecoveryStateView::Refused(
            error,
        ) ==> {
            ||| event is Failed && error == event->Failed_0
            ||| {
                &&& step is RecoverStale ==> !(record.status is Creating)
                &&& error.operation == Some("native-linux-recover"@)
                &&& {
                    ||| step is RecoverStale && event is NoStale && error.code is FailedPrecondition
                    ||| step is RecoverStale && event is StaleStopped && error.code is Conflict
                        && recovered.dom().contains(record.id) && recovered[record.id] != Some(
                        record.generation,
                    )
                    ||| step is ObserveLive && event is Observed && error.code is Conflict
                        && live.dom().contains(record.id) && live[record.id] != Some(
                        record.generation,
                    )
                }
            }
        },
{
}

/// What is recovered is known of afterwards, under its exact generation: as living on
/// where it was observed to live, and as stopped where it was stopped. Nothing else
/// becomes known, and a recovery that is refused makes nothing known.
pub proof fn recovered_generations_are_remembered(
    live: Generations,
    recovered: Generations,
    record: RecordView,
    step: RecoveryStep,
    event: RecoveryEventView,
)
    ensures
        ({
            let next = next_recovery(live, recovered, record, step, event);
            let lives = live_after(live, record, step, event);
            let stopped = recovered_after(recovered, record, step, event);
            &&& step is ObserveLive && next is Recovered ==> lives.dom().contains(record.id)
                && lives[record.id] == Some(record.generation)
            &&& step is RecoverStale && event is StaleLive && next is Recovered
                ==> lives.dom().contains(record.id) && lives[record.id] == Some(record.generation)
            &&& step is RecoverStale && event is StaleStopped && next is Recovered
                ==> stopped.dom().contains(record.id) && stopped[record.id] == Some(
                record.generation,
            )
            &&& next is Refused ==> lives == live && stopped == recovered
            &&& !(step is ObserveLive && event is Observed) && !(step is RecoverStale && event
                is StaleLive && record.status is Creating) ==> lives == live
            &&& !(step is RecoverStale && event is StaleStopped) ==> stopped == recovered
        }),
{
    let target = record_target(record);
    if live.dom().contains(record.id) && live[record.id] == Some(record.generation) {
        assert(live.insert(record.id, Some(record.generation)) =~= live);
    }
}

/// A generation that lives on is asked through its session, never answered as stopped and
/// never left to the agent. What a session cannot do fails as unavailable.
pub proof fn live_generations_are_asked(
    checkpoints: bool,
    live: Generations,
    recovered: Generations,
    call: DriverCall,
    target: TargetView,
)
    requires
        live.dom().contains(target.id),
        live[target.id] == target.generation,
    ensures
        match dispatched(checkpoints, live, recovered, call, target) {
            Ok(dispatch) => dispatch is Session,
            Err(error) => {
                &&& call is Start || call is Update || call is Resize || call is File || call
                    is Filesystem || call is Checkpoint
                &&& error.code == if call is Checkpoint && !checkpoints {
                    ErrorCode::Unsupported
                } else {
                    ErrorCode::Unavailable
                }
            },
        },
        call is State || call is Kill || call is Delete || call is Wait || call is Exec || call
            is SignalProcess || call is WaitProcess || call is Pause || call is Resume || call
            is Processes || call is Stats || call is ReadOutput || call is WriteStdin || call
            is CloseStdin ==> dispatched(checkpoints, live, recovered, call, target) is Ok,
{
}

/// An answer that is given without asking anyone is given only of a generation that was
/// found stopped and of which no generation lives on, and it answers the call.
pub proof fn only_stopped_generations_are_answered(
    checkpoints: bool,
    live: Generations,
    recovered: Generations,
    call: DriverCall,
    target: TargetView,
)
    requires
        dispatched(checkpoints, live, recovered, call, target) is Ok,
        !(dispatched(checkpoints, live, recovered, call, target)->Ok_0 is Agent),
        !(dispatched(checkpoints, live, recovered, call, target)->Ok_0 is Session),
    ensures
        !live.dom().contains(target.id),
        recovered.dom().contains(target.id),
        recovered[target.id] == target.generation,
        match dispatched(checkpoints, live, recovered, call, target)->Ok_0 {
            Dispatch::Stopped => call is State || call is Kill,
            Dispatch::NoProcesses => call is Processes,
            Dispatch::DeleteStopped => call is Delete,
            _ => false,
        },
{
}

/// A generation that was found stopped can be looked at, killed again, listed and
/// deleted; everything else is refused under the name of the call, as it needs a process
/// or an exit status that nobody has.
pub proof fn stopped_generations_refuse_live_work(
    checkpoints: bool,
    live: Generations,
    recovered: Generations,
    call: DriverCall,
    target: TargetView,
)
    requires
        !live.dom().contains(target.id),
        recovered.dom().contains(target.id),
        recovered[target.id] == target.generation,
        call is Checkpoint ==> checkpoints,
    ensures
        match dispatched(checkpoints, live, recovered, call, target) {
            Ok(_) => call is State || call is Kill || call is Processes || call is Delete,
            Err(error) => error.code is FailedPrecondition && error.operation == Some(
                call_name(call),
            ),
        },
        call is State || call is Kill || call is Processes || call is Delete ==> dispatched(
            checkpoints,
            live,
            recovered,
            call,
            target,
        ) is Ok,
{
}

/// A call on another generation than the one that is known of is a conflict, whatever
/// the call.
pub proof fn other_generations_conflict(
    checkpoints: bool,
    live: Generations,
    recovered: Generations,
    call: DriverCall,
    target: TargetView,
)
    requires
        (live.dom().contains(target.id) && live[target.id] != target.generation) || (
        !live.dom().contains(target.id) && recovered.dom().contains(target.id)
            && recovered[target.id] != target.generation),
        call is Checkpoint ==> checkpoints,
    ensures
        dispatched(checkpoints, live, recovered, call, target) matches Err(error) && error.code
            is Conflict && error.operation == Some(call_name(call)),
{
}

/// The agent is asked exactly where the driver knows nothing of the container, and a
/// session exactly where that generation lives on.
pub proof fn calls_go_to_who_holds_the_container(
    checkpoints: bool,
    live: Generations,
    recovered: Generations,
    call: DriverCall,
    target: TargetView,
)
    ensures
        dispatched(checkpoints, live, recovered, call, target) == Ok::<Dispatch, ErrorView>(
            Dispatch::Agent,
        ) ==> !live.dom().contains(target.id) && !recovered.dom().contains(target.id),
        dispatched(checkpoints, live, recovered, call, target) == Ok::<Dispatch, ErrorView>(
            Dispatch::Session,
        ) ==> live.dom().contains(target.id) && live[target.id] == target.generation,
        dispatched(checkpoints, live, recovered, call, target) matches Err(error)
            ==> !error.retryable && error.operation is Some,
{
}

/// A failure about a container names it.
pub proof fn refused_calls_name_the_container(
    checkpoints: bool,
    live: Generations,
    recovered: Generations,
    call: DriverCall,
    target: TargetView,
)
    requires
        call is Checkpoint ==> checkpoints,
    ensures
        dispatched(checkpoints, live, recovered, call, target) matches Err(error) ==> (
        "container "@ + target.id).is_prefix_of(error.message),
{
    match dispatched(checkpoints, live, recovered, call, target) {
        Err(error) => {
            let named = "container "@ + target.id;
            assert(named =~= error.message.subrange(0, named.len() as int));
        },
        Ok(_) => {},
    }
}

/// A new container is let in exactly where it shares the kernel of the host, its name is
/// neither that of a container that lives on nor that of one that was found stopped, and
/// there is a checkpoint backend if it is to be restored.
pub proof fn names_in_use_are_not_given_again(
    checkpoints: bool,
    live: Generations,
    recovered: Generations,
    arrival: Arrival,
    isolation: IsolationClass,
    id: Seq<char>,
)
    ensures
        arrival_fault(checkpoints, live, recovered, arrival, isolation, id) is None <==> {
            &&& isolation is SharedHostKernel
            &&& !live.dom().contains(id)
            &&& !recovered.dom().contains(id)
            &&& arrival is Restore ==> checkpoints
        },
        arrival_fault(checkpoints, live, recovered, arrival, isolation, id) matches Some(error)
            ==> {
            &&& error.code == if (arrival is Restore && !checkpoints) || !(isolation
                is SharedHostKernel) {
                ErrorCode::Unsupported
            } else {
                ErrorCode::FailedPrecondition
            }
            &&& !error.retryable
        },
        arrival is Create ==> (arrival_fault(
            checkpoints,
            live,
            recovered,
            arrival,
            isolation,
            id,
        ) matches Some(error) ==> error.operation == Some("native-linux-create"@)),
{
}

/// A process that was ended by a signal is reported with that signal, whether or not it
/// left a core. A process that was merely stopped has not ended.
pub proof fn signals_are_kept(signal: u8, core: bool)
    requires
        0 < signal < 0x7f,
    ensures
        wait_outcome(
            if core {
                (signal + 0x80) as i32
            } else {
                signal as i32
            },
        ) == Some(ExitStatus { exit_code: None, signal: Some(signal as i32), oom_killed: false }),
        wait_outcome(0x7f) is None,
        wait_outcome(0x137f) is None,
{
    let word = signal as i32;
    assert(word & 0x7f == word) by (bit_vector)
        requires
            0 < word < 0x7f,
    ;
    assert(((word + 0x80) as i32) & 0x7f == word) by (bit_vector)
        requires
            0 < word < 0x7f,
    ;
    assert(0x7fi32 & 0x7f == 0x7f) by (bit_vector);
    assert(0x137fi32 & 0x7f == 0x7f) by (bit_vector);
}

/// A process is reported as exited or as ended by a signal, never as both, and never as
/// killed for memory on the word of its parent alone.
pub proof fn endings_are_unambiguous(raw: i32)
    ensures
        wait_outcome(raw) matches Some(status) ==> (status.exit_code is Some <==> status.signal
            is None) && !status.oom_killed,
        wait_outcome(raw) matches Some(status) ==> (status.exit_code matches Some(code) ==> 0
            <= code <= 0xff) && (status.signal matches Some(signal) ==> 0 < signal < 0x7f),
{
    assert(0 <= (raw >> 8) & 0xff <= 0xff) by (bit_vector);
    assert(0 <= raw & 0x7f <= 0x7f) by (bit_vector);
}

/// Opening the driver adds facts and takes none away. What it adds says that no machine
/// is needed, and names the authority that was asked for and no other.
pub proof fn opening_adds_facts(
    evidence: Map<Seq<char>, Seq<char>>,
    mode: OpenMode,
    name: Seq<char>,
)
    requires
        evidence.dom().contains(name),
        name != "execution_path"@,
        name != "kvm_required"@,
        name != "opt_in"@,
        name != "rootless_cgroup_delegation"@,
        name != "rootless_device_policy"@,
    ensures
        opening_evidence(evidence, mode).dom().contains(name),
        opening_evidence(evidence, mode)[name] == evidence[name],
{
}

/// What an opened driver says of its authority is what it was opened with.
pub proof fn opened_drivers_name_their_authority(
    evidence: Map<Seq<char>, Seq<char>>,
    mode: OpenMode,
)
    requires
        !evidence.dom().contains("opt_in"@),
        !evidence.dom().contains("rootless_cgroup_delegation"@),
        !evidence.dom().contains("rootless_device_policy"@),
    ensures
        ({
            let facts = opening_evidence(evidence, mode);
            &&& facts["kvm_required"@] == "false"@
            &&& facts["execution_path"@] == "shared-linux-executor"@
            &&& facts.dom().contains("opt_in"@) <==> mode is Experimental
            &&& facts.dom().contains("rootless_cgroup_delegation"@) <==> !(mode is Experimental)
            &&& facts.dom().contains("rootless_device_policy"@) <==> mode is RootlessDevicePolicy
        }),
{
    reveal_strlit("execution_path");
    reveal_strlit("kvm_required");
    reveal_strlit("opt_in");
    reveal_strlit("rootless_cgroup_delegation");
    reveal_strlit("rootless_device_policy");
    assert("execution_path"@.len() == 14 && "kvm_required"@.len() == 12 && "opt_in"@.len() == 6
        && "rootless_cgroup_delegation"@.len() == 26 && "rootless_device_policy"@.len() == 22);
}

/// The network extension is carried out only by a driver that may attach network
/// devices, and newer contracts keep the earlier ones.
pub proof fn network_attachments_need_authority(authority: bool)
    ensures
        attachments_for(authority).extension is Some <==> authority,
        attachments_for(authority).extension matches Some(extension) ==> extension.0
            is NetworkEnforcement,
        attachments_for(true).newest is V3,
        attachments_for(false).newest is V2,
        schema_number(AttachmentSchema::V1) < schema_number(AttachmentSchema::V2) < schema_number(
            AttachmentSchema::V3,
        ),
{
}

/// A driver with a checkpoint backend says which one: its format, its tool with version
/// and digest, its build, and its revision where that is known; what it said before stays.
pub proof fn checkpoint_backends_are_named(
    evidence: Map<Seq<char>, Seq<char>>,
    criu: CriuEvidence,
)
    ensures
        ({
            let facts = criu_evidence(evidence, criu);
            &&& facts["checkpoint_criu_version"@] == criu.tool_version@
            &&& facts["checkpoint_criu_digest"@] == criu.tool_digest@
            &&& facts["checkpoint_driver_build_digest"@] == criu.driver_build_digest@
            &&& facts["checkpoint_format"@] == criu.format_name@ + "-v"@ + decimal(
                criu.format_version as nat,
            )
            &&& criu.source_revision is Some ==> facts["checkpoint_source_revision"@]
                == criu.source_revision->0@
            &&& facts["checkpoint_backend"@] == "criu"@
            &&& facts["restore_backend"@] == "criu"@
        }),
        forall|name: Seq<char>| #[trigger]
            evidence.contains_key(name) ==> criu_evidence(evidence, criu).contains_key(name),
{
    reveal_strlit("checkpoint_backend");
    reveal_strlit("checkpoint_format");
    reveal_strlit("checkpoint_criu_version");
    reveal_strlit("checkpoint_criu_digest");
    reveal_strlit("checkpoint_driver_build_digest");
    reveal_strlit("checkpoint_source_revision");
    reveal_strlit("checkpoint_opt_in");
    reveal_strlit("restore_backend");
    assert("checkpoint_format"@[11] != "checkpoint_opt_in"@[11]);
    assert("checkpoint_backend"@.len() == 18 && "checkpoint_format"@.len() == 17
        && "checkpoint_criu_version"@.len() == 23 && "checkpoint_criu_digest"@.len() == 22
        && "checkpoint_driver_build_digest"@.len() == 30 && "checkpoint_source_revision"@.len()
        == 26 && "checkpoint_opt_in"@.len() == 17 && "restore_backend"@.len() == 15);
}

/// A table keeps one generation of a container: the same one can be registered again,
/// another one cannot, and no other container is touched.
pub proof fn tables_keep_one_generation(
    generations: Generations,
    target: TargetView,
    other: Seq<char>,
)
    ensures
        registered(generations, target) is None <==> generations.contains_key(target.id)
            && generations[target.id] != target.generation,
        registered(generations, target) matches Some(after) ==> after.contains_key(target.id)
            && after[target.id] == target.generation && (other != target.id ==> (
        after.contains_key(other) <==> generations.contains_key(other)) && (
        generations.contains_key(other) ==> after[other] == generations[other])),
{
}

/// Calls have names of their own, so that a failure tells which call it is of.
pub proof fn calls_have_their_own_names(first: DriverCall, second: DriverCall)
    requires
        call_name(first) == call_name(second),
    ensures
        first == second,
{
    reveal_strlit("native-linux-state");
    reveal_strlit("native-linux-start");
    reveal_strlit("native-linux-kill");
    reveal_strlit("native-linux-delete");
    reveal_strlit("native-linux-wait");
    reveal_strlit("native-linux-exec");
    reveal_strlit("native-linux-signal-process");
    reveal_strlit("native-linux-wait-process");
    reveal_strlit("native-linux-pause");
    reveal_strlit("native-linux-resume");
    reveal_strlit("native-linux-processes");
    reveal_strlit("native-linux-update");
    reveal_strlit("native-linux-stats");
    reveal_strlit("native-linux-read-output");
    reveal_strlit("native-linux-write-stdin");
    reveal_strlit("native-linux-close-stdin");
    reveal_strlit("native-linux-resize");
    reveal_strlit("native-linux-file");
    reveal_strlit("native-linux-filesystem");
    reveal_strlit("native-linux-checkpoint");
    let one = call_name(first);
    let other = call_name(second);
    assert(one.len() == other.len() && one[13] == other[13] && one[16] == other[16]);
    assert(one[one.len() - 1] == other[other.len() - 1]);
}

/// A driver that was just opened knows no container: every call goes to the agent, and a
/// container that shares the kernel of the host can be created under any name.
pub proof fn opened_drivers_know_no_container(
    driver: NativeLinuxDriver,
    capability: DriverCapability,
    mode: OpenMode,
    authority: bool,
    call: DriverCall,
    target: TargetView,
)
    requires
        driver.opened(capability, mode, authority),
        !(call is Checkpoint),
    ensures
        dispatched(
            driver.checkpoints(),
            driver.live_generations(),
            driver.recovered_generations(),
            call,
            target,
        ) == Ok::<Dispatch, ErrorView>(Dispatch::Agent),
        arrival_fault(
            driver.checkpoints(),
            driver.live_generations(),
            driver.recovered_generations(),
            Arrival::Create,
            IsolationClass::SharedHostKernel,
            target.id,
        ) is None,
        driver.stated().readiness is Experimental,
        driver.attachments() == attachments_for(authority),
{
}

/// A new container that is kept out is kept out under the name of what was asked for, and
/// a driver with a checkpoint backend never lacks one.
pub proof fn arrivals_are_refused_by_name(
    checkpoints: bool,
    live: Generations,
    recovered: Generations,
    isolation: IsolationClass,
    id: Seq<char>,
)
    ensures
        arrival_fault(checkpoints, live, recovered, Arrival::Restore, isolation, id) matches Some(
            error,
        ) ==> error.operation == Some("native-linux-restore"@),
        validation_fault(checkpoints) is None <==> checkpoints,
        arrival_fault(true, live, recovered, Arrival::Restore, isolation, id) is None
            <==> arrival_fault(true, live, recovered, Arrival::Create, isolation, id) is None,
{
    reveal_strlit("native-linux-");
    reveal_strlit("restore");
    reveal_strlit("native-linux-restore");
    assert("native-linux-"@ + "restore"@ =~= "native-linux-restore"@);
}

/// A number is printed with a sign exactly where it is below zero, and two numbers that
/// are printed the same are one.
pub proof fn signed_numbers_are_told_apart(first: int, second: int)
    ensures
        signed_decimal(first).len() > 0,
        signed_decimal(first)[0] == '-' <==> first < 0,
        signed_decimal(first) == signed_decimal(second) ==> first == second,
{
    reveal_strlit("-");
    signed_numbers_keep_their_digits(first);
    signed_numbers_keep_their_digits(second);
    if signed_decimal(first) == signed_decimal(second) {
        if first < 0 {
            crate::text::decimals_are_told_apart((-first) as nat, (-second) as nat);
        } else {
            crate::text::decimals_are_told_apart(first as nat, second as nat);
        }
    }
}

proof fn signed_numbers_keep_their_digits(value: int)
    ensures
        signed_decimal(value).len() > 0,
        signed_decimal(value)[0] == '-' <==> value < 0,
        value < 0 ==> signed_decimal(value).skip(1) == decimal((-value) as nat),
        value >= 0 ==> signed_decimal(value) == decimal(value as nat),
{
    reveal_strlit("-");
    if value < 0 {
        assert(signed_decimal(value).skip(1) =~= decimal((-value) as nat));
    } else {
        crate::text::decimal_round_trip(value as nat);
        assert(crate::text::is_digit(decimal(value as nat)[0]));
    }
}

/// A container whose init process lives is never taken for stopped: it is shown with that
/// process, as running unless it was never started, and as paused exactly where it is
/// frozen.
pub proof fn live_processes_are_not_stopped(
    durable_status: ContainerState,
    pid: i32,
    frozen: bool,
)
    ensures
        ({
            let state = live_init_state(durable_status, pid, frozen);
            &&& !(state.status is Stopped)
            &&& !(state.status is Creating)
            &&& state.pid == Some(pid)
            &&& state.paused == frozen
            &&& durable_status is Running ==> state.status is Running
            &&& state.status is Created <==> durable_status is Created || durable_status is Creating
        }),
{
}

} // verus!
