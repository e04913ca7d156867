//! Durable journals of restore operations.

use vstd::prelude::*;
use crate::error::{checkpoint_error, Error, ErrorCode};
use crate::model::{
    CheckpointCompatibility, CompatibilityView, ContainerState, ContainerTarget, TargetView,
};
use crate::native_checkpoint::artifact::{CheckpointArtifactManifest, ManifestView};
use crate::native_checkpoint::journal::{
    final_journal_name_holds, is_final_journal_name, is_pending_journal_name, journal_name,
    journal_name_text, pending_journal_name_holds, stage_name, stage_name_holds, stage_name_text,
    MAX_JOURNALS,
};
use crate::native_checkpoint::state::{
    about, ensure_private_directory, private_directory, FileFacts, FileKind,
};
use crate::text::{append_decimal, debug_text, decimal, quote, string_views, text_eq};

verus! {

pub const RESTORE_JOURNAL_SCHEMA_V1: &'static str = "a3s.oci.native-restore-operation.v1";

pub const MAX_RESTORE_JOURNAL_BYTES: u64 = 33_554_432;

/// How one standard stream of a process is wired.
#[derive(Clone, Copy, Debug, PartialEq, Eq, Structural)]
pub enum IoMode {
    Null,
    Inherit,
    Pipe,
    Capture,
    Terminal,
}

/// How the standard streams of a process are wired.
#[derive(Clone, Copy, Debug, PartialEq, Eq, Structural)]
pub struct ProcessIo {
    pub stdin: IoMode,
    pub stdout: IoMode,
    pub stderr: IoMode,
}

/// Request to create a container from a bundle.
#[derive(Clone, Debug)]
pub struct AgentCreateRequest {
    pub operation_id: String,
    pub deadline_unix_ms: Option<u64>,
    pub target: ContainerTarget,
    /// Digest of the configuration that the request carries.
    pub config_digest: String,
    /// Digest of the configuration that the guest would read.
    pub guest_config_digest: String,
    /// The bundle in its canonical encoding.
    pub bundle: String,
    pub io: ProcessIo,
}

/// The contents of a create request.
pub struct AgentRequestView {
    pub operation_id: Seq<char>,
    pub deadline_unix_ms: Option<u64>,
    pub target: TargetView,
    pub config_digest: Seq<char>,
    pub guest_config_digest: Seq<char>,
    pub bundle: Seq<char>,
    pub io: ProcessIo,
}

impl View for AgentCreateRequest {
    type V = AgentRequestView;

    open spec fn view(&self) -> AgentRequestView {
        AgentRequestView {
            operation_id: self.operation_id@,
            deadline_unix_ms: self.deadline_unix_ms,
            target: self.target@,
            config_digest: self.config_digest@,
            guest_config_digest: self.guest_config_digest@,
            bundle: self.bundle@,
            io: self.io,
        }
    }
}

impl AgentCreateRequest {
    /// Whether two requests are the same.
    pub fn same(&self, other: &AgentCreateRequest) -> (equal: bool)
        ensures
            equal == (self@ == other@),
    {
        text_eq(&self.operation_id, &other.operation_id) && self.deadline_unix_ms
            == other.deadline_unix_ms && self.target.same(&other.target) && text_eq(
            &self.config_digest,
            &other.config_digest,
        ) && text_eq(&self.guest_config_digest, &other.guest_config_digest) && text_eq(
            &self.bundle,
            &other.bundle,
        ) && self.io == other.io
    }

    /// The same request without a deadline.
    pub fn without_deadline(&self) -> (request: AgentCreateRequest)
        ensures
            request@ == (AgentRequestView { deadline_unix_ms: None, ..self@ }),
    {
        AgentCreateRequest {
            operation_id: self.operation_id.clone(),
            deadline_unix_ms: None,
            target: self.target.copy(),
            config_digest: self.config_digest.clone(),
            guest_config_digest: self.guest_config_digest.clone(),
            bundle: self.bundle.clone(),
            io: self.io,
        }
    }
}

/// Immutable description of a finished checkpoint.
#[derive(Clone, Debug)]
pub struct CheckpointReference {
    pub source: ContainerTarget,
    pub source_config_digest: String,
    pub source_attachments_digest: String,
    pub compatibility: CheckpointCompatibility,
    pub artifact_digest: String,
    pub artifact_size_bytes: u64,
}

/// The contents of a checkpoint reference.
pub struct ReferenceView {
    pub source: TargetView,
    pub source_config_digest: Seq<char>,
    pub source_attachments_digest: Seq<char>,
    pub compatibility: CompatibilityView,
    pub artifact_digest: Seq<char>,
    pub artifact_size_bytes: u64,
}

impl View for CheckpointReference {
    type V = ReferenceView;

    open spec fn view(&self) -> ReferenceView {
        ReferenceView {
            source: self.source@,
            source_config_digest: self.source_config_digest@,
            source_attachments_digest: self.source_attachments_digest@,
            compatibility: self.compatibility@,
            artifact_digest: self.artifact_digest@,
            artifact_size_bytes: self.artifact_size_bytes,
        }
    }
}

impl CheckpointReference {
    /// Whether two references are the same.
    pub fn same(&self, other: &CheckpointReference) -> (equal: bool)
        ensures
            equal == (self@ == other@),
    {
        self.source.same(&other.source) && text_eq(
            &self.source_config_digest,
            &other.source_config_digest,
        ) && text_eq(&self.source_attachments_digest, &other.source_attachments_digest)
            && self.compatibility.same(&other.compatibility) && text_eq(
            &self.artifact_digest,
            &other.artifact_digest,
        ) && self.artifact_size_bytes == other.artifact_size_bytes
    }
}

/// State of a restored container.
#[derive(Clone, Debug)]
pub struct AgentState {
    pub target: ContainerTarget,
    pub status: ContainerState,
    pub pid: Option<i32>,
    pub config_digest: String,
    pub paused: bool,
}

/// The contents of an agent state.
pub struct AgentStateView {
    pub target: TargetView,
    pub status: ContainerState,
    pub pid: Option<i32>,
    pub config_digest: Seq<char>,
    pub paused: bool,
}

impl View for AgentState {
    type V = AgentStateView;

    open spec fn view(&self) -> AgentStateView {
        AgentStateView {
            target: self.target@,
            status: self.status,
            pid: self.pid,
            config_digest: self.config_digest@,
            paused: self.paused,
        }
    }
}

/// How far a restore operation has come.
#[derive(Debug)]
pub enum RestoreJournalOutcome {
    /// The stage may hold part of the images.
    Allocated,
    /// The stage holds all images.
    Prepared { manifest: CheckpointArtifactManifest },
    /// The container runs again, paused.
    Restored { manifest: CheckpointArtifactManifest, state: AgentState },
}

/// How far a restore operation has come, with what it has made.
pub enum RestoreOutcomeView {
    Allocated,
    Prepared(ManifestView),
    Restored(ManifestView, AgentStateView),
}

impl View for RestoreJournalOutcome {
    type V = RestoreOutcomeView;

    open spec fn view(&self) -> RestoreOutcomeView {
        match *self {
            RestoreJournalOutcome::Allocated => RestoreOutcomeView::Allocated,
            RestoreJournalOutcome::Prepared { manifest } => RestoreOutcomeView::Prepared(manifest@),
            RestoreJournalOutcome::Restored { manifest, state } => RestoreOutcomeView::Restored(
                manifest@,
                state@,
            ),
        }
    }
}

/// Durable record of one restore operation.
#[derive(Debug)]
pub struct RestoreJournalRecord {
    pub schema_version: String,
    pub operation_id: String,
    pub request_digest: String,
    pub agent_request: AgentCreateRequest,
    pub artifact_path: String,
    pub reference: CheckpointReference,
    pub outcome: RestoreJournalOutcome,
}

/// The contents of a restore record.
pub struct RestoreView {
    pub schema_version: Seq<char>,
    pub operation_id: Seq<char>,
    pub request_digest: Seq<char>,
    pub agent_request: AgentRequestView,
    pub artifact_path: Seq<char>,
    pub reference: ReferenceView,
    pub outcome: RestoreOutcomeView,
}

impl View for RestoreJournalRecord {
    type V = RestoreView;

    open spec fn view(&self) -> RestoreView {
        RestoreView {
            schema_version: self.schema_version@,
            operation_id: self.operation_id@,
            request_digest: self.request_digest@,
            agent_request: self.agent_request@,
            artifact_path: self.artifact_path@,
            reference: self.reference@,
            outcome: self.outcome@,
        }
    }
}

/// What is wrong with a restore record.
#[derive(Clone, Copy, Debug, PartialEq, Eq, Structural)]
pub enum RestoreFault {
    Identity,
    State,
}

/// The restored state is that of the requested container, running and paused.
pub open spec fn restored_state_holds(request: AgentRequestView, state: AgentStateView) -> bool {
    &&& state.target == request.target
    &&& state.config_digest == request.config_digest
    &&& state.status == ContainerState::Running
    &&& state.paused
    &&& state.pid is Some
    &&& state.pid->0 > 0
}

/// The first thing that is wrong with a restore record.
pub open spec fn restore_fault(record: RestoreView) -> Option<RestoreFault> {
    let request = record.agent_request;
    if record.schema_version != RESTORE_JOURNAL_SCHEMA_V1@ || record.operation_id
        != request.operation_id || request.target.generation is None || request.guest_config_digest
        != request.config_digest || request.config_digest != record.reference.source_config_digest {
        Some(RestoreFault::Identity)
    } else if record.outcome matches RestoreOutcomeView::Restored(manifest, state)
        && !restored_state_holds(request, state) {
        Some(RestoreFault::State)
    } else {
        None
    }
}

/// The message of a fault in a restore record.
pub open spec fn restore_fault_message(fault: RestoreFault) -> Seq<char> {
    match fault {
        RestoreFault::Identity =>
            "native restore operation journal has invalid schema, request, or configuration identity"@,
        RestoreFault::State => "native restore journal retained an invalid restored state"@,
    }
}

/// A restore record is that of a request.
pub open spec fn belongs_to_restore(
    record: RestoreView,
    operation_id: Seq<char>,
    request_digest: Seq<char>,
    agent_request: AgentRequestView,
    artifact_path: Seq<char>,
    reference: ReferenceView,
) -> bool {
    &&& record.operation_id == operation_id
    &&& record.request_digest == request_digest
    &&& record.agent_request == agent_request
    &&& record.artifact_path == artifact_path
    &&& record.reference == reference
}

/// The message for an operation that was used for another restore.
pub open spec fn reused_restore_message(operation: Seq<char>) -> Seq<char> {
    "operation ID "@ + operation + " was already used for a different native restore request"@
}

/// The manifest of the images that a record keeps.
pub open spec fn kept_manifest(outcome: RestoreOutcomeView) -> Option<ManifestView> {
    match outcome {
        RestoreOutcomeView::Allocated => None,
        RestoreOutcomeView::Prepared(manifest) => Some(manifest),
        RestoreOutcomeView::Restored(manifest, state) => Some(manifest),
    }
}

impl RestoreJournalRecord {
    /// Checks that a record is one that the runtime writes.
    pub fn validate(&self) -> (result: Result<(), Error>)
        ensures
            match result {
                Ok(()) => restore_fault(self@) is None,
                Err(error) => restore_fault(self@) is Some && error.is_checkpoint(
                    ErrorCode::FailedPrecondition,
                    restore_fault_message(restore_fault(self@)->0),
                ),
            },
    {
        if !text_eq(&self.schema_version, RESTORE_JOURNAL_SCHEMA_V1) || !text_eq(
            &self.operation_id,
            &self.agent_request.operation_id,
        ) || self.agent_request.target.generation.is_none() || !text_eq(
            &self.agent_request.guest_config_digest,
            &self.agent_request.config_digest,
        ) || !text_eq(
            &self.agent_request.config_digest,
            &self.reference.source_config_digest,
        ) {
            return Err(
                checkpoint_error(
                    ErrorCode::FailedPrecondition,
                    "native restore operation journal has invalid schema, request, or configuration identity",
                ),
            );
        }
        match &self.outcome {
            RestoreJournalOutcome::Restored { manifest: _, state } => {
                let live = match state.pid {
                    Some(pid) => pid > 0,
                    None => false,
                };
                if !state.target.same(&self.agent_request.target) || !text_eq(
                    &state.config_digest,
                    &self.agent_request.config_digest,
                ) || state.status != ContainerState::Running || !state.paused || !live {
                    return Err(
                        checkpoint_error(
                            ErrorCode::FailedPrecondition,
                            "native restore journal retained an invalid restored state",
                        ),
                    );
                }
                Ok(())
            },
            _ => Ok(()),
        }
    }

    /// The record of a restore that has not read its artifact yet.
    pub fn allocated(
        request_digest: String,
        agent_request: AgentCreateRequest,
        artifact_path: String,
        reference: CheckpointReference,
    ) -> (result: Result<RestoreJournalRecord, Error>)
        ensures
            ({
                let view = RestoreView {
                    schema_version: RESTORE_JOURNAL_SCHEMA_V1@,
                    operation_id: agent_request@.operation_id,
                    request_digest: request_digest@,
                    agent_request: agent_request@,
                    artifact_path: artifact_path@,
                    reference: reference@,
                    outcome: RestoreOutcomeView::Allocated,
                };
                match result {
                    Ok(record) => restore_fault(view) is None && record@ == view,
                    Err(error) => restore_fault(view) is Some && error.is_checkpoint(
                        ErrorCode::FailedPrecondition,
                        restore_fault_message(restore_fault(view)->0),
                    ),
                }
            }),
    {
        let record = RestoreJournalRecord {
            schema_version: RESTORE_JOURNAL_SCHEMA_V1.to_owned(),
            operation_id: agent_request.operation_id.clone(),
            request_digest,
            agent_request,
            artifact_path,
            reference,
            outcome: RestoreJournalOutcome::Allocated,
        };
        match record.validate() {
            Ok(()) => Ok(record),
            Err(error) => Err(error),
        }
    }

    /// Checks that a valid record belongs to a request.
    pub fn validate_request(
        &self,
        operation_id: &str,
        request_digest: &str,
        agent_request: &AgentCreateRequest,
        artifact_path: &str,
        reference: &CheckpointReference,
    ) -> (result: Result<(), Error>)
        ensures
            ({
                let matching = self@.operation_id == operation_id@ && self@.request_digest
                    == request_digest@ && self@.agent_request == agent_request@
                    && self@.artifact_path == artifact_path@ && self@.reference == reference@;
                match result {
                    Ok(()) => restore_fault(self@) is None && matching,
                    Err(error) => match restore_fault(self@) {
                        Some(fault) => error.is_checkpoint(
                            ErrorCode::FailedPrecondition,
                            restore_fault_message(fault),
                        ),
                        None => !matching && error.is_checkpoint(
                            ErrorCode::FailedPrecondition,
                            reused_restore_message(operation_id@),
                        ),
                    },
                }
            }),
            result is Ok <==> restore_fault(self@) is None && belongs_to_restore(
                self@,
                operation_id@,
                request_digest@,
                agent_request@,
                artifact_path@,
                reference@,
            ),
    {
        match self.validate() {
            Ok(()) => {},
            Err(error) => return Err(error),
        }
        if !text_eq(&self.operation_id, operation_id) || !text_eq(
            &self.request_digest,
            request_digest,
        ) || !self.agent_request.same(agent_request) || !text_eq(
            &self.artifact_path,
            artifact_path,
        ) || !self.reference.same(reference) {
            let mut message = "operation ID ".to_owned();
            message.append(operation_id);
            message.append(" was already used for a different native restore request");
            return Err(checkpoint_error(ErrorCode::FailedPrecondition, &message));
        }
        Ok(())
    }

    /// The manifest of the images that the record keeps.
    pub fn manifest(&self) -> (manifest: Option<&CheckpointArtifactManifest>)
        ensures
            match manifest {
                Some(found) => kept_manifest(self@.outcome) == Some(found@),
                None => kept_manifest(self@.outcome) is None,
            },
    {
        match &self.outcome {
            RestoreJournalOutcome::Allocated => None,
            RestoreJournalOutcome::Prepared { manifest } => Some(manifest),
            RestoreJournalOutcome::Restored { manifest, state: _ } => Some(manifest),
        }
    }

    /// Records that the images are gone and have to be read again.
    pub fn mark_allocated(&mut self)
        ensures
            final(self)@ == (RestoreView {
                outcome: RestoreOutcomeView::Allocated,
                ..old(self)@
            }),
    {
        self.outcome = RestoreJournalOutcome::Allocated;
    }

    /// Records that the stage holds all images.
    pub fn mark_prepared(&mut self, manifest: CheckpointArtifactManifest)
        ensures
            final(self)@ == (RestoreView {
                outcome: RestoreOutcomeView::Prepared(manifest@),
                ..old(self)@
            }),
    {
        self.outcome = RestoreJournalOutcome::Prepared { manifest };
    }

    /// Records that the container runs again, and checks the record.
    pub fn mark_restored(
        &mut self,
        manifest: CheckpointArtifactManifest,
        state: AgentState,
    ) -> (result: Result<(), Error>)
        ensures
            final(self)@ == (RestoreView {
                outcome: RestoreOutcomeView::Restored(manifest@, state@),
                ..old(self)@
            }),
            match result {
                Ok(()) => restore_fault(final(self)@) is None,
                Err(error) => restore_fault(final(self)@) is Some && error.is_checkpoint(
                    ErrorCode::FailedPrecondition,
                    restore_fault_message(restore_fault(final(self)@)->0),
                ),
            },
    {
        self.outcome = RestoreJournalOutcome::Restored { manifest, state };
        self.validate()
    }
}

/// Checks a restore journal file before it is read.
pub fn check_restore_file(path: &str, length: u64) -> (result: Result<(), Error>)
    ensures
        match result {
            Ok(()) => 1 <= length <= MAX_RESTORE_JOURNAL_BYTES,
            Err(error) => !(1 <= length <= MAX_RESTORE_JOURNAL_BYTES) && error.is_checkpoint(
                ErrorCode::FailedPrecondition,
                "restore operation journal must contain 1 through "@ + decimal(
                    MAX_RESTORE_JOURNAL_BYTES as nat,
                ) + " bytes: "@ + path@,
            ),
        },
{
    if length != 0 && length <= MAX_RESTORE_JOURNAL_BYTES {
        return Ok(());
    }
    let mut message = "restore operation journal must contain 1 through ".to_owned();
    append_decimal(&mut message, MAX_RESTORE_JOURNAL_BYTES);
    message.append(" bytes: ");
    message.append(path);
    Err(checkpoint_error(ErrorCode::FailedPrecondition, &message))
}

/// Checks how much of a restore journal file was read.
pub fn check_restore_read(path: &str, length: u64) -> (result: Result<(), Error>)
    ensures
        match result {
            Ok(()) => length <= MAX_RESTORE_JOURNAL_BYTES,
            Err(error) => length > MAX_RESTORE_JOURNAL_BYTES && error.is_checkpoint(
                ErrorCode::ResourceExhausted,
                about("restore operation journal exceeds its bound: "@, path@),
            ),
        },
{
    if length <= MAX_RESTORE_JOURNAL_BYTES {
        return Ok(());
    }
    let mut message = "restore operation journal exceeds its bound: ".to_owned();
    message.append(path);
    Err(checkpoint_error(ErrorCode::ResourceExhausted, &message))
}

/// A record lies under the name of its operation, which is the expected one
/// where there is one.
pub open spec fn restore_placed(
    record: RestoreView,
    expected: Option<Seq<char>>,
    file_name: Seq<char>,
) -> bool {
    &&& expected is Some ==> record.operation_id == expected->0
    &&& file_name == journal_name_text(record.operation_id)
}

/// Checks that a record read from a file is valid and lies where it belongs.
pub fn check_loaded_restore(
    record: &RestoreJournalRecord,
    expected: Option<&str>,
    file_name: &str,
) -> (result: Result<(), Error>)
    ensures
        ({
            let wanted = match expected {
                Some(operation) => Some(operation@),
                None => None,
            };
            match result {
                Ok(()) => restore_fault(record@) is None && restore_placed(
                    record@,
                    wanted,
                    file_name@,
                ),
                Err(error) => match restore_fault(record@) {
                    Some(fault) => error.is_checkpoint(
                        ErrorCode::FailedPrecondition,
                        restore_fault_message(fault),
                    ),
                    None => !restore_placed(record@, wanted, file_name@) && error.is_checkpoint(
                        ErrorCode::FailedPrecondition,
                        about(
                            "restore operation journal filename does not match "@,
                            record@.operation_id,
                        ),
                    ),
                },
            }
        }),
{
    match record.validate() {
        Ok(()) => {},
        Err(error) => return Err(error),
    }
    let expected_name = journal_name(&record.operation_id);
    let other = match expected {
        Some(operation) => !text_eq(&record.operation_id, operation),
        None => false,
    };
    if other || !text_eq(file_name, &expected_name) {
        let mut message = "restore operation journal filename does not match ".to_owned();
        message.append(&record.operation_id);
        return Err(checkpoint_error(ErrorCode::FailedPrecondition, &message));
    }
    Ok(())
}

/// Checks that a directory holds no more entries than the runtime makes.
pub fn check_entry_count(label: &str, count: usize) -> (result: Result<(), Error>)
    ensures
        match result {
            Ok(()) => count <= MAX_JOURNALS,
            Err(error) => count > MAX_JOURNALS && error.is_checkpoint(
                ErrorCode::ResourceExhausted,
                label@ + " directory exceeds "@ + decimal(MAX_JOURNALS as nat) + " entries"@,
            ),
        },
{
    if count <= MAX_JOURNALS {
        return Ok(());
    }
    let mut message = label.to_owned();
    message.append(" directory exceeds ");
    append_decimal(&mut message, MAX_JOURNALS as u64);
    message.append(" entries");
    Err(checkpoint_error(ErrorCode::ResourceExhausted, &message))
}

/// What startup does with an entry of the restore journal directory.
#[derive(Clone, Copy, Debug, PartialEq, Eq, Structural)]
pub enum JournalEntryAction {
    /// A journal that was never finished is removed.
    RemovePending,
    /// A finished journal is read.
    Load,
}

/// Decides what startup does with an entry of the restore journal directory.
pub fn reconcile_journal_entry(name: &str) -> (result: Result<JournalEntryAction, Error>)
    ensures
        match result {
            Ok(JournalEntryAction::RemovePending) => pending_journal_name_holds(name@),
            Ok(JournalEntryAction::Load) => !pending_journal_name_holds(name@)
                && final_journal_name_holds(name@),
            Err(error) => !pending_journal_name_holds(name@) && !final_journal_name_holds(name@)
                && error.is_checkpoint(
                ErrorCode::FailedPrecondition,
                "restore operation directory contains an unknown entry "@ + debug_text(name@),
            ),
        },
{
    if is_pending_journal_name(name) {
        return Ok(JournalEntryAction::RemovePending);
    }
    if is_final_journal_name(name) {
        return Ok(JournalEntryAction::Load);
    }
    let quoted = quote(name);
    let mut message = "restore operation directory contains an unknown entry ".to_owned();
    message.append(&quoted);
    Err(checkpoint_error(ErrorCode::FailedPrecondition, &message))
}

/// The stages that finished journals still need: those of records that keep
/// images.
pub open spec fn retained_stages(records: Seq<RestoreView>) -> Set<Seq<char>> {
    Set::new(
        |name: Seq<char>|
            exists|i: int|
                0 <= i < records.len() && kept_manifest((#[trigger] records[i]).outcome) is Some
                    && name == stage_name_text(records[i].operation_id),
    )
}

/// The views of a list of restore records.
pub open spec fn restore_views(records: Seq<RestoreJournalRecord>) -> Seq<RestoreView> {
    Seq::new(records.len(), |i: int| records[i]@)
}

/// Collects the stages that finished journals still need.
pub fn collect_retained(records: &Vec<RestoreJournalRecord>) -> (names: Vec<String>)
    ensures
        forall|name: Seq<char>|
            string_views(names@).contains(name) <==> retained_stages(
                restore_views(records@),
            ).contains(name),
{
    let ghost all = restore_views(records@);
    let mut names: Vec<String> = Vec::new();
    let mut next: usize = 0;
    while next < records.len()
        invariant
            next <= records@.len(),
            all == restore_views(records@),
            forall|name: Seq<char>|
                #[trigger] string_views(names@).contains(name) <==> retained_stages(
                    all.take(next as int),
                ).contains(name),
        decreases records@.len() - next,
    {
        let ghost before = string_views(names@);
        assert(all[next as int] == records@[next as int]@);
        let kept = records[next].manifest().is_some();
        if kept {
            names.push(stage_name(&records[next].operation_id));
        }
        proof {
            let shorter = all.take(next as int);
            let longer = all.take(next + 1);
            let after = string_views(names@);
            let made = stage_name_text(all[next as int].operation_id);
            if kept {
                assert(after =~= before.push(made));
            } else {
                assert(after =~= before);
            }
            assert forall|name: Seq<char>| #[trigger] after.contains(name) <==> retained_stages(
                longer,
            ).contains(name) by {
                if after.contains(name) {
                    let at = choose|i: int| 0 <= i < after.len() && after[i] == name;
                    if at < before.len() {
                        assert(before[at] == name);
                        assert(before.contains(name));
                        let i = choose|i: int|
                            0 <= i < shorter.len() && kept_manifest(
                                (#[trigger] shorter[i]).outcome,
                            ) is Some && name == stage_name_text(shorter[i].operation_id);
                        assert(longer[i] == shorter[i]);
                    } else {
                        assert(longer[next as int] == all[next as int]);
                    }
                }
                if retained_stages(longer).contains(name) {
                    let i = choose|i: int|
                        0 <= i < longer.len() && kept_manifest((#[trigger] longer[i]).outcome) is Some
                            && name == stage_name_text(longer[i].operation_id);
                    if i < next {
                        assert(shorter[i] == longer[i]);
                        assert(before.contains(name));
                        let at = choose|k: int| 0 <= k < before.len() && before[k] == name;
                        assert(after[at] == name);
                    } else {
                        assert(after[after.len() - 1] == name);
                    }
                }
            }
        }
        next = next + 1;
    }
    assert(all.take(records@.len() as int) =~= all);
    names
}

/// What startup does with an entry of the restore staging directory.
#[derive(Clone, Copy, Debug, PartialEq, Eq, Structural)]
pub enum StageEntryAction {
    /// A journal still needs the stage: check that it is intact.
    Inspect,
    /// No journal needs the stage: remove it.
    Remove,
}

/// What startup does with an entry of the restore staging directory, if it may be there.
pub open spec fn stage_entry_action(
    name: Seq<char>,
    retained: Seq<Seq<char>>,
) -> Option<StageEntryAction> {
    if !stage_name_holds(name) {
        None
    } else if retained.contains(name) {
        Some(StageEntryAction::Inspect)
    } else {
        Some(StageEntryAction::Remove)
    }
}

/// Decides what startup does with an entry of the restore staging directory,
/// given the stages that journals still need.
pub fn reconcile_stage_entry(name: &str, retained: &Vec<String>) -> (result: Result<
    StageEntryAction,
    Error,
>)
    ensures
        match result {
            Ok(StageEntryAction::Inspect) => stage_name_holds(name@) && string_views(
                retained@,
            ).contains(name@),
            Ok(StageEntryAction::Remove) => stage_name_holds(name@) && !string_views(
                retained@,
            ).contains(name@),
            Err(error) => !stage_name_holds(name@) && error.is_checkpoint(
                ErrorCode::FailedPrecondition,
                "restore staging"@ + " contains an unknown entry "@ + debug_text(name@),
            ),
        },
        result is Ok <==> stage_entry_action(name@, string_views(retained@)) is Some,
        result matches Ok(action) ==> stage_entry_action(name@, string_views(retained@)) == Some(
            action,
        ),
{
    match crate::native_checkpoint::state::check_stage_entry("restore staging", name) {
        Ok(()) => {},
        Err(error) => return Err(error),
    }
    if contains_text(retained, name) {
        Ok(StageEntryAction::Inspect)
    } else {
        Ok(StageEntryAction::Remove)
    }
}

fn contains_text(texts: &Vec<String>, wanted: &str) -> (found: bool)
    ensures
        found == string_views(texts@).contains(wanted@),
{
    let mut next: usize = 0;
    while next < texts.len()
        invariant
            next <= texts@.len(),
            forall|i: int| 0 <= i < next ==> #[trigger] string_views(texts@)[i] != wanted@,
        decreases texts@.len() - next,
    {
        assert(string_views(texts@)[next as int] == texts@[next as int]@);
        if text_eq(&texts[next], wanted) {
            return true;
        }
        next = next + 1;
    }
    false
}

/// Startup keeps a stage exactly when a finished journal needs it: a stage of
/// an operation whose record keeps images is inspected, any other removed.
pub proof fn needed_stages_survive_startup(records: Seq<RestoreView>, index: int)
    requires
        0 <= index < records.len(),
        kept_manifest(records[index].outcome) is Some,
    ensures
        retained_stages(records).contains(stage_name_text(records[index].operation_id)),
{
}

/// Whether the record being looked at becomes the one that was looked for,
/// given whether one was found before. Two records for one target are a
/// conflict. `shown` is how the target appears in the message.
pub fn claim_restore(
    found: bool,
    record: &RestoreJournalRecord,
    target: &ContainerTarget,
    shown: &str,
) -> (result: Result<bool, Error>)
    ensures
        match result {
            Ok(claimed) => claimed == (record@.agent_request.target == target@) && !(claimed
                && found),
            Err(error) => record@.agent_request.target == target@ && found && error.is_checkpoint(
                ErrorCode::Conflict,
                about("multiple native restore journals claim target "@, shown@),
            ),
        },
{
    if !record.agent_request.target.same(target) {
        return Ok(false);
    }
    if found {
        let mut message = "multiple native restore journals claim target ".to_owned();
        message.append(shown);
        return Err(checkpoint_error(ErrorCode::Conflict, &message));
    }
    Ok(true)
}

/// A search finds a record exactly when one and only one is for the target.
pub open spec fn sole_claim(records: Seq<RestoreView>, target: TargetView, index: int) -> bool {
    &&& 0 <= index < records.len()
    &&& records[index].agent_request.target == target
    &&& forall|i: int|
        0 <= i < records.len() && (#[trigger] records[i]).agent_request.target == target ==> i
            == index
}

/// Looks for the record of a target among all records, in their order.
pub fn find_record(
    records: &Vec<RestoreJournalRecord>,
    target: &ContainerTarget,
    shown: &str,
) -> (result: Result<Option<usize>, Error>)
    ensures
        match result {
            Ok(Some(index)) => sole_claim(restore_views(records@), target@, index as int),
            Ok(None) => forall|i: int|
                0 <= i < records@.len() ==> (#[trigger] restore_views(
                    records@,
                )[i]).agent_request.target != target@,
            Err(error) => error.is_checkpoint(
                ErrorCode::Conflict,
                about("multiple native restore journals claim target "@, shown@),
            ) && exists|i: int, j: int|
                0 <= i < j < records@.len() && (#[trigger] restore_views(
                    records@,
                )[i]).agent_request.target == target@ && (#[trigger] restore_views(
                    records@,
                )[j]).agent_request.target == target@,
        },
{
    let ghost all = restore_views(records@);
    let mut found: Option<usize> = None;
    let mut next: usize = 0;
    while next < records.len()
        invariant
            next <= records@.len(),
            all == restore_views(records@),
            match found {
                Some(index) => index < next && all[index as int].agent_request.target == target@ && (
                forall|i: int|
                    0 <= i < next && (#[trigger] all[i]).agent_request.target == target@ ==> i
                        == index),
                None => forall|i: int|
                    0 <= i < next ==> (#[trigger] all[i]).agent_request.target != target@,
            },
        decreases records@.len() - next,
    {
        assert(all[next as int] == records@[next as int]@);
        match claim_restore(found.is_some(), &records[next], target, shown) {
            Ok(claimed) => {
                if claimed {
                    found = Some(next);
                }
            },
            Err(error) => {
                assert(all[found->0 as int].agent_request.target == target@
                    && all[next as int].agent_request.target == target@);
                return Err(error);
            },
        }
        next = next + 1;
    }
    Ok(found)
}

/// Checks the root of a retained stage, given what lies at its path: whether
/// there is one at all, and whether it is a private directory.
pub fn check_stage_root(root: &str, found: Option<FileFacts>, euid: u32) -> (result: Result<
    bool,
    Error,
>)
    ensures
        match result {
            Ok(present) => present == (found is Some) && (present ==> private_directory(
                found->0,
                euid,
            )),
            Err(error) => found is Some && if found->0.kind != FileKind::Directory {
                error.is_checkpoint(
                    ErrorCode::PermissionDenied,
                    about("restore stage is not a real directory: "@, root@),
                )
            } else {
                !private_directory(found->0, euid) && error.is_checkpoint(
                    ErrorCode::PermissionDenied,
                    about(
                        "checkpoint state directory must be real, owner-only, and owned by the runtime user: "@,
                        root@,
                    ),
                )
            },
        },
{
    match found {
        None => Ok(false),
        Some(facts) => {
            if facts.kind != FileKind::Directory {
                let mut message = "restore stage is not a real directory: ".to_owned();
                message.append(root);
                return Err(checkpoint_error(ErrorCode::PermissionDenied, &message));
            }
            match ensure_private_directory(root, facts, euid) {
                Ok(()) => Ok(true),
                Err(error) => Err(error),
            }
        },
    }
}

/// A valid restore record is about one operation and one exact generation, whose
/// configuration is that of the checkpoint; where it says that the container was restored,
/// it holds the state of that very container, running, paused and with a process.
pub proof fn valid_restore_records_are_exact(record: RestoreView)
    requires
        restore_fault(record) is None,
    ensures
        record.schema_version == "a3s.oci.native-restore-operation.v1"@,
        record.operation_id == record.agent_request.operation_id,
        record.agent_request.target.generation is Some,
        record.agent_request.guest_config_digest == record.agent_request.config_digest,
        record.agent_request.config_digest == record.reference.source_config_digest,
        record.outcome matches RestoreOutcomeView::Restored(manifest, state) ==> {
            &&& state.target == record.agent_request.target
            &&& state.config_digest == record.reference.source_config_digest
            &&& state.status == ContainerState::Running
            &&& state.paused
            &&& state.pid matches Some(pid) && pid > 0
        },
{
}

/// A restore record that is about one operation and one exact generation is valid
/// whatever else it holds, as long as a restored state is that of the requested container.
pub proof fn exact_restore_records_are_valid(record: RestoreView)
    requires
        record.schema_version == "a3s.oci.native-restore-operation.v1"@,
        record.operation_id == record.agent_request.operation_id,
        record.agent_request.target.generation is Some,
        record.agent_request.guest_config_digest == record.agent_request.config_digest,
        record.agent_request.config_digest == record.reference.source_config_digest,
    ensures
        !(record.outcome is Restored) ==> restore_fault(record) is None,
        record.outcome matches RestoreOutcomeView::Restored(manifest, state) ==> (restore_fault(
            record,
        ) is None <==> {
            &&& state.target == record.agent_request.target
            &&& state.config_digest == record.agent_request.config_digest
            &&& state.status == ContainerState::Running
            &&& state.paused
            &&& state.pid matches Some(pid) && pid > 0
        }),
{
}

/// Startup keeps a stage only for a record that needs it, and no stage of a record that
/// keeps no images unless another record of the same name does.
pub proof fn only_needed_stages_survive_startup(records: Seq<RestoreView>, name: Seq<char>)
    requires
        retained_stages(records).contains(name),
    ensures
        exists|i: int|
            0 <= i < records.len() && !((#[trigger] records[i]).outcome is Allocated) && name
                == "stage-"@ + crate::digest::digest_hex(
                vstd::utf8::encode_utf8(records[i].operation_id),
            ),
{
    let i = choose|i: int|
        0 <= i < records.len() && kept_manifest((#[trigger] records[i]).outcome) is Some && name
            == stage_name_text(records[i].operation_id);
    assert(!(records[i].outcome is Allocated));
}

/// The images of a record are those that were prepared for it: none before they are, and
/// the same ones once the container is restored.
pub proof fn records_keep_what_was_prepared(manifest: ManifestView, state: AgentStateView)
    ensures
        kept_manifest(RestoreOutcomeView::Allocated) is None,
        kept_manifest(RestoreOutcomeView::Prepared(manifest)) == Some(manifest),
        kept_manifest(RestoreOutcomeView::Restored(manifest, state)) == Some(manifest),
{
}

/// At most one record of a list can be the sole claim on a target, and it is none where
/// two records are for the target.
pub proof fn claims_are_unambiguous(
    records: Seq<RestoreView>,
    target: TargetView,
    index: int,
    other: int,
)
    requires
        sole_claim(records, target, index),
        0 <= other < records.len(),
    ensures
        0 <= index < records.len(),
        records[index].agent_request.target.id == target.id,
        records[index].agent_request.target.generation == target.generation,
        records[other].agent_request.target == target <==> other == index,
{
}

/// A record that lies where it should is found under the name of its operation alone.
pub proof fn records_lie_under_their_operation(
    record: RestoreView,
    expected: Option<Seq<char>>,
    file_name: Seq<char>,
)
    ensures
        restore_placed(record, expected, file_name) <==> file_name == crate::digest::digest_hex(
            vstd::utf8::encode_utf8(record.operation_id),
        ) + ".json"@ && (expected is None || expected == Some(record.operation_id)),
{
}

/// A restore is replayed only for the request it was made for: a record belongs to no
/// other operation, digest, container, artifact or checkpoint.
pub proof fn restore_records_belong_to_one_request(
    record: RestoreView,
    operation_id: Seq<char>,
    request_digest: Seq<char>,
    agent_request: AgentRequestView,
    artifact_path: Seq<char>,
    reference: ReferenceView,
)
    ensures
        belongs_to_restore(
            record,
            operation_id,
            request_digest,
            agent_request,
            artifact_path,
            reference,
        ) ==> {
            &&& operation_id == record.operation_id
            &&& request_digest == record.request_digest
            &&& agent_request.target == record.agent_request.target
            &&& agent_request.config_digest == record.agent_request.config_digest
            &&& agent_request.bundle == record.agent_request.bundle
            &&& agent_request == record.agent_request
            &&& artifact_path == record.artifact_path
            &&& reference.artifact_digest == record.reference.artifact_digest
            &&& reference == record.reference
        },
        belongs_to_restore(
            record,
            record.operation_id,
            record.request_digest,
            record.agent_request,
            record.artifact_path,
            record.reference,
        ),
{
}

/// Startup removes a stage only where no journal needs it, never one that a journal needs,
/// and nothing that is no stage.
pub proof fn needed_stages_are_not_removed(name: Seq<char>, retained: Seq<Seq<char>>)
    ensures
        retained.contains(name) ==> stage_entry_action(name, retained) != Some(
            StageEntryAction::Remove,
        ),
        stage_entry_action(name, retained) == Some(StageEntryAction::Remove) <==> stage_name_holds(
            name,
        ) && !retained.contains(name),
        !("stage-"@.is_prefix_of(name)) ==> stage_entry_action(name, retained) is None,
{
}

} // verus!
