//! Decisions about the private state directory of the checkpoint backend.

use vstd::prelude::*;
use crate::error::{
    checkpoint_error, io_code, io_error, io_message, io_retryable, Error, ErrorCode, IoKind,
    CHECKPOINT_OPERATION,
};
use crate::native_checkpoint::journal::{
    journal_fault, stage_name_holds, valid_stage_name, JournalRecord, LOCK_FILE, MAX_JOURNALS,
    MAX_JOURNAL_BYTES, STATE_SCHEMA_V1,
};
use crate::path::{
    components, directly_below, file_name, file_name_of, is_directly_below, join, joined,
};
use crate::text::{append_decimal, debug_text, decimal, quote, string_views, text_eq};

verus! {

/// What kind of entry a path names, without following links.
#[derive(Clone, Copy, Debug, PartialEq, Eq, Structural)]
pub enum FileKind {
    Regular,
    Directory,
    Symlink,
    Socket,
    Other,
}

/// What the operating system says of an entry.
#[derive(Clone, Copy, Debug, PartialEq, Eq, Structural)]
pub struct FileFacts {
    pub kind: FileKind,
    pub uid: u32,
    pub mode: u32,
    pub length: u64,
}

/// Neither the group nor anyone else may do anything with the entry.
pub open spec fn owner_only(mode: u32) -> bool {
    mode & 0o077 == 0
}

/// A message with a path behind it.
pub open spec fn about(message: Seq<char>, path: Seq<char>) -> Seq<char> {
    message + path
}

fn error_about(code: ErrorCode, message: &str, path: &str) -> (error: Error)
    ensures
        error.is_checkpoint(code, about(message@, path@)),
{
    let mut text = message.to_owned();
    text.append(path);
    checkpoint_error(code, &text)
}

/// Checks that the parent of the state directory is a real directory.
pub fn check_runtime_parent(path: &str, facts: FileFacts) -> (result: Result<(), Error>)
    ensures
        match result {
            Ok(()) => facts.kind == FileKind::Directory,
            Err(error) => facts.kind != FileKind::Directory && error.is_checkpoint(
                ErrorCode::FailedPrecondition,
                about("checkpoint runtime parent is not a real directory: "@, path@),
            ),
        },
{
    if facts.kind == FileKind::Directory {
        Ok(())
    } else {
        Err(
            error_about(
                ErrorCode::FailedPrecondition,
                "checkpoint runtime parent is not a real directory: ",
                path,
            ),
        )
    }
}

/// A real directory of the runtime user that nobody else can use.
pub open spec fn private_directory(facts: FileFacts, euid: u32) -> bool {
    facts.kind == FileKind::Directory && facts.uid == euid && owner_only(facts.mode)
}

/// A regular file of the runtime user that nobody else can use.
pub open spec fn private_file(facts: FileFacts, euid: u32) -> bool {
    facts.kind == FileKind::Regular && facts.uid == euid && owner_only(facts.mode)
}

/// Checks that a state directory is private.
pub fn ensure_private_directory(path: &str, facts: FileFacts, euid: u32) -> (result: Result<
    (),
    Error,
>)
    ensures
        match result {
            Ok(()) => private_directory(facts, euid),
            Err(error) => !private_directory(facts, euid) && error.is_checkpoint(
                ErrorCode::PermissionDenied,
                about(
                    "checkpoint state directory must be real, owner-only, and owned by the runtime user: "@,
                    path@,
                ),
            ),
        },
{
    if facts.kind == FileKind::Directory && facts.uid == euid && facts.mode & 0o077 == 0 {
        Ok(())
    } else {
        Err(
            error_about(
                ErrorCode::PermissionDenied,
                "checkpoint state directory must be real, owner-only, and owned by the runtime user: ",
                path,
            ),
        )
    }
}

/// Checks that a state file is private.
pub fn ensure_private_file(path: &str, facts: FileFacts, euid: u32) -> (result: Result<(), Error>)
    ensures
        match result {
            Ok(()) => private_file(facts, euid),
            Err(error) => !private_file(facts, euid) && error.is_checkpoint(
                ErrorCode::PermissionDenied,
                about(
                    "checkpoint state file must be regular, owner-only, and owned by the runtime user: "@,
                    path@,
                ),
            ),
        },
{
    if facts.kind == FileKind::Regular && facts.uid == euid && facts.mode & 0o077 == 0 {
        Ok(())
    } else {
        Err(
            error_about(
                ErrorCode::PermissionDenied,
                "checkpoint state file must be regular, owner-only, and owned by the runtime user: ",
                path,
            ),
        )
    }
}

/// The failure when another backend holds the state directory; trying again
/// later may succeed.
pub fn lock_conflict(root: &str, cause: &str) -> (error: Error)
    ensures
        error.code == ErrorCode::Conflict,
        error.message@ == "another native checkpoint backend owns "@ + root@ + ": "@ + cause@,
        error.operation is Some,
        error.operation->0@ == CHECKPOINT_OPERATION@,
        error.retryable,
{
    let mut message = "another native checkpoint backend owns ".to_owned();
    message.append(root);
    message.append(": ");
    message.append(cause);
    checkpoint_error(ErrorCode::Conflict, &message).retryable(true)
}

/// What reading the schema marker of a state directory gave.
#[derive(Debug)]
pub enum MarkerRead {
    /// The marker names this schema.
    Schema(String),
    /// The marker cannot be decoded, for this cause.
    Undecodable(String),
    /// There is no marker.
    Missing,
    /// The marker cannot be read, for this cause.
    Unreadable(IoKind, String),
}

/// What is to be done about the schema marker.
#[derive(Clone, Copy, Debug, PartialEq, Eq, Structural)]
pub enum MarkerAction {
    /// The marker is there and right.
    Keep,
    /// Write the marker.
    Write,
}

/// Only the lock file lies in an uninitialized state directory.
pub open spec fn only_lock(entries: Seq<Seq<char>>) -> bool {
    forall|i: int| 0 <= i < entries.len() ==> #[trigger] entries[i] == LOCK_FILE@
}

fn has_only_lock(entries: &Vec<String>) -> (holds: bool)
    ensures
        holds == only_lock(string_views(entries@)),
{
    let mut next: usize = 0;
    while next < entries.len()
        invariant
            next <= entries@.len(),
            forall|i: int| 0 <= i < next ==> #[trigger] string_views(entries@)[i] == LOCK_FILE@,
        decreases entries@.len() - next,
    {
        assert(string_views(entries@)[next as int] == entries@[next as int]@);
        if !text_eq(&entries[next], LOCK_FILE) {
            return false;
        }
        next = next + 1;
    }
    true
}

/// What is done about the schema marker of a state directory, if anything may be.
pub open spec fn marker_action(
    marker: MarkerRead,
    entries: Seq<Seq<char>>,
) -> Option<MarkerAction> {
    match marker {
        MarkerRead::Schema(schema) => if schema@ == STATE_SCHEMA_V1@ {
            Some(MarkerAction::Keep)
        } else {
            None
        },
        MarkerRead::Missing => if only_lock(entries) {
            Some(MarkerAction::Write)
        } else {
            None
        },
        _ => None,
    }
}

/// Decides what to do about the schema marker of a state directory, given the
/// entries that lie in it.
pub fn initialize_marker(
    root: &str,
    marker_path: &str,
    marker: &MarkerRead,
    entries: &Vec<String>,
) -> (result: Result<MarkerAction, Error>)
    ensures
        match *marker {
            MarkerRead::Schema(schema) => if schema@ == STATE_SCHEMA_V1@ {
                result == Ok::<MarkerAction, Error>(MarkerAction::Keep)
            } else {
                result matches Err(error) && error.is_checkpoint(
                    ErrorCode::FailedPrecondition,
                    "checkpoint state uses unsupported schema "@ + schema@,
                )
            },
            MarkerRead::Undecodable(cause) => result matches Err(error) && error.is_checkpoint(
                ErrorCode::FailedPrecondition,
                "failed to decode checkpoint state marker: "@ + cause@,
            ),
            MarkerRead::Unreadable(kind, cause) => result matches Err(error) && error.code
                == io_code(kind) && error.message@ == io_message(
                "read checkpoint state marker"@,
                marker_path@,
                cause@,
            ) && error.operation is Some && error.operation->0@ == CHECKPOINT_OPERATION@
                && error.retryable == io_retryable(kind),
            MarkerRead::Missing => if only_lock(string_views(entries@)) {
                result == Ok::<MarkerAction, Error>(MarkerAction::Write)
            } else {
                result matches Err(error) && error.is_checkpoint(
                    ErrorCode::FailedPrecondition,
                    about("uninitialized checkpoint state directory is not empty: "@, root@),
                )
            },
        },
        result is Ok <==> marker_action(*marker, string_views(entries@)) is Some,
        result matches Ok(action) ==> marker_action(*marker, string_views(entries@)) == Some(
            action,
        ),
{
    match marker {
        MarkerRead::Schema(schema) => {
            if text_eq(schema, STATE_SCHEMA_V1) {
                Ok(MarkerAction::Keep)
            } else {
                Err(
                    error_about(
                        ErrorCode::FailedPrecondition,
                        "checkpoint state uses unsupported schema ",
                        schema,
                    ),
                )
            }
        },
        MarkerRead::Undecodable(cause) => Err(
            error_about(
                ErrorCode::FailedPrecondition,
                "failed to decode checkpoint state marker: ",
                cause,
            ),
        ),
        MarkerRead::Unreadable(kind, cause) => Err(
            io_error("read checkpoint state marker", marker_path, *kind, cause),
        ),
        MarkerRead::Missing => {
            if !has_only_lock(entries) {
                return Err(
                    error_about(
                        ErrorCode::FailedPrecondition,
                        "uninitialized checkpoint state directory is not empty: ",
                        root,
                    ),
                );
            }
            Ok(MarkerAction::Write)
        },
    }
}

/// The message for a journal file of the wrong kind or size.
pub open spec fn journal_file_message(path: Seq<char>) -> Seq<char> {
    "checkpoint operation journal must be a regular file of 1 through "@ + decimal(
        MAX_JOURNAL_BYTES as nat,
    ) + " bytes: "@ + path
}

/// Checks a journal file before it is read.
pub fn check_journal_file(path: &str, facts: FileFacts) -> (result: Result<(), Error>)
    ensures
        ({
            let holds = facts.kind == FileKind::Regular && 1 <= facts.length <= MAX_JOURNAL_BYTES;
            match result {
                Ok(()) => holds,
                Err(error) => !holds && error.is_checkpoint(
                    ErrorCode::FailedPrecondition,
                    journal_file_message(path@),
                ),
            }
        }),
{
    if facts.kind == FileKind::Regular && facts.length != 0 && facts.length <= MAX_JOURNAL_BYTES {
        return Ok(());
    }
    let mut message =
        "checkpoint operation journal must be a regular file of 1 through ".to_owned();
    append_decimal(&mut message, MAX_JOURNAL_BYTES);
    message.append(" bytes: ");
    message.append(path);
    Err(checkpoint_error(ErrorCode::FailedPrecondition, &message))
}

/// Checks how much of a journal file was read.
pub fn check_journal_read(path: &str, length: u64) -> (result: Result<(), Error>)
    ensures
        match result {
            Ok(()) => length <= MAX_JOURNAL_BYTES,
            Err(error) => length > MAX_JOURNAL_BYTES && error.is_checkpoint(
                ErrorCode::ResourceExhausted,
                about("checkpoint operation journal exceeds its bound: "@, path@),
            ),
        },
{
    if length <= MAX_JOURNAL_BYTES {
        Ok(())
    } else {
        Err(
            error_about(
                ErrorCode::ResourceExhausted,
                "checkpoint operation journal exceeds its bound: ",
                path,
            ),
        )
    }
}

/// Checks that a record read from the file of an operation is its own.
pub fn check_loaded_record(record: &JournalRecord, expected: &str) -> (result: Result<(), Error>)
    ensures
        match result {
            Ok(()) => journal_fault(record@) is None && record@.operation_id == expected@,
            Err(error) => match journal_fault(record@) {
                Some(fault) => crate::native_checkpoint::journal::is_journal_failure(error, fault),
                None => record@.operation_id != expected@ && error.is_checkpoint(
                    ErrorCode::FailedPrecondition,
                    about("checkpoint operation journal filename does not match "@, expected@),
                ),
            },
        },
{
    match record.validate() {
        Ok(()) => {},
        Err(error) => return Err(error),
    }
    if text_eq(&record.operation_id, expected) {
        Ok(())
    } else {
        Err(
            error_about(
                ErrorCode::FailedPrecondition,
                "checkpoint operation journal filename does not match ",
                expected,
            ),
        )
    }
}

/// The message for a journal directory without room.
pub open spec fn journal_capacity_message(kind: Seq<char>) -> Seq<char> {
    "native "@ + kind + " operation journal reached "@ + decimal(MAX_JOURNALS as nat)
        + " entries"@
}

fn capacity_error(kind: &str) -> (error: Error)
    ensures
        error.is_checkpoint(ErrorCode::ResourceExhausted, journal_capacity_message(kind@)),
{
    let mut message = "native ".to_owned();
    message.append(kind);
    message.append(" operation journal reached ");
    append_decimal(&mut message, MAX_JOURNALS as u64);
    message.append(" entries");
    checkpoint_error(ErrorCode::ResourceExhausted, &message)
}

/// Checks that a journal may be written: it is there already, or the directory
/// has room. `kind` is `checkpoint` or `restore`.
pub fn check_journal_capacity(kind: &str, present: bool, entries: usize) -> (result: Result<
    (),
    Error,
>)
    ensures
        match result {
            Ok(()) => present || entries < MAX_JOURNALS,
            Err(error) => !present && entries >= MAX_JOURNALS && error.is_checkpoint(
                ErrorCode::ResourceExhausted,
                journal_capacity_message(kind@),
            ),
        },
{
    if present || entries < MAX_JOURNALS {
        Ok(())
    } else {
        Err(capacity_error(kind))
    }
}

/// Checks the size of an encoded journal. `kind` is `checkpoint` or `restore`.
pub fn check_encoded_journal(kind: &str, length: u64, bound: u64) -> (result: Result<(), Error>)
    ensures
        match result {
            Ok(()) => 1 <= length <= bound,
            Err(error) => !(1 <= length <= bound) && error.is_checkpoint(
                ErrorCode::ResourceExhausted,
                "encoded "@ + kind@ + " operation journal exceeds its bound"@,
            ),
        },
{
    if length != 0 && length <= bound {
        return Ok(());
    }
    let mut message = "encoded ".to_owned();
    message.append(kind);
    message.append(" operation journal exceeds its bound");
    Err(checkpoint_error(ErrorCode::ResourceExhausted, &message))
}

/// A stage lies directly below the staging directory under a stage name.
pub open spec fn stage_location_holds(staging: Seq<char>, root: Seq<char>) -> bool {
    &&& directly_below(root, staging)
    &&& file_name(root) matches Some(name) && stage_name_holds(name)
}

/// What is to be done about a stage.
#[derive(Clone, Copy, Debug, PartialEq, Eq, Structural)]
pub enum StageAction {
    /// There is nothing to remove.
    Nothing,
    /// Remove the stage and sync the staging directory.
    Remove,
}

/// Checks that a path is that of a stage before anything is removed.
pub fn check_stage_location(staging: &str, root: &str) -> (result: Result<(), Error>)
    ensures
        match result {
            Ok(()) => stage_location_holds(staging@, root@),
            Err(error) => !stage_location_holds(staging@, root@) && error.is_checkpoint(
                ErrorCode::Internal,
                "refusing to clean a checkpoint stage outside the private staging root"@,
            ),
        },
{
    let named = match file_name_of(root) {
        Some(name) => valid_stage_name(&name),
        None => false,
    };
    if is_directly_below(root, staging) && named {
        Ok(())
    } else {
        Err(
            checkpoint_error(
                ErrorCode::Internal,
                "refusing to clean a checkpoint stage outside the private staging root",
            ),
        )
    }
}

/// How a stage is cleaned, if it may be.
pub open spec fn stage_cleanup(
    staging: Seq<char>,
    root: Seq<char>,
    found: Option<FileKind>,
) -> Option<StageAction> {
    if !stage_location_holds(staging, root) {
        None
    } else {
        match found {
            None => Some(StageAction::Nothing),
            Some(kind) => if kind is Directory {
                Some(StageAction::Remove)
            } else {
                None
            },
        }
    }
}

/// Decides how a stage is cleaned, given what lies at its path.
pub fn cleanup_stage(staging: &str, root: &str, found: Option<FileFacts>) -> (result: Result<
    StageAction,
    Error,
>)
    ensures
        match result {
            Ok(StageAction::Nothing) => stage_location_holds(staging@, root@) && found is None,
            Ok(StageAction::Remove) => stage_location_holds(staging@, root@) && found is Some
                && found->0.kind == FileKind::Directory,
            Err(error) => if !stage_location_holds(staging@, root@) {
                error.is_checkpoint(
                    ErrorCode::Internal,
                    "refusing to clean a checkpoint stage outside the private staging root"@,
                )
            } else {
                found is Some && found->0.kind != FileKind::Directory && error.is_checkpoint(
                    ErrorCode::FailedPrecondition,
                    about("checkpoint stage is not a real directory: "@, root@),
                )
            },
        },
        ({
            let kind = match found {
                Some(facts) => Some(facts.kind),
                None => None,
            };
            &&& result is Ok <==> stage_cleanup(staging@, root@, kind) is Some
            &&& result matches Ok(action) ==> stage_cleanup(staging@, root@, kind) == Some(action)
        }),
{
    match check_stage_location(staging, root) {
        Ok(()) => {},
        Err(error) => return Err(error),
    }
    match found {
        None => Ok(StageAction::Nothing),
        Some(facts) => if facts.kind == FileKind::Directory {
            Ok(StageAction::Remove)
        } else {
            Err(
                error_about(
                    ErrorCode::FailedPrecondition,
                    "checkpoint stage is not a real directory: ",
                    root,
                ),
            )
        },
    }
}

/// Checks the name of an entry of a staging directory. `label` names the
/// directory in the message.
pub fn check_stage_entry(label: &str, name: &str) -> (result: Result<(), Error>)
    ensures
        match result {
            Ok(()) => stage_name_holds(name@),
            Err(error) => !stage_name_holds(name@) && error.is_checkpoint(
                ErrorCode::FailedPrecondition,
                label@ + " contains an unknown entry "@ + debug_text(name@),
            ),
        },
{
    if valid_stage_name(name) {
        return Ok(());
    }
    let quoted = quote(name);
    let mut message = label.to_owned();
    message.append(" contains an unknown entry ");
    message.append(&quoted);
    Err(checkpoint_error(ErrorCode::FailedPrecondition, &message))
}

/// The directories of one stage.
#[derive(Debug)]
pub struct StageDirectory {
    images: String,
    work: String,
    root: String,
}

impl StageDirectory {
    /// The path of the stage.
    pub closed spec fn location(self) -> Seq<char> {
        self.root@
    }

    /// The directories lie below the stage.
    pub closed spec fn wf(self) -> bool {
        &&& self.images@ == joined(self.root@, "images"@)
        &&& self.work@ == joined(self.root@, "work"@)
    }

    /// The directories of the stage at a path.
    pub fn at(root: &str) -> (stage: StageDirectory)
        ensures
            stage.wf(),
            stage.location() == root@,
    {
        StageDirectory {
            images: join(root, "images"),
            work: join(root, "work"),
            root: root.to_owned(),
        }
    }

    /// Where CRIU writes its images.
    pub fn images(&self) -> (path: &str)
        requires
            self.wf(),
        ensures
            path@ == joined(self.location(), "images"@),
    {
        &self.images
    }

    /// Where CRIU writes its logs.
    pub fn work(&self) -> (path: &str)
        requires
            self.wf(),
        ensures
            path@ == joined(self.location(), "work"@),
    {
        &self.work
    }

    /// The stage itself.
    pub fn root(&self) -> (path: &str)
        ensures
            path@ == self.location(),
    {
        &self.root
    }
}

/// What only the owner may use, nobody else may read, write or enter.
pub proof fn private_entries_are_closed_to_others(facts: FileFacts, euid: u32)
    ensures
        private_directory(facts, euid) ==> facts.kind is Directory && facts.uid == euid,
        private_file(facts, euid) ==> facts.kind is Regular && facts.uid == euid,
        private_directory(facts, euid) || private_file(facts, euid) ==> facts.mode & 0o040 == 0
            && facts.mode & 0o020 == 0 && facts.mode & 0o010 == 0 && facts.mode & 0o004 == 0
            && facts.mode & 0o002 == 0 && facts.mode & 0o001 == 0,
        facts.kind is Directory && facts.uid == euid && facts.mode == 0o700 ==> private_directory(
            facts,
            euid,
        ),
        facts.kind is Regular && facts.uid == euid && facts.mode == 0o600 ==> private_file(
            facts,
            euid,
        ),
{
    let mode = facts.mode;
    assert(mode & 0o077 == 0 ==> mode & 0o040 == 0 && mode & 0o020 == 0 && mode & 0o010 == 0
        && mode & 0o004 == 0 && mode & 0o002 == 0 && mode & 0o001 == 0) by (bit_vector);
    assert(0o700u32 & 0o077 == 0 && 0o600u32 & 0o077 == 0) by (bit_vector);
}

/// A stage is accepted only directly below the staging directory, under the name that an
/// operation gives it.
pub proof fn stages_lie_below_their_directory(staging: Seq<char>, root: Seq<char>)
    requires
        stage_location_holds(staging, root),
    ensures
        components(root).len() == components(staging).len() + 1,
        components(root).drop_last() == components(staging),
        "stage-"@.is_prefix_of(components(root).last()),
        components(root).last().len() == "stage-"@.len() + 64,
{
}

/// A state directory is untouched only where nothing but the lock lies in it.
pub proof fn untouched_directories_hold_the_lock_alone(entries: Seq<Seq<char>>, more: Seq<char>)
    ensures
        only_lock(Seq::<Seq<char>>::empty()),
        only_lock(entries.push(more)) <==> only_lock(entries) && more == "lock"@,
{
    let all = entries.push(more);
    assert(all[entries.len() as int] == more);
    if only_lock(all) {
        assert forall|i: int| 0 <= i < entries.len() implies #[trigger] entries[i]
            == LOCK_FILE@ by {
            assert(all[i] == entries[i]);
        }
    }
}

/// Only a real directory that lies directly below the staging directory under a stage name
/// is removed; a link or a file there, and anything elsewhere, is a failure.
pub proof fn only_stages_are_removed(
    staging: Seq<char>,
    root: Seq<char>,
    found: Option<FileKind>,
)
    ensures
        stage_cleanup(staging, root, found) == Some(StageAction::Remove) <==> found == Some(
            FileKind::Directory,
        ) && components(root).len() > 0 && stage_location_holds(staging, root),
        stage_cleanup(staging, root, found) is Some ==> components(root).drop_last()
            == components(staging),
        found is Some && !(found->0 is Directory) ==> stage_cleanup(staging, root, found) is None,
        stage_cleanup(staging, root, None) is Some ==> stage_cleanup(staging, root, None) == Some(
            StageAction::Nothing,
        ),
{
}

/// A state directory is initialized only where nothing but its lock lies in it, and kept
/// only where its marker names this schema; a marker that says anything else, or cannot be
/// read, is never overwritten.
pub proof fn markers_are_never_overwritten(marker: MarkerRead, entries: Seq<Seq<char>>)
    ensures
        marker_action(marker, entries) == Some(MarkerAction::Write) <==> marker is Missing
            && forall|i: int| 0 <= i < entries.len() ==> #[trigger] entries[i] == "lock"@,
        marker_action(marker, entries) == Some(MarkerAction::Keep) <==> marker is Schema
            && marker->Schema_0@ == "a3s.oci.native-checkpoint-state.v1"@,
        marker is Undecodable || marker is Unreadable ==> marker_action(marker, entries) is None,
{
}

} // verus!
