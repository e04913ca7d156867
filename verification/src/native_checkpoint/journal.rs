//! Durable journals of checkpoint operations: what they record, the names they
//! are kept under, and what is decided when they are read and written.

use vstd::prelude::*;
use crate::digest::{canonical_sha256_digest, digest_hex, is_sha256, is_sha256_digest, sha256_hex};
use crate::error::{checkpoint_error, Error, ErrorCode};
use crate::model::{CheckpointCompatibility, CompatibilityView};
use crate::native_checkpoint::artifact::encode_token;
use crate::text::{
    after_prefix, all_lower_hex, before_suffix, chars_of, decode_hex, encode_hex, ends_with,
    hex_bytes, hex_round_trip, hex_text, hex_text_is_lower_hex, hex_text_round_trip,
    lower_hex_of_length,
    starts_with_text, strip_prefix, strip_suffix, text_eq,
};

verus! {

pub const STATE_DIRECTORY: &'static str = ".a3s-oci-native-checkpoint-v1";

pub const STATE_SCHEMA_V1: &'static str = "a3s.oci.native-checkpoint-state.v1";

pub const JOURNAL_SCHEMA_V1: &'static str = "a3s.oci.native-checkpoint-operation.v1";

pub const MARKER_FILE: &'static str = "schema.json";

pub const LOCK_FILE: &'static str = "lock";

pub const JOURNALS_DIRECTORY: &'static str = "operations";

pub const STAGING_DIRECTORY: &'static str = "staging";

pub const RESTORE_JOURNALS_DIRECTORY: &'static str = "restore-operations";

pub const RESTORE_STAGING_DIRECTORY: &'static str = "restore-staging";

pub const MAX_JOURNAL_BYTES: u64 = 262_144;

pub const MAX_JOURNALS: usize = 4_096;

/// The hash that stands for an operation in file names.
pub open spec fn operation_hash_text(operation: Seq<char>) -> Seq<char> {
    digest_hex(vstd::utf8::encode_utf8(operation))
}

/// The name of the artifact of an operation before it is published.
pub open spec fn pending_name_text(operation: Seq<char>, token: Seq<u8>) -> Seq<char> {
    ".a3s-oci-checkpoint-"@ + operation_hash_text(operation) + "-"@ + hex_text(token)
        + ".pending"@
}

/// The name of the stage of an operation.
pub open spec fn stage_name_text(operation: Seq<char>) -> Seq<char> {
    "stage-"@ + operation_hash_text(operation)
}

/// The file name of the journal of an operation.
pub open spec fn journal_name_text(operation: Seq<char>) -> Seq<char> {
    operation_hash_text(operation) + ".json"@
}

/// The file name of the journal of an operation while it is written.
pub open spec fn pending_journal_text(operation: Seq<char>, nonce: Seq<u8>) -> Seq<char> {
    ".journal-"@ + operation_hash_text(operation) + "-"@ + hex_text(nonce) + ".pending"@
}

/// The name of a stage: a prefix and a hash.
pub open spec fn stage_name_holds(name: Seq<char>) -> bool {
    after_prefix(name, "stage-"@) matches Some(hash) && is_sha256(hash)
}

/// The name of a journal: a hash and a suffix.
pub open spec fn final_journal_name_holds(name: Seq<char>) -> bool {
    before_suffix(name, ".json"@) matches Some(hash) && is_sha256(hash)
}

/// The name of a journal that is being written.
pub open spec fn pending_journal_name_holds(name: Seq<char>) -> bool {
    ".journal-"@.is_prefix_of(name) && ends_with(name, ".pending"@)
}

/// The hash that stands for an operation in file names.
pub fn operation_hash(operation: &str) -> (hash: String)
    ensures
        hash@ == operation_hash_text(operation@),
        is_sha256(hash@),
{
    sha256_hex(operation.as_bytes())
}

/// The name of the artifact of an operation before it is published.
pub fn pending_name(operation: &str, token: &[u8; 32]) -> (name: String)
    ensures
        name@ == pending_name_text(operation@, token@),
{
    let hash = operation_hash(operation);
    let encoded = encode_token(token);
    let mut name = ".a3s-oci-checkpoint-".to_owned();
    name.append(&hash);
    name.append("-");
    name.append(&encoded);
    name.append(".pending");
    name
}

/// The name of the stage of an operation.
pub fn stage_name(operation: &str) -> (name: String)
    ensures
        name@ == stage_name_text(operation@),
        stage_name_holds(name@),
{
    let hash = operation_hash(operation);
    let mut name = "stage-".to_owned();
    name.append(&hash);
    assert("stage-"@.is_prefix_of(name@));
    assert(name@.skip("stage-"@.len() as int) =~= hash@);
    name
}

/// The file name of the journal of an operation.
pub fn journal_name(operation: &str) -> (name: String)
    ensures
        name@ == journal_name_text(operation@),
        final_journal_name_holds(name@),
{
    let mut name = operation_hash(operation);
    let ghost hash = name@;
    name.append(".json");
    assert(name@.skip(name@.len() - ".json"@.len()) =~= ".json"@);
    assert(name@.take(name@.len() - ".json"@.len()) =~= hash);
    name
}

/// The file name of the journal of an operation while it is written.
pub fn pending_journal_name(operation: &str, nonce: &[u8]) -> (name: String)
    ensures
        name@ == pending_journal_text(operation@, nonce@),
        pending_journal_name_holds(name@),
        !final_journal_name_holds(name@),
{
    let hash = operation_hash(operation);
    let encoded = encode_hex(nonce);
    let mut name = ".journal-".to_owned();
    name.append(&hash);
    name.append("-");
    name.append(&encoded);
    name.append(".pending");
    proof {
        assert(".journal-"@.is_prefix_of(name@));
        assert(name@.skip(name@.len() - ".pending"@.len()) =~= ".pending"@);
        pending_journals_are_not_final(name@);
    }
    name
}

/// Whether a name is that of a stage.
pub fn valid_stage_name(name: &str) -> (holds: bool)
    ensures
        holds == stage_name_holds(name@),
{
    match strip_prefix(name, "stage-") {
        Some(hash) => lower_hex_of_length(&hash, 64),
        None => false,
    }
}

/// Whether a name is that of a journal.
pub fn is_final_journal_name(name: &str) -> (holds: bool)
    ensures
        holds == final_journal_name_holds(name@),
{
    match strip_suffix(name, ".json") {
        Some(hash) => lower_hex_of_length(&hash, 64),
        None => false,
    }
}

/// Whether a name is that of a journal that is being written.
pub fn is_pending_journal_name(name: &str) -> (holds: bool)
    ensures
        holds == pending_journal_name_holds(name@),
{
    starts_with_text(name, ".journal-") && strip_suffix(name, ".pending").is_some()
}

/// The text form of a publication token.
pub open spec fn token_text_holds(encoded: Seq<char>) -> bool {
    encoded.len() == 64 && all_lower_hex(encoded)
}

/// Reads a publication token from its text form.
pub fn decode_token(encoded: &str) -> (result: Result<[u8; 32], Error>)
    ensures
        match result {
            Ok(token) => token_text_holds(encoded@) && token@ == hex_bytes(encoded@),
            Err(error) => !token_text_holds(encoded@) && error.is_checkpoint(
                ErrorCode::FailedPrecondition,
                "checkpoint publication token is not 32-byte lowercase hexadecimal"@,
            ),
        },
{
    let characters = chars_of(encoded);
    if !lower_hex_of_length(&characters, 64) {
        return Err(
            checkpoint_error(
                ErrorCode::FailedPrecondition,
                "checkpoint publication token is not 32-byte lowercase hexadecimal",
            ),
        );
    }
    let bytes = decode_hex(&characters);
    let mut token: [u8; 32] = [0u8;32];
    let mut next: usize = 0;
    while next < 32
        invariant
            next <= 32,
            bytes@.len() == 32,
            forall|i: int| 0 <= i < next ==> token@[i] == bytes@[i],
        decreases 32 - next,
    {
        token[next] = bytes[next];
        next = next + 1;
    }
    assert(token@ =~= bytes@);
    Ok(token)
}

/// What a finished checkpoint hands to its caller.
#[derive(Clone, Debug)]
pub struct JournalResult {
    pub compatibility: CheckpointCompatibility,
    pub artifact_digest: String,
    pub artifact_size_bytes: u64,
}

/// The contents of a checkpoint result.
pub struct JournalResultView {
    pub compatibility: CompatibilityView,
    pub artifact_digest: Seq<char>,
    pub artifact_size_bytes: u64,
}

impl View for JournalResult {
    type V = JournalResultView;

    open spec fn view(&self) -> JournalResultView {
        JournalResultView {
            compatibility: self.compatibility@,
            artifact_digest: self.artifact_digest@,
            artifact_size_bytes: self.artifact_size_bytes,
        }
    }
}

/// A result names an artifact by a canonical digest and a positive size.
pub open spec fn result_holds(result: JournalResultView) -> bool {
    is_sha256_digest(result.artifact_digest) && result.artifact_size_bytes > 0
}

/// The message for a result that names no artifact.
pub const INVALID_RESULT: &'static str =
    "checkpoint result requires a canonical artifact digest and a positive size";

impl JournalResult {
    /// A result that names an artifact.
    pub fn new(
        compatibility: CheckpointCompatibility,
        artifact_digest: String,
        artifact_size_bytes: u64,
    ) -> (result: Result<JournalResult, Error>)
        ensures
            ({
                let view = JournalResultView {
                    compatibility: compatibility@,
                    artifact_digest: artifact_digest@,
                    artifact_size_bytes,
                };
                match result {
                    Ok(made) => result_holds(view) && made@ == view,
                    Err(error) => !result_holds(view) && error.is_checkpoint(
                        ErrorCode::InvalidArgument,
                        INVALID_RESULT@,
                    ),
                }
            }),
    {
        let result = JournalResult { compatibility, artifact_digest, artifact_size_bytes };
        match result.validate() {
            Ok(()) => Ok(result),
            Err(error) => Err(error),
        }
    }

    /// Checks that a result names an artifact.
    pub fn validate(&self) -> (result: Result<(), Error>)
        ensures
            match result {
                Ok(()) => result_holds(self@),
                Err(error) => !result_holds(self@) && error.is_checkpoint(
                    ErrorCode::InvalidArgument,
                    INVALID_RESULT@,
                ),
            },
    {
        if canonical_sha256_digest(&self.artifact_digest) && self.artifact_size_bytes > 0 {
            Ok(())
        } else {
            Err(checkpoint_error(ErrorCode::InvalidArgument, INVALID_RESULT))
        }
    }

    /// Checks that an artifact read back is for the stack the result names.
    pub fn require_retained_compatibility(&self, found: &CheckpointCompatibility) -> (result:
        Result<(), Error>)
        ensures
            match result {
                Ok(()) => found@ == self@.compatibility,
                Err(error) => found@ != self@.compatibility && error.is_checkpoint(
                    ErrorCode::FailedPrecondition,
                    "checkpoint artifact compatibility differs from its retained operation journal"@,
                ),
            },
    {
        if found.same(&self.compatibility) {
            Ok(())
        } else {
            Err(
                checkpoint_error(
                    ErrorCode::FailedPrecondition,
                    "checkpoint artifact compatibility differs from its retained operation journal",
                ),
            )
        }
    }
}

/// How far a checkpoint operation has come.
#[derive(Clone, Debug)]
pub enum JournalOutcome {
    /// The pending artifact may exist.
    Allocated,
    /// The pending artifact is complete.
    Prepared { result: JournalResult },
    /// The artifact is at its destination.
    Published { result: JournalResult },
}

/// How far an operation has come, with its result.
pub enum OutcomeView {
    Allocated,
    Prepared(JournalResultView),
    Published(JournalResultView),
}

impl View for JournalOutcome {
    type V = OutcomeView;

    open spec fn view(&self) -> OutcomeView {
        match *self {
            JournalOutcome::Allocated => OutcomeView::Allocated,
            JournalOutcome::Prepared { result } => OutcomeView::Prepared(result@),
            JournalOutcome::Published { result } => OutcomeView::Published(result@),
        }
    }
}

/// Durable record of one checkpoint operation.
#[derive(Clone, Debug)]
pub struct JournalRecord {
    pub schema_version: String,
    pub operation_id: String,
    pub request_digest: String,
    pub artifact_path: String,
    pub pending_name: String,
    pub publication_token: String,
    pub outcome: JournalOutcome,
}

/// The contents of a journal record.
pub struct JournalView {
    pub schema_version: Seq<char>,
    pub operation_id: Seq<char>,
    pub request_digest: Seq<char>,
    pub artifact_path: Seq<char>,
    pub pending_name: Seq<char>,
    pub publication_token: Seq<char>,
    pub outcome: OutcomeView,
}

impl View for JournalRecord {
    type V = JournalView;

    open spec fn view(&self) -> JournalView {
        JournalView {
            schema_version: self.schema_version@,
            operation_id: self.operation_id@,
            request_digest: self.request_digest@,
            artifact_path: self.artifact_path@,
            pending_name: self.pending_name@,
            publication_token: self.publication_token@,
            outcome: self.outcome@,
        }
    }
}

/// What is wrong with a journal record.
#[derive(Clone, Copy, Debug, PartialEq, Eq, Structural)]
pub enum JournalFault {
    Token,
    Identity,
    Result,
}

/// A result, where there is one, names an artifact.
pub open spec fn outcome_holds(outcome: OutcomeView) -> bool {
    match outcome {
        OutcomeView::Allocated => true,
        OutcomeView::Prepared(result) => result_holds(result),
        OutcomeView::Published(result) => result_holds(result),
    }
}

/// The first thing that is wrong with a journal record.
pub open spec fn journal_fault(record: JournalView) -> Option<JournalFault> {
    if !token_text_holds(record.publication_token) {
        Some(JournalFault::Token)
    } else if record.schema_version != JOURNAL_SCHEMA_V1@ || record.pending_name
        != pending_name_text(record.operation_id, hex_bytes(record.publication_token)) {
        Some(JournalFault::Identity)
    } else if !outcome_holds(record.outcome) {
        Some(JournalFault::Result)
    } else {
        None
    }
}

/// The failure for a fault in a journal record.
pub open spec fn is_journal_failure(error: Error, fault: JournalFault) -> bool {
    match fault {
        JournalFault::Token => error.is_checkpoint(
            ErrorCode::FailedPrecondition,
            "checkpoint publication token is not 32-byte lowercase hexadecimal"@,
        ),
        JournalFault::Identity => error.is_checkpoint(
            ErrorCode::FailedPrecondition,
            "native checkpoint operation journal has invalid schema or pending identity"@,
        ),
        JournalFault::Result => error.is_checkpoint(ErrorCode::InvalidArgument, INVALID_RESULT@),
    }
}

/// A journal record is that of a request.
pub open spec fn belongs_to_request(
    record: JournalView,
    operation_id: Seq<char>,
    request_digest: Seq<char>,
    artifact_path: Seq<char>,
) -> bool {
    &&& record.operation_id == operation_id
    &&& record.request_digest == request_digest
    &&& record.artifact_path == artifact_path
}

/// The message for an operation that was used for another request.
pub open spec fn reused_operation_message(operation: Seq<char>) -> Seq<char> {
    "operation ID "@ + operation + " was already used for a different checkpoint request"@
}

impl JournalRecord {
    /// The record of an operation that has drawn its token.
    pub fn allocated(
        operation_id: String,
        request_digest: String,
        artifact_path: String,
        publication_token: &[u8; 32],
    ) -> (record: JournalRecord)
        ensures
            record@ == (JournalView {
                schema_version: JOURNAL_SCHEMA_V1@,
                operation_id: operation_id@,
                request_digest: request_digest@,
                artifact_path: artifact_path@,
                pending_name: pending_name_text(operation_id@, publication_token@),
                publication_token: hex_text(publication_token@),
                outcome: OutcomeView::Allocated,
            }),
            journal_fault(record@) is None,
    {
        let name = pending_name(&operation_id, publication_token);
        proof {
            hex_text_is_lower_hex(publication_token@);
            hex_round_trip(publication_token@);
        }
        JournalRecord {
            schema_version: JOURNAL_SCHEMA_V1.to_owned(),
            operation_id,
            request_digest,
            artifact_path,
            pending_name: name,
            publication_token: encode_token(publication_token),
            outcome: JournalOutcome::Allocated,
        }
    }

    /// Checks that a record is one that the runtime writes.
    pub fn validate(&self) -> (result: Result<(), Error>)
        ensures
            match result {
                Ok(()) => journal_fault(self@) is None,
                Err(error) => journal_fault(self@) is Some && is_journal_failure(
                    error,
                    journal_fault(self@)->0,
                ),
            },
    {
        let token = match decode_token(&self.publication_token) {
            Ok(token) => token,
            Err(error) => return Err(error),
        };
        let name = pending_name(&self.operation_id, &token);
        if !text_eq(&self.schema_version, JOURNAL_SCHEMA_V1) || !text_eq(
            &self.pending_name,
            &name,
        ) {
            return Err(
                checkpoint_error(
                    ErrorCode::FailedPrecondition,
                    "native checkpoint operation journal has invalid schema or pending identity",
                ),
            );
        }
        match &self.outcome {
            JournalOutcome::Allocated => Ok(()),
            JournalOutcome::Prepared { result } => result.validate(),
            JournalOutcome::Published { result } => result.validate(),
        }
    }

    /// Checks that a valid record belongs to a request.
    pub fn validate_request(
        &self,
        operation_id: &str,
        request_digest: &str,
        artifact_path: &str,
    ) -> (result: Result<(), Error>)
        ensures
            ({
                let matching = self@.operation_id == operation_id@ && self@.request_digest
                    == request_digest@ && self@.artifact_path == artifact_path@;
                match result {
                    Ok(()) => journal_fault(self@) is None && matching,
                    Err(error) => match journal_fault(self@) {
                        Some(fault) => is_journal_failure(error, fault),
                        None => !matching && error.is_checkpoint(
                            ErrorCode::FailedPrecondition,
                            reused_operation_message(operation_id@),
                        ),
                    },
                }
            }),
            result is Ok <==> journal_fault(self@) is None && belongs_to_request(
                self@,
                operation_id@,
                request_digest@,
                artifact_path@,
            ),
    {
        match self.validate() {
            Ok(()) => {},
            Err(error) => return Err(error),
        }
        if !text_eq(&self.operation_id, operation_id) || !text_eq(
            &self.request_digest,
            request_digest,
        ) || !text_eq(&self.artifact_path, artifact_path) {
            let mut message = "operation ID ".to_owned();
            message.append(operation_id);
            message.append(" was already used for a different checkpoint request");
            return Err(checkpoint_error(ErrorCode::FailedPrecondition, &message));
        }
        Ok(())
    }

    /// The token that the record keeps.
    pub fn publication_token(&self) -> (result: Result<[u8; 32], Error>)
        ensures
            match result {
                Ok(token) => token_text_holds(self@.publication_token) && token@ == hex_bytes(
                    self@.publication_token,
                ),
                Err(error) => !token_text_holds(self@.publication_token) && is_journal_failure(
                    error,
                    JournalFault::Token,
                ),
            },
    {
        decode_token(&self.publication_token)
    }

    /// Records that the pending artifact is complete.
    pub fn mark_prepared(&mut self, result: JournalResult)
        ensures
            final(self)@ == (JournalView {
                outcome: OutcomeView::Prepared(result@),
                ..old(self)@
            }),
    {
        self.outcome = JournalOutcome::Prepared { result };
    }

    /// Records that the artifact is at its destination.
    pub fn mark_published(&mut self, result: JournalResult)
        ensures
            final(self)@ == (JournalView {
                outcome: OutcomeView::Published(result@),
                ..old(self)@
            }),
    {
        self.outcome = JournalOutcome::Published { result };
    }
}

/// A journal that is being written is never taken for a finished one.
pub proof fn pending_journals_are_not_final(name: Seq<char>)
    requires
        pending_journal_name_holds(name),
    ensures
        !final_journal_name_holds(name),
{
    reveal_strlit(".json");
    reveal_strlit(".pending");
    if ends_with(name, ".json"@) {
        let last = name.len() - 1;
        assert(name.skip(name.len() - 5)[4] == 'n');
        assert(name.skip(name.len() - 8)[7] == 'g');
    }
}

/// A token survives being recorded.
pub proof fn token_round_trip(token: Seq<u8>)
    requires
        token.len() == 32,
    ensures
        token_text_holds(hex_text(token)),
        hex_bytes(hex_text(token)) == token,
{
    hex_text_is_lower_hex(token);
    hex_round_trip(token);
}

/// A valid record stays valid through all its phases, with the same identity.
pub proof fn phases_keep_records_valid(record: JournalView, result: JournalResultView)
    requires
        journal_fault(record) is None,
        result_holds(result),
    ensures
        journal_fault(JournalView { outcome: OutcomeView::Prepared(result), ..record }) is None,
        journal_fault(JournalView { outcome: OutcomeView::Published(result), ..record }) is None,
{
}

/// A valid journal names its pending artifact after its own operation and token, and a
/// result in it names an artifact by a canonical digest and a positive size.
pub proof fn valid_journals_name_their_artifact(record: JournalView)
    requires
        journal_fault(record) is None,
    ensures
        record.schema_version == "a3s.oci.native-checkpoint-operation.v1"@,
        record.publication_token.len() == 64,
        hex_bytes(record.publication_token).len() == 32,
        hex_text(hex_bytes(record.publication_token)) == record.publication_token,
        record.pending_name == ".a3s-oci-checkpoint-"@ + digest_hex(
            vstd::utf8::encode_utf8(record.operation_id),
        ) + "-"@ + record.publication_token + ".pending"@,
        record.outcome matches OutcomeView::Prepared(result) ==> is_sha256_digest(
            result.artifact_digest,
        ) && result.artifact_size_bytes > 0,
        record.outcome matches OutcomeView::Published(result) ==> is_sha256_digest(
            result.artifact_digest,
        ) && result.artifact_size_bytes > 0,
{
    hex_text_round_trip(record.publication_token);
}

/// A record of an operation with its own token is valid while nothing was made, and with
/// any result that names an artifact; nothing else is asked of it.
pub proof fn journals_of_operations_are_valid(record: JournalView, token: Seq<u8>)
    requires
        token.len() == 32,
        record.schema_version == "a3s.oci.native-checkpoint-operation.v1"@,
        record.publication_token == hex_text(token),
        record.pending_name == pending_name_text(record.operation_id, token),
    ensures
        record.outcome is Allocated ==> journal_fault(record) is None,
        record.outcome matches OutcomeView::Prepared(result) ==> (journal_fault(record) is None
            <==> is_sha256_digest(result.artifact_digest) && result.artifact_size_bytes > 0),
        record.outcome matches OutcomeView::Published(result) ==> (journal_fault(record) is None
            <==> is_sha256_digest(result.artifact_digest) && result.artifact_size_bytes > 0),
{
    token_round_trip(token);
}

/// Names that journals, stages and pending artifacts get are the ones that are looked
/// for: a hash of the operation in a fixed frame.
pub proof fn names_are_recognized(operation: Seq<char>, nonce: Seq<u8>)
    requires
        is_sha256(operation_hash_text(operation)),
    ensures
        stage_name_holds(stage_name_text(operation)),
        final_journal_name_holds(journal_name_text(operation)),
        pending_journal_name_holds(pending_journal_text(operation, nonce)),
        stage_name_text(operation).skip("stage-"@.len() as int) == operation_hash_text(operation),
        journal_name_text(operation).take(64) == operation_hash_text(operation),
{
    let hash = operation_hash_text(operation);
    let stage = stage_name_text(operation);
    assert(stage.skip("stage-"@.len() as int) =~= hash);
    assert("stage-"@.is_prefix_of(stage));
    let name = journal_name_text(operation);
    assert(name.skip(name.len() - ".json"@.len()) =~= ".json"@);
    assert(name.take(name.len() - ".json"@.len()) =~= hash);
    assert(name.take(64) =~= hash);
    let pending = pending_journal_text(operation, nonce);
    assert(".journal-"@.is_prefix_of(pending));
    assert(pending.skip(pending.len() - ".pending"@.len()) =~= ".pending"@);
}

/// Journals and stages that share a name belong to operations with one hash, and pending
/// artifacts that do belong to one token too.
pub proof fn names_are_not_shared(
    first: Seq<char>,
    second: Seq<char>,
    one: Seq<u8>,
    other: Seq<u8>,
)
    requires
        is_sha256(operation_hash_text(first)),
        is_sha256(operation_hash_text(second)),
    ensures
        journal_name_text(first) == journal_name_text(second) ==> operation_hash_text(first)
            == operation_hash_text(second),
        stage_name_text(first) == stage_name_text(second) ==> operation_hash_text(first)
            == operation_hash_text(second),
        one.len() == other.len() && pending_name_text(first, one) == pending_name_text(
            second,
            other,
        ) ==> one == other && operation_hash_text(first) == operation_hash_text(second),
{
    names_are_recognized(first, one);
    names_are_recognized(second, other);
    let prefix = ".a3s-oci-checkpoint-"@;
    let left = pending_name_text(first, one);
    let right = pending_name_text(second, other);
    let start = prefix.len() as int;
    assert(left.subrange(start, start + 64) =~= operation_hash_text(first));
    assert(right.subrange(start, start + 64) =~= operation_hash_text(second));
    let from = start + 64 + "-"@.len();
    assert(left.subrange(from, from + 2 * one.len()) =~= hex_text(one));
    assert(right.subrange(from, from + 2 * other.len()) =~= hex_text(other));
    hex_round_trip(one);
    hex_round_trip(other);
}

/// A journal with a wrong name or token is a state that cannot be gone on from, and one
/// with a wrong result an argument that cannot be used; the first is looked for first.
pub proof fn journal_faults_are_told_apart(record: JournalView, error: Error)
    ensures
        journal_fault(record) == Some(JournalFault::Token) <==> !(record.publication_token.len()
            == 64 && all_lower_hex(record.publication_token)),
        journal_fault(record) is Some && is_journal_failure(error, journal_fault(record)->0) ==> (
        journal_fault(record)->0 is Result <==> error.code is InvalidArgument) && (!(
        journal_fault(record)->0 is Result) <==> error.code is FailedPrecondition)
            && !error.retryable,
        journal_fault(record) == Some(JournalFault::Result) ==> !(record.outcome is Allocated),
{
}

/// An operation is replayed only for the request it was made for: a journal belongs to no
/// other operation, to no request with another digest, and to no other destination.
pub proof fn journals_belong_to_one_request(
    record: JournalView,
    operation_id: Seq<char>,
    request_digest: Seq<char>,
    artifact_path: Seq<char>,
    outcome: OutcomeView,
)
    ensures
        belongs_to_request(record, operation_id, request_digest, artifact_path) ==> operation_id
            == record.operation_id && request_digest == record.request_digest && artifact_path
            == record.artifact_path,
        belongs_to_request(
            record,
            record.operation_id,
            record.request_digest,
            record.artifact_path,
        ),
        belongs_to_request(record, operation_id, request_digest, artifact_path)
            <==> belongs_to_request(
            JournalView { outcome, ..record },
            operation_id,
            request_digest,
            artifact_path,
        ),
{
}

} // verus!
