//! Steps that KVM qualifications share.

use vstd::prelude::*;
use crate::error::{Error, ErrorCode};
use crate::model::{
    CapabilityStatus, ContainerTarget, DriverKind, DriverReadiness, ExitStatus, TargetView,
};
use crate::native_checkpoint::state::FileKind;
use crate::native_linux_driver::Evidence;
use crate::path::{join, joined};
use crate::text::{append_decimal, append_padded_decimal, decimal, padded_decimal, text_eq};

verus! {

/// An error code as it is printed.
pub open spec fn code_text(code: ErrorCode) -> Seq<char> {
    match code {
        ErrorCode::AlreadyExists => "AlreadyExists"@,
        ErrorCode::Conflict => "Conflict"@,
        ErrorCode::DeadlineExceeded => "DeadlineExceeded"@,
        ErrorCode::FailedPrecondition => "FailedPrecondition"@,
        ErrorCode::Internal => "Internal"@,
        ErrorCode::InvalidArgument => "InvalidArgument"@,
        ErrorCode::NotFound => "NotFound"@,
        ErrorCode::PermissionDenied => "PermissionDenied"@,
        ErrorCode::ResourceExhausted => "ResourceExhausted"@,
        ErrorCode::Unavailable => "Unavailable"@,
        ErrorCode::Unsupported => "Unsupported"@,
    }
}

fn code_name(code: ErrorCode) -> (name: &'static str)
    ensures
        name@ == code_text(code),
{
    match code {
        ErrorCode::AlreadyExists => "AlreadyExists",
        ErrorCode::Conflict => "Conflict",
        ErrorCode::DeadlineExceeded => "DeadlineExceeded",
        ErrorCode::FailedPrecondition => "FailedPrecondition",
        ErrorCode::Internal => "Internal",
        ErrorCode::InvalidArgument => "InvalidArgument",
        ErrorCode::NotFound => "NotFound",
        ErrorCode::PermissionDenied => "PermissionDenied",
        ErrorCode::ResourceExhausted => "ResourceExhausted",
        ErrorCode::Unavailable => "Unavailable",
        ErrorCode::Unsupported => "Unsupported",
    }
}

/// How the failure of a labelled call is reported.
pub open spec fn call_failure(label: Seq<char>, code: ErrorCode, message: Seq<char>) -> Seq<char> {
    label + " failed with "@ + code_text(code) + ": "@ + message
}

/// How the failure of a labelled call is reported.
pub fn call_error(label: &str, error: &Error) -> (text: String)
    ensures
        text@ == call_failure(label@, error.code, error.message@),
{
    let mut text = label.to_owned();
    text.append(" failed with ");
    text.append(code_name(error.code));
    text.append(": ");
    text.append(&error.message);
    text
}

/// What became of a call to a host service.
#[derive(Debug)]
pub enum Reply {
    /// It answered.
    Answered,
    /// It refused.
    Refused(Error),
    /// It did not answer in time.
    TimedOut,
}

/// Tells whether a call was answered, and how its failure is reported.
pub fn call_result(label: &str, reply: Reply) -> (result: Result<(), String>)
    ensures
        match reply {
            Reply::Answered => result is Ok,
            Reply::Refused(error) => result matches Err(message) && message@ == call_failure(
                label@,
                error.code,
                error.message@,
            ),
            Reply::TimedOut => result matches Err(message) && message@ == label@ + " timed out"@,
        },
{
    match reply {
        Reply::Answered => Ok(()),
        Reply::Refused(error) => Err(call_error(label, &error)),
        Reply::TimedOut => {
            let mut message = label.to_owned();
            message.append(" timed out");
            Err(message)
        },
    }
}

/// What an answer about a stale generation tells: whether it was rejected, if that is
/// known.
pub open spec fn rejection_of(reply: Reply) -> Option<bool> {
    match reply {
        Reply::Answered => Some(false),
        Reply::Refused(error) => if error.code is NotFound || error.code is Conflict {
            Some(true)
        } else {
            None
        },
        Reply::TimedOut => None,
    }
}

/// What an answer about a deleted container tells: whether it is gone, if that is known.
pub open spec fn absence_of(reply: Reply) -> Option<bool> {
    match reply {
        Reply::Answered => Some(false),
        Reply::Refused(error) => if error.code is NotFound {
            Some(true)
        } else {
            None
        },
        Reply::TimedOut => None,
    }
}

/// Whether a stale generation was rejected: it is not found or in conflict.
pub fn stale_target_rejected(reply: Reply, cause: &str) -> (result: Result<bool, String>)
    ensures
        match reply {
            Reply::Answered => result == Ok::<bool, String>(false),
            Reply::Refused(error) => if error.code == ErrorCode::NotFound || error.code
                == ErrorCode::Conflict {
                result == Ok::<bool, String>(true)
            } else {
                result matches Err(message) && message@
                    == "stale KVM soak state failed unexpectedly: "@ + cause@
            },
            Reply::TimedOut => result matches Err(message) && message@
                == "stale KVM soak state timed out"@,
        },
        result is Ok <==> rejection_of(reply) is Some,
        result matches Ok(rejected) ==> rejection_of(reply) == Some(rejected),
{
    match reply {
        Reply::Answered => Ok(false),
        Reply::Refused(error) => {
            if error.code == ErrorCode::NotFound || error.code == ErrorCode::Conflict {
                return Ok(true);
            }
            let mut message = "stale KVM soak state failed unexpectedly: ".to_owned();
            message.append(cause);
            Err(message)
        },
        Reply::TimedOut => Err("stale KVM soak state timed out".to_owned()),
    }
}

/// Whether a deleted container is gone.
pub fn state_is_missing(reply: Reply, cause: &str) -> (result: Result<bool, String>)
    ensures
        match reply {
            Reply::Answered => result == Ok::<bool, String>(false),
            Reply::Refused(error) => if error.code == ErrorCode::NotFound {
                result == Ok::<bool, String>(true)
            } else {
                result matches Err(message) && message@ == "KVM soak state after delete failed: "@
                    + cause@
            },
            Reply::TimedOut => result matches Err(message) && message@
                == "KVM soak state after delete timed out"@,
        },
        result is Ok <==> absence_of(reply) is Some,
        result matches Ok(gone) ==> absence_of(reply) == Some(gone),
{
    match reply {
        Reply::Answered => Ok(false),
        Reply::Refused(error) => {
            if error.code == ErrorCode::NotFound {
                return Ok(true);
            }
            let mut message = "KVM soak state after delete failed: ".to_owned();
            message.append(cause);
            Err(message)
        },
        Reply::TimedOut => Err("KVM soak state after delete timed out".to_owned()),
    }
}

/// The identifier of an operation of a qualification.
pub open spec fn operation_id(prefix: Seq<char>, nonce: Seq<char>, suffix: Seq<char>) -> Seq<char> {
    prefix + "-"@ + nonce + "-"@ + suffix
}

/// The identifier of an operation of a qualification.
pub fn operation(prefix: &str, nonce: &str, suffix: &str) -> (id: String)
    ensures
        id@ == operation_id(prefix@, nonce@, suffix@),
{
    let mut id = prefix.to_owned();
    id.append("-");
    id.append(nonce);
    id.append("-");
    id.append(suffix);
    id
}

/// The nonce of one generation of a soak.
pub fn wave_nonce(nonce: &str, iteration: u32) -> (text: String)
    ensures
        text@ == nonce@ + "-"@ + padded_decimal(iteration as nat, 5),
{
    let mut text = nonce.to_owned();
    text.append("-");
    append_padded_decimal(&mut text, iteration as u64, 5);
    text
}

/// What the init process writes once it runs.
pub const MARKER_TEXT: &'static str = "a3s-oci-create-start-user-time-v1\n";

/// The bytes of the marker.
pub open spec fn marker_bytes() -> Seq<u8> {
    vstd::utf8::encode_utf8(MARKER_TEXT@)
}

/// The file that the marker is written to.
pub const MARKER_PATH: &'static str = "/.a3s-oci-create-start-smoke";

/// The bytes that a base64 text in the standard alphabet stands for, or what is
/// wrong with it.
pub uninterp spec fn base64_decoded(text: Seq<char>) -> Result<Seq<u8>, Seq<char>>;

/// `base64::Engine::decode` with the standard engine gives the bytes that a
/// padded base64 text in the standard alphabet stands for, or describes what is
/// wrong with the text. Both depend on the text alone.
#[verifier::external_body]
pub(crate) fn decode_base64(text: &str) -> (result: Result<Vec<u8>, String>)
    ensures
        match result {
            Ok(bytes) => base64_decoded(text@) == Ok::<Seq<u8>, Seq<char>>(bytes@),
            Err(cause) => base64_decoded(text@) == Err::<Seq<u8>, Seq<char>>(cause@),
        },
{
    base64::Engine::decode(&base64::engine::general_purpose::STANDARD, text)
        .map_err(|cause| cause.to_string())
}

/// Checks bytes that were read from the marker file.
pub fn check_marker_bytes(data: &Option<Vec<u8>>, unexpected: &str) -> (result: Result<(), String>)
    ensures
        match result {
            Ok(()) => *data matches Some(bytes) && bytes@ == marker_bytes(),
            Err(message) => message@ == unexpected@ && !(*data matches Some(bytes) && bytes@
                == marker_bytes()),
        },
{
    if let Some(bytes) = data {
        if crate::marker::same_bytes(bytes, MARKER_TEXT.as_bytes()) {
            return Ok(());
        }
    }
    Err(unexpected.to_owned())
}

/// Checks what a download of the marker file answered. The labels tell how a
/// text that is no base64 and other contents are reported.
pub fn check_marker(data: &Option<String>, malformed: &str, unexpected: &str) -> (result: Result<
    (),
    String,
>)
    ensures
        match *data {
            None => result matches Err(message) && message@ == unexpected@,
            Some(text) => match base64_decoded(text@) {
                Err(cause) => result matches Err(message) && message@ == malformed@ + cause,
                Ok(bytes) => if bytes == marker_bytes() {
                    result is Ok
                } else {
                    result matches Err(message) && message@ == unexpected@
                },
            },
        },
{
    let decoded = match data {
        None => None,
        Some(text) => match decode_base64(text) {
            Ok(bytes) => Some(bytes),
            Err(cause) => {
                let mut message = malformed.to_owned();
                message.append(&cause);
                return Err(message);
            },
        },
    };
    check_marker_bytes(&decoded, unexpected)
}

/// What waiting for the marker comes to.
#[derive(Debug)]
pub enum MarkerWait {
    /// The marker is there and right.
    Seen,
    /// Look again.
    Again,
    /// The wait failed.
    Failed(String),
}

/// Decides what a failed download of the marker means while it is waited for.
pub fn marker_unavailable(error: &Error, expired: bool, label: &str, timed_out: &str) -> (wait:
    MarkerWait)
    ensures
        if error.code != ErrorCode::NotFound {
            wait matches MarkerWait::Failed(message) && message@ == call_failure(
                label@,
                error.code,
                error.message@,
            )
        } else if expired {
            wait matches MarkerWait::Failed(message) && message@ == timed_out@
        } else {
            wait is Again
        },
{
    if error.code != ErrorCode::NotFound {
        return MarkerWait::Failed(call_error(label, error));
    }
    if expired {
        MarkerWait::Failed(timed_out.to_owned())
    } else {
        MarkerWait::Again
    }
}

/// Whether there are enough descendants for a shim and a worker, and what to do
/// where there are not.
pub fn descendants_ready(count: usize, expired: bool, missing: &str) -> (result: Result<
    bool,
    String,
>)
    ensures
        if count >= 2 {
            result == Ok::<bool, String>(true)
        } else if expired {
            result matches Err(message) && message@ == missing@
        } else {
            result == Ok::<bool, String>(false)
        },
{
    if count >= 2 {
        Ok(true)
    } else if expired {
        Err(missing.to_owned())
    } else {
        Ok(false)
    }
}

/// A driver that a host service advertises.
#[derive(Debug)]
pub struct AdvertisedDriver {
    pub driver: DriverKind,
    pub status: CapabilityStatus,
    pub readiness: DriverReadiness,
    pub can_launch: bool,
    pub evidence: Evidence,
}

/// How many of the advertised drivers can launch containers.
pub open spec fn launchable_count(drivers: Seq<AdvertisedDriver>) -> nat
    decreases drivers.len(),
{
    if drivers.len() == 0 {
        0
    } else {
        launchable_count(drivers.drop_last()) + if drivers.last().can_launch {
            1nat
        } else {
            0nat
        }
    }
}

/// Whether a driver is the KVM driver opened for one qualification alone.
pub open spec fn in_scope(driver: AdvertisedDriver, scope: Seq<char>) -> bool {
    &&& driver.driver is LibkrunKvm
    &&& driver.status is Available
    &&& driver.readiness is Experimental
    &&& driver.evidence@.dom().contains("qualification_scope"@)
    &&& driver.evidence@["qualification_scope"@] == scope
}

/// Checks that a host service can launch containers with the KVM driver of one
/// qualification and with nothing else.
pub fn verify_qualification_scope(drivers: &Vec<AdvertisedDriver>, scope: &str) -> (result: Result<
    (),
    String,
>)
    requires
        forall|i: int| 0 <= i < drivers@.len() ==> (#[trigger] drivers@[i]).evidence.wf(),
    ensures
        if launchable_count(drivers@) != 1 {
            result matches Err(message) && message@
                == "KVM qualification Host Service advertised "@ + decimal(
                launchable_count(drivers@),
            ) + " launchable drivers, expected one"@
        } else if forall|i: int|
            0 <= i < drivers@.len() && (#[trigger] drivers@[i]).can_launch ==> in_scope(
                drivers@[i],
                scope@,
            ) {
            result is Ok
        } else {
            result matches Err(message) && message@
                == "KVM qualification Host Service did not retain its narrow scope"@
        },
{
    let mut count: usize = 0;
    let mut scoped = true;
    let mut next: usize = 0;
    assert(drivers@.take(0).len() == 0);
    while next < drivers.len()
        invariant
            next <= drivers@.len(),
            count <= next,
            count == launchable_count(drivers@.take(next as int)),
            scoped == forall|i: int|
                0 <= i < next && (#[trigger] drivers@[i]).can_launch ==> in_scope(
                    drivers@[i],
                    scope@,
                ),
            forall|i: int| 0 <= i < drivers@.len() ==> (#[trigger] drivers@[i]).evidence.wf(),
        decreases drivers@.len() - next,
    {
        let ghost longer = drivers@.take(next + 1);
        proof {
            assert(longer.drop_last() =~= drivers@.take(next as int));
            assert(longer.last() == drivers@[next as int]);
        }
        let driver = &drivers[next];
        if driver.can_launch {
            count = count + 1;
            let fits = driver.driver == DriverKind::LibkrunKvm && driver.status
                == CapabilityStatus::Available && driver.readiness == DriverReadiness::Experimental
                && match driver.evidence.get("qualification_scope") {
                Some(found) => text_eq(found, scope),
                None => false,
            };
            assert(fits == in_scope(drivers@[next as int], scope@));
            scoped = scoped && fits;
        }
        next = next + 1;
    }
    assert(drivers@.take(drivers@.len() as int) =~= drivers@);
    if count != 1 {
        let mut message = "KVM qualification Host Service advertised ".to_owned();
        append_decimal(&mut message, count as u64);
        message.append(" launchable drivers, expected one");
        return Err(message);
    }
    if !scoped {
        return Err("KVM qualification Host Service did not retain its narrow scope".to_owned());
    }
    Ok(())
}

/// One container of a recovery report.
#[derive(Debug)]
pub struct RecoveryRecord {
    pub target: ContainerTarget,
    pub config_digest: String,
    pub init_exit_status: ExitStatus,
}

/// Whether a record shows that the target's init was killed.
pub open spec fn shows_kill(
    record: RecoveryRecord,
    target: TargetView,
    digest: Seq<char>,
) -> bool {
    &&& record.target@ == target
    &&& record.config_digest@ == digest
    &&& record.init_exit_status == crate::model::killed_status()
}

/// Whether a recovery report shows that the target's init was killed.
pub fn report_shows_kill(
    records: &Vec<RecoveryRecord>,
    target: &ContainerTarget,
    digest: &str,
) -> (holds: bool)
    ensures
        holds == exists|i: int|
            0 <= i < records@.len() && shows_kill(#[trigger] records@[i], target@, digest@),
{
    let mut next: usize = 0;
    while next < records.len()
        invariant
            next <= records@.len(),
            forall|i: int|
                0 <= i < next ==> !shows_kill(#[trigger] records@[i], target@, digest@),
        decreases records@.len() - next,
    {
        let record = &records[next];
        if record.target.same(target) && text_eq(&record.config_digest, digest)
            && crate::model::is_killed(&Some(record.init_exit_status)) {
            assert(shows_kill(records@[next as int], target@, digest@));
            return true;
        }
        next = next + 1;
    }
    false
}

/// Whether a recovery report file can be trusted: it is a plain file that only
/// its owner, the given user, may use.
pub fn report_file_is_private(kind: FileKind, uid: u32, mode: u32, user: u32) -> (holds: bool)
    ensures
        holds == (kind is Regular && uid == user && mode & 0o777 == 0o600),
{
    let plain = match kind {
        FileKind::Regular => true,
        _ => false,
    };
    plain && uid == user && mode & 0o777 == 0o600
}

/// Where the recovery report of a generation is kept.
pub fn recovery_report_path(runtime_root: &str, target: &ContainerTarget) -> (result: Result<
    String,
    String,
>)
    ensures
        match target.generation {
            Some(generation) => result matches Ok(path) && path@ == joined(
                joined(runtime_root@, "recovery"@),
                target.id@ + "-"@ + decimal(generation as nat) + ".json"@,
            ),
            None => result matches Err(message) && message@
                == "recovery report requires an exact generation"@,
        },
{
    match target.generation {
        Some(generation) => {
            let mut name = target.id.clone();
            name.append("-");
            append_decimal(&mut name, generation);
            name.append(".json");
            Ok(join(&join(runtime_root, "recovery"), &name))
        },
        None => Err("recovery report requires an exact generation".to_owned()),
    }
}

/// Codes are printed under names of their own, so that no two failures are confused.
pub proof fn codes_have_their_own_names(first: ErrorCode, second: ErrorCode)
    requires
        code_text(first) == code_text(second),
    ensures
        first == second,
{
    reveal_strlit("AlreadyExists");
    reveal_strlit("Conflict");
    reveal_strlit("DeadlineExceeded");
    reveal_strlit("FailedPrecondition");
    reveal_strlit("Internal");
    reveal_strlit("InvalidArgument");
    reveal_strlit("NotFound");
    reveal_strlit("PermissionDenied");
    reveal_strlit("ResourceExhausted");
    reveal_strlit("Unavailable");
    reveal_strlit("Unsupported");
    let one = code_text(first);
    let other = code_text(second);
    assert(one.len() == other.len() && one[0] == other[0] && one[2] == other[2]);
}

/// How many drivers can launch containers: as many as say so, none where none does, and
/// one more with one more of them.
pub proof fn launchable_drivers_are_counted(
    drivers: Seq<AdvertisedDriver>,
    more: AdvertisedDriver,
)
    ensures
        launchable_count(drivers.push(more)) == launchable_count(drivers) + if more.can_launch {
            1nat
        } else {
            0nat
        },
        launchable_count(drivers) <= drivers.len(),
        launchable_count(drivers) == 0 <==> forall|i: int|
            0 <= i < drivers.len() ==> !(#[trigger] drivers[i]).can_launch,
    decreases drivers.len(),
{
    assert(drivers.push(more).drop_last() =~= drivers);
    if drivers.len() > 0 {
        let shorter = drivers.drop_last();
        launchable_drivers_are_counted(shorter, more);
        assert(forall|i: int| 0 <= i < shorter.len() ==> #[trigger] shorter[i] == drivers[i]);
        if launchable_count(drivers) == 0 {
            assert forall|i: int| 0 <= i < drivers.len() implies !(
            #[trigger] drivers[i]).can_launch by {
                if i < shorter.len() {
                    assert(shorter[i] == drivers[i]);
                }
            }
        }
        assert(drivers[drivers.len() - 1] == drivers.last());
    }
}

/// A driver is in scope of one qualification at most, and only as an available,
/// experimental KVM driver that names it.
pub proof fn scopes_are_named_by_their_driver(
    driver: AdvertisedDriver,
    scope: Seq<char>,
    other: Seq<char>,
)
    requires
        in_scope(driver, scope),
    ensures
        driver.driver is LibkrunKvm,
        driver.status is Available,
        driver.readiness is Experimental,
        driver.evidence@.dom().contains("qualification_scope"@),
        driver.evidence@["qualification_scope"@] == scope,
        in_scope(driver, other) <==> other == scope,
{
}

/// A record shows a kill only of the very target, with its configuration, ended by the
/// kill signal alone.
pub proof fn kills_are_shown_of_their_target(
    record: RecoveryRecord,
    target: TargetView,
    digest: Seq<char>,
)
    ensures
        shows_kill(record, target, digest) <==> record.target@ == target && record.config_digest@
            == digest && record.init_exit_status == (crate::model::ExitStatus {
            exit_code: None,
            signal: Some(9),
            oom_killed: false,
        }),
{
}

/// Operations of a qualification with one prefix and nonce are told apart by what they
/// are for.
pub proof fn operations_are_told_apart(
    prefix: Seq<char>,
    nonce: Seq<char>,
    first: Seq<char>,
    second: Seq<char>,
)
    requires
        operation_id(prefix, nonce, first) == operation_id(prefix, nonce, second),
    ensures
        first == second,
{
    let start = (prefix + "-"@ + nonce + "-"@).len() as int;
    assert(operation_id(prefix, nonce, first).skip(start) =~= first);
    assert(operation_id(prefix, nonce, second).skip(start) =~= second);
}

/// A container is gone only where it was asked for and not found: an answer shows that it
/// is there, and any other refusal shows nothing. A stale generation may also be refused
/// for another that took its place.
pub proof fn only_refusals_show_absence(reply: Reply)
    ensures
        absence_of(reply) == Some(true) <==> reply is Refused && reply->Refused_0.code is NotFound,
        absence_of(reply) == Some(false) <==> reply is Answered,
        rejection_of(reply) == Some(true) <==> reply is Refused && (reply->Refused_0.code
            is NotFound || reply->Refused_0.code is Conflict),
        rejection_of(reply) == Some(false) <==> reply is Answered,
        reply is TimedOut ==> absence_of(reply) is None && rejection_of(reply) is None,
{
}

} // verus!
