//! Decisions about the destination of an artifact.

use vstd::prelude::*;
use crate::error::{checkpoint_error, Error, ErrorCode};
use crate::path::{current_component, parent_component};
use crate::text::{byte_count, byte_length, chars_of, find_char};

verus! {

/// How an artifact came to be at its destination.
#[derive(Clone, Copy, Debug, PartialEq, Eq, Structural)]
pub enum PublishOutcome {
    /// It was put there now.
    Published,
    /// It was there already.
    AlreadyPublished,
}

/// One file on one device.
#[derive(Clone, Copy, Debug, PartialEq, Eq, Structural)]
pub struct FileIdentity {
    pub device: u64,
    pub inode: u64,
}

/// Whether two open files are one file.
pub fn same_file(left: FileIdentity, right: FileIdentity) -> (same: bool)
    ensures
        same == (left == right),
{
    left.device == right.device && left.inode == right.inode
}

/// What became of linking the pending artifact to its destination.
#[derive(Clone, Copy, Debug, PartialEq, Eq, Structural)]
pub enum LinkOutcome {
    /// The link was made.
    Linked,
    /// Something is at the destination: the pending artifact or another file.
    Occupied { pending: FileIdentity, destination: FileIdentity },
}

/// How an artifact comes to be at its destination, if it does.
pub open spec fn publication_of(link: LinkOutcome) -> Option<PublishOutcome> {
    match link {
        LinkOutcome::Linked => Some(PublishOutcome::Published),
        LinkOutcome::Occupied { pending, destination } => if pending == destination {
            Some(PublishOutcome::AlreadyPublished)
        } else {
            None
        },
    }
}

/// Decides what linking the pending artifact to its destination came to. A
/// destination that holds another file is never replaced.
pub fn publish(destination: &str, link: LinkOutcome) -> (result: Result<PublishOutcome, Error>)
    ensures
        match link {
            LinkOutcome::Linked => result == Ok::<PublishOutcome, Error>(PublishOutcome::Published),
            LinkOutcome::Occupied { pending, destination: found } => if pending == found {
                result == Ok::<PublishOutcome, Error>(PublishOutcome::AlreadyPublished)
            } else {
                result matches Err(error) && error.is_checkpoint(
                    ErrorCode::AlreadyExists,
                    "checkpoint artifact destination was occupied by a different file: "@
                        + destination@,
                )
            },
        },
        result is Ok <==> publication_of(link) is Some,
        result matches Ok(outcome) ==> publication_of(link) == Some(outcome),
{
    match link {
        LinkOutcome::Linked => Ok(PublishOutcome::Published),
        LinkOutcome::Occupied { pending, destination: found } => {
            if same_file(pending, found) {
                return Ok(PublishOutcome::AlreadyPublished);
            }
            let mut message =
                "checkpoint artifact destination was occupied by a different file: ".to_owned();
            message.append(destination);
            Err(checkpoint_error(ErrorCode::AlreadyExists, &message))
        },
    }
}

/// Checks that nothing is at a destination.
pub fn ensure_absent(destination: &str, present: bool) -> (result: Result<(), Error>)
    ensures
        match result {
            Ok(()) => !present,
            Err(error) => present && error.is_checkpoint(
                ErrorCode::AlreadyExists,
                "checkpoint artifact destination already exists: "@ + destination@,
            ),
        },
{
    if !present {
        return Ok(());
    }
    let mut message = "checkpoint artifact destination already exists: ".to_owned();
    message.append(destination);
    Err(checkpoint_error(ErrorCode::AlreadyExists, &message))
}

/// What is to be done about a pending artifact that is no longer needed.
#[derive(Clone, Copy, Debug, PartialEq, Eq, Structural)]
pub enum PendingAction {
    /// There is none.
    Nothing,
    /// Remove it and sync its directory.
    Remove,
}

/// What is done about a pending artifact, if anything may be.
pub open spec fn removal_of(owned: Option<bool>) -> Option<PendingAction> {
    match owned {
        None => Some(PendingAction::Nothing),
        Some(true) => Some(PendingAction::Remove),
        Some(false) => None,
    }
}

/// Decides how a pending artifact is removed, given whether there is one and
/// whether the token owns it. One that it does not own is left alone.
pub fn remove_owned_pending(path: &str, owned: Option<bool>) -> (result: Result<
    PendingAction,
    Error,
>)
    ensures
        match owned {
            None => result == Ok::<PendingAction, Error>(PendingAction::Nothing),
            Some(true) => result == Ok::<PendingAction, Error>(PendingAction::Remove),
            Some(false) => result matches Err(error) && error.is_checkpoint(
                ErrorCode::FailedPrecondition,
                "refusing to remove an unowned pending checkpoint artifact: "@ + path@,
            ),
        },
        result is Ok <==> removal_of(owned) is Some,
        result matches Ok(action) ==> removal_of(owned) == Some(action),
{
    match owned {
        None => Ok(PendingAction::Nothing),
        Some(owned) => {
            if owned {
                return Ok(PendingAction::Remove);
            }
            let mut message =
                "refusing to remove an unowned pending checkpoint artifact: ".to_owned();
            message.append(path);
            Err(checkpoint_error(ErrorCode::FailedPrecondition, &message))
        },
    }
}

/// A name that can stand in a directory.
pub open spec fn entry_name_holds(name: Seq<char>) -> bool {
    &&& name.len() > 0
    &&& byte_length(name) <= 255
    &&& !name.contains('/')
    &&& name != current_component()
    &&& name != parent_component()
}

/// Checks the name of a pending artifact before it is handed to the system.
pub fn check_pending_name(name: &str) -> (result: Result<(), Error>)
    ensures
        match result {
            Ok(()) => entry_name_holds(name@) && !name@.contains('\0'),
            Err(error) => if !entry_name_holds(name@) {
                error.is_checkpoint(
                    ErrorCode::Internal,
                    "runtime generated an invalid pending checkpoint name"@,
                )
            } else {
                name@.contains('\0') && error.is_checkpoint(
                    ErrorCode::Internal,
                    "runtime generated a NUL-containing pending checkpoint name"@,
                )
            },
        },
{
    let characters = chars_of(name);
    let dot = characters.len() == 1 && characters[0] == '.';
    let dots = characters.len() == 2 && characters[0] == '.' && characters[1] == '.';
    proof {
        assert(dot ==> name@ =~= current_component());
        assert(dots ==> name@ =~= parent_component());
    }
    if characters.len() == 0 || byte_count(name) > 255 || find_char(&characters, '/').is_some()
        || dot || dots {
        return Err(
            checkpoint_error(
                ErrorCode::Internal,
                "runtime generated an invalid pending checkpoint name",
            ),
        );
    }
    if find_char(&characters, '\0').is_some() {
        return Err(
            checkpoint_error(
                ErrorCode::Internal,
                "runtime generated a NUL-containing pending checkpoint name",
            ),
        );
    }
    Ok(())
}

/// A name that can stand in a directory leads nowhere else: it has no slash, is no step,
/// and is not too long.
pub proof fn entry_names_lead_nowhere(name: Seq<char>)
    ensures
        entry_name_holds(name) <==> name.len() > 0 && byte_length(name) <= 255 && !name.contains(
            '/',
        ) && name != seq!['.'] && name != seq!['.', '.'],
{
}

/// An artifact is at its destination only where the link was made or the file that is
/// there is the artifact itself; another file that is there is a failure.
pub proof fn publications_replace_nothing(link: LinkOutcome)
    ensures
        publication_of(link) == Some(PublishOutcome::Published) <==> link is Linked,
        link matches LinkOutcome::Occupied { pending, destination } ==> (publication_of(link)
            is Some <==> pending.device == destination.device && pending.inode
            == destination.inode),
        publication_of(link) == Some(PublishOutcome::AlreadyPublished) ==> link is Occupied,
{
}

/// A pending artifact is removed only where the token owns it, and one that it does not
/// own is a failure.
pub proof fn unowned_artifacts_are_left_alone(owned: Option<bool>)
    ensures
        removal_of(owned) == Some(PendingAction::Remove) <==> owned == Some(true),
        removal_of(owned) == Some(PendingAction::Nothing) <==> owned is None,
        removal_of(owned) is None <==> owned == Some(false),
{
}

} // verus!
