//! What the answers of the public host service mean.

use vstd::prelude::*;
use crate::error::ErrorCode;
use crate::linux_kvm_recovery_smoke::qualification::{
    absence_of, call_error, call_failure, rejection_of, Reply,
};
use crate::model::ContainerState;

verus! {

/// What an answer to a wait that is shorter than the container's life tells: whether it
/// ran into its deadline, if that is known.
pub open spec fn deadline_of(reply: Reply) -> Option<bool> {
    match reply {
        Reply::Answered => Some(false),
        Reply::Refused(error) => if error.code is DeadlineExceeded {
            Some(true)
        } else {
            None
        },
        Reply::TimedOut => None,
    }
}

/// Whether a wait that is shorter than the container's life ran into its deadline.
pub fn wait_times_out_while_running(reply: Reply) -> (result: Result<bool, String>)
    ensures
        match reply {
            Reply::Answered => result == Ok::<bool, String>(false),
            Reply::Refused(error) => if error.code == ErrorCode::DeadlineExceeded {
                result == Ok::<bool, String>(true)
            } else {
                result matches Err(message) && message@ == call_failure(
                    "bounded public HVF wait"@,
                    error.code,
                    error.message@,
                )
            },
            Reply::TimedOut => result matches Err(message) && message@
                == "bounded public HVF wait exceeded outer timeout"@,
        },
        result is Ok <==> deadline_of(reply) is Some,
        result matches Ok(enforced) ==> deadline_of(reply) == Some(enforced),
{
    match reply {
        Reply::Answered => Ok(false),
        Reply::Refused(error) => if error.code == ErrorCode::DeadlineExceeded {
            Ok(true)
        } else {
            Err(call_error("bounded public HVF wait", &error))
        },
        Reply::TimedOut => Err("bounded public HVF wait exceeded outer timeout".to_owned()),
    }
}

/// Whether a deleted container is gone.
pub fn state_is_missing(reply: Reply) -> (result: Result<bool, String>)
    ensures
        match reply {
            Reply::Answered => result == Ok::<bool, String>(false),
            Reply::Refused(error) => if error.code == ErrorCode::NotFound {
                result == Ok::<bool, String>(true)
            } else {
                result matches Err(message) && message@ == call_failure(
                    "public HVF state after delete"@,
                    error.code,
                    error.message@,
                )
            },
            Reply::TimedOut => result matches Err(message) && message@
                == "public HVF state after delete timed out"@,
        },
        result is Ok <==> absence_of(reply) is Some,
        result matches Ok(gone) ==> absence_of(reply) == Some(gone),
{
    match reply {
        Reply::Answered => Ok(false),
        Reply::Refused(error) => if error.code == ErrorCode::NotFound {
            Ok(true)
        } else {
            Err(call_error("public HVF state after delete", &error))
        },
        Reply::TimedOut => Err("public HVF state after delete timed out".to_owned()),
    }
}

/// Whether a stale generation was rejected: it is not found or in conflict.
pub fn stale_target_rejected(reply: Reply, cause: &str) -> (result: Result<bool, String>)
    ensures
        match reply {
            Reply::Answered => result == Ok::<bool, String>(false),
            Reply::Refused(error) => if error.code == ErrorCode::NotFound || error.code
                == ErrorCode::Conflict {
                result == Ok::<bool, String>(true)
            } else {
                result matches Err(message) && message@
                    == "stale public soak state failed unexpectedly: "@ + cause@
            },
            Reply::TimedOut => result matches Err(message) && message@
                == "stale public soak state timed out"@,
        },
        result is Ok <==> rejection_of(reply) is Some,
        result matches Ok(rejected) ==> rejection_of(reply) == Some(rejected),
{
    match reply {
        Reply::Answered => Ok(false),
        Reply::Refused(error) => {
            if error.code == ErrorCode::NotFound || error.code == ErrorCode::Conflict {
                return Ok(true);
            }
            let mut message = "stale public soak state failed unexpectedly: ".to_owned();
            message.append(cause);
            Err(message)
        },
        Reply::TimedOut => Err("stale public soak state timed out".to_owned()),
    }
}

/// What the answer to a question for the generation before tells: whether it was
/// rejected, or why that is not known.
pub open spec fn stale_generation_reading(reply: Reply) -> Result<bool, Seq<char>> {
    match reply {
        Reply::Answered => Ok(false),
        Reply::Refused(error) => if error.code == ErrorCode::NotFound || error.code
            == ErrorCode::Conflict {
            Ok(true)
        } else {
            Err(call_failure("stale-generation state"@, error.code, error.message@))
        },
        Reply::TimedOut => Err("stale-generation state timed out"@),
    }
}

/// Whether the generation before was rejected: it is not found or in conflict.
pub fn stale_generation_rejected(reply: Reply) -> (result: Result<bool, String>)
    ensures
        match stale_generation_reading(reply) {
            Ok(rejected) => result == Ok::<bool, String>(rejected),
            Err(message) => result matches Err(reported) && reported@ == message,
        },
{
    match reply {
        Reply::Answered => Ok(false),
        Reply::Refused(error) => {
            if error.code == ErrorCode::NotFound || error.code == ErrorCode::Conflict {
                return Ok(true);
            }
            Err(call_error("stale-generation state", &error))
        },
        Reply::TimedOut => Err("stale-generation state timed out".to_owned()),
    }
}

/// Checks that a container still runs while its marker is waited for. The words
/// tell the state that it is in.
pub fn check_running_before_marker(status: ContainerState, words: &str) -> (result: Result<
    (),
    String,
>)
    ensures
        match result {
            Ok(()) => status is Running,
            Err(message) => !(status is Running) && message@
                == "public HVF generation left running before marker: "@ + words@,
        },
{
    if status == ContainerState::Running {
        return Ok(());
    }
    let mut message = "public HVF generation left running before marker: ".to_owned();
    message.append(words);
    Err(message)
}

/// A stale generation counts as rejected only where the question for it was refused with
/// not found or conflict; an answer shows that it was not, and anything else shows nothing.
pub proof fn stale_generations_are_refused(reply: Reply)
    ensures
        stale_generation_reading(reply) == Ok::<bool, Seq<char>>(true) <==> reply is Refused && (
        reply->Refused_0.code is NotFound || reply->Refused_0.code is Conflict),
        stale_generation_reading(reply) == Ok::<bool, Seq<char>>(false) <==> reply is Answered,
        reply is TimedOut ==> stale_generation_reading(reply) is Err,
{
}

/// A deadline is enforced only where the wait was refused for it: an answer shows that it
/// was not, and a call that never came back shows nothing.
pub proof fn deadlines_are_enforced_by_refusal(reply: Reply)
    ensures
        deadline_of(reply) == Some(true) <==> reply is Refused && reply->Refused_0.code
            is DeadlineExceeded,
        deadline_of(reply) == Some(false) <==> reply is Answered,
        reply is TimedOut ==> deadline_of(reply) is None,
{
}

} // verus!
