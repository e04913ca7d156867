//! Runtime errors: a stable code, the operation that failed and a message.

use vstd::prelude::*;

verus! {

/// Stable classes of runtime failure.
#[derive(Clone, Copy, Debug, PartialEq, Eq, Structural)]
pub enum ErrorCode {
    AlreadyExists,
    Conflict,
    DeadlineExceeded,
    FailedPrecondition,
    Internal,
    InvalidArgument,
    NotFound,
    PermissionDenied,
    ResourceExhausted,
    Unavailable,
    Unsupported,
}

/// Kinds of operating-system failure that the runtime tells apart.
#[derive(Clone, Copy, Debug, PartialEq, Eq, Structural)]
pub enum IoKind {
    NotFound,
    AlreadyExists,
    PermissionDenied,
    Interrupted,
    WouldBlock,
    TimedOut,
    UnexpectedEof,
    ConnectionRefused,
    Other,
}

/// A failed runtime operation.
#[derive(Clone, Debug)]
pub struct Error {
    pub code: ErrorCode,
    pub message: String,
    pub operation: Option<String>,
    pub retryable: bool,
}

/// The operation that checkpoint and restore failures are attributed to.
pub const CHECKPOINT_OPERATION: &'static str = "native-linux-checkpoint";

impl Error {
    /// A failure of the checkpoint backend with this code and message that a
    /// caller should not simply repeat.
    pub open spec fn is_checkpoint(self, code: ErrorCode, message: Seq<char>) -> bool {
        &&& self.code == code
        &&& self.message@ == message
        &&& self.operation is Some
        &&& self.operation->0@ == CHECKPOINT_OPERATION@
        &&& !self.retryable
    }

    /// A failure without an operation.
    pub fn new(code: ErrorCode, message: String) -> (error: Error)
        ensures
            error.code == code,
            error.message == message,
            error.operation is None,
            !error.retryable,
    {
        Error { code, message, operation: None, retryable: false }
    }

    /// The same failure, attributed to an operation.
    pub fn for_operation(self, operation: &str) -> (error: Error)
        ensures
            error.code == self.code,
            error.message == self.message,
            error.operation is Some,
            error.operation->0@ == operation@,
            error.retryable == self.retryable,
    {
        Error {
            code: self.code,
            message: self.message,
            operation: Some(operation.to_owned()),
            retryable: self.retryable,
        }
    }

    /// The same failure, marked as worth repeating or not.
    pub fn retryable(self, retryable: bool) -> (error: Error)
        ensures
            error == (Error { retryable, ..self }),
    {
        Error {
            code: self.code,
            message: self.message,
            operation: self.operation,
            retryable,
        }
    }
}

/// A failure of the checkpoint backend.
pub fn checkpoint_error(code: ErrorCode, message: &str) -> (error: Error)
    ensures
        error.is_checkpoint(code, message@),
{
    Error::new(code, message.to_owned()).for_operation(CHECKPOINT_OPERATION)
}

/// The code of an operating-system failure.
pub open spec fn io_code(kind: IoKind) -> ErrorCode {
    match kind {
        IoKind::NotFound => ErrorCode::NotFound,
        IoKind::AlreadyExists => ErrorCode::AlreadyExists,
        IoKind::PermissionDenied => ErrorCode::PermissionDenied,
        _ => ErrorCode::Unavailable,
    }
}

/// Whether an operating-system failure may go away by itself.
pub open spec fn io_retryable(kind: IoKind) -> bool {
    kind is Interrupted || kind is WouldBlock || kind is TimedOut
}

/// The message of a failed file action.
pub open spec fn io_message(action: Seq<char>, path: Seq<char>, cause: Seq<char>) -> Seq<char> {
    "failed to "@ + action + " "@ + path + ": "@ + cause
}

/// A failed file action of the checkpoint backend, with what the operating
/// system said of it.
pub fn io_error(action: &str, path: &str, kind: IoKind, cause: &str) -> (error: Error)
    ensures
        error.code == io_code(kind),
        error.message@ == io_message(action@, path@, cause@),
        error.operation is Some,
        error.operation->0@ == CHECKPOINT_OPERATION@,
        error.retryable == io_retryable(kind),
{
    let code = match kind {
        IoKind::NotFound => ErrorCode::NotFound,
        IoKind::AlreadyExists => ErrorCode::AlreadyExists,
        IoKind::PermissionDenied => ErrorCode::PermissionDenied,
        _ => ErrorCode::Unavailable,
    };
    let mut message = "failed to ".to_owned();
    message.append(action);
    message.append(" ");
    message.append(path);
    message.append(": ");
    message.append(cause);
    let again = match kind {
        IoKind::Interrupted | IoKind::WouldBlock | IoKind::TimedOut => true,
        _ => false,
    };
    checkpoint_error(code, &message).retryable(again)
}

/// A message with a later failure put behind it.
pub open spec fn with_failure(message: Seq<char>, label: Seq<char>, cause: Seq<char>) -> Seq<char> {
    message + "; "@ + label + " failed: "@ + cause
}

/// Adds the failure of a cleanup step to the failure that made it necessary,
/// which keeps its code.
pub fn append_failure(primary: &mut Error, label: &str, cause: &str)
    ensures
        final(primary).message@ == with_failure(old(primary).message@, label@, cause@),
        final(primary).code == old(primary).code,
        final(primary).operation == old(primary).operation,
        final(primary).retryable == old(primary).retryable,
{
    let mut message = primary.message.clone();
    message.append("; ");
    message.append(label);
    message.append(" failed: ");
    message.append(cause);
    primary.message = message;
}

/// A failure of the system keeps its kind where callers act on it, and may be repeated
/// only where it passes by itself.
pub proof fn system_failures_keep_their_kind(kind: IoKind)
    ensures
        io_code(kind) is NotFound <==> kind is NotFound,
        io_code(kind) is AlreadyExists <==> kind is AlreadyExists,
        io_code(kind) is PermissionDenied <==> kind is PermissionDenied,
        io_retryable(kind) ==> io_code(kind) is Unavailable,
        io_retryable(kind) <==> kind is Interrupted || kind is WouldBlock || kind is TimedOut,
        !(kind is NotFound || kind is AlreadyExists || kind is PermissionDenied) ==> io_code(kind)
            is Unavailable,
{
}

/// A failure of the checkpoint backend is attributed to it, says what it says, and is not
/// simply to be repeated.
pub proof fn checkpoint_failures_are_attributed(
    error: Error,
    code: ErrorCode,
    message: Seq<char>,
)
    requires
        error.is_checkpoint(code, message),
    ensures
        error.code == code,
        error.message@ == message,
        error.operation matches Some(operation) && operation@ == "native-linux-checkpoint"@,
        !error.retryable,
{
}

} // verus!
