//! Random bytes: the token that marks an artifact as one operation's own, and the
//! nonce in the name of a journal that is being written.

use vstd::prelude::*;
use crate::error::{checkpoint_error, Error, ErrorCode};

verus! {

/// How many bytes the nonce of a journal has.
pub const NONCE_BYTES: usize = 8;

/// `getrandom::fill` fills all of a buffer with random bytes of the operating
/// system, or says why it cannot. Nothing is claimed of the bytes themselves.
#[verifier::external_body]
pub(crate) fn random_bytes(count: usize) -> (result: Result<Vec<u8>, String>)
    ensures
        match result {
            Ok(bytes) => bytes@.len() == count,
            Err(_) => true,
        },
{
    let mut bytes = vec![0u8; count];
    match getrandom::fill(&mut bytes) {
        Ok(()) => Ok(bytes),
        Err(error) => Err(error.to_string()),
    }
}

/// The token that the given random bytes make, or the failure where none could
/// be drawn.
pub fn publication_token_of(drawn: Result<Vec<u8>, String>) -> (result: Result<[u8; 32], Error>)
    requires
        drawn matches Ok(bytes) ==> bytes@.len() == 32,
    ensures
        match drawn {
            Ok(bytes) => result matches Ok(token) && token@ == bytes@,
            Err(cause) => result matches Err(error) && error.is_checkpoint(
                ErrorCode::Unavailable,
                "failed to generate checkpoint publication token: "@ + cause@,
            ),
        },
{
    let bytes = match drawn {
        Ok(bytes) => bytes,
        Err(cause) => {
            let mut message = "failed to generate checkpoint publication token: ".to_owned();
            message.append(&cause);
            return Err(checkpoint_error(ErrorCode::Unavailable, &message));
        },
    };
    let mut token: [u8; 32] = [0u8; 32];
    let mut next: usize = 0;
    while next < 32
        invariant
            next <= 32,
            bytes@.len() == 32,
            forall|i: int| 0 <= i < next ==> token@[i] == bytes@[i],
        decreases 32 - next,
    {
        token[next] = bytes[next];
        next = next + 1;
    }
    assert(token@ =~= bytes@);
    Ok(token)
}

/// Draws the token of a new artifact. Where none can be drawn, the failure says
/// why.
pub fn draw_publication_token() -> (result: Result<[u8; 32], Error>)
    ensures
        result matches Err(error) ==> exists|cause: Seq<char>| #[trigger]
            error.is_checkpoint(
                ErrorCode::Unavailable,
                "failed to generate checkpoint publication token: "@ + cause,
            ),
{
    publication_token_of(random_bytes(32))
}

/// The nonce that the given random bytes make, or the failure where none could
/// be drawn. `kind` says whose journal is written.
pub fn journal_nonce_of(kind: &str, drawn: Result<Vec<u8>, String>) -> (result: Result<
    Vec<u8>,
    Error,
>)
    ensures
        match drawn {
            Ok(bytes) => result == Ok::<Vec<u8>, Error>(bytes),
            Err(cause) => result matches Err(error) && error.is_checkpoint(
                ErrorCode::Unavailable,
                "failed to generate "@ + kind@ + " journal nonce: "@ + cause@,
            ),
        },
{
    match drawn {
        Ok(bytes) => Ok(bytes),
        Err(cause) => {
            let mut message = "failed to generate ".to_owned();
            message.append(kind);
            message.append(" journal nonce: ");
            message.append(&cause);
            Err(checkpoint_error(ErrorCode::Unavailable, &message))
        },
    }
}

/// Draws the nonce of a journal that is about to be written.
pub fn draw_journal_nonce(kind: &str) -> (result: Result<Vec<u8>, Error>)
    ensures
        match result {
            Ok(nonce) => nonce@.len() == NONCE_BYTES,
            Err(error) => exists|cause: Seq<char>| #[trigger]
                error.is_checkpoint(
                    ErrorCode::Unavailable,
                    "failed to generate "@ + kind@ + " journal nonce: "@ + cause,
                ),
        },
{
    journal_nonce_of(kind, random_bytes(NONCE_BYTES))
}

} // verus!
