//! Retrying on a WebSocket session: what a session is asked to do, how an
//! operation on it failed, and which failures pass.
//!
//! The session itself does the reading and writing and is the caller's; it
//! reports a failure as a [`WsFailure`] and asks here whether to try again.

use crate::retry::RetryError;
use vstd::prelude::*;

verus! {

/// What a session is asked to do.
pub enum WsSessionEvent<M> {
    /// Read the next message.
    ReadMessage,
    /// Queue this message and flush.
    WriteMessage(M),
    /// Flush what is queued.
    Flush,
}

/// How an operation on a socket failed, as far as retrying goes. `M` is the
/// message type, `E` the socket's own error.
pub enum WsFailure<M, E> {
    /// The write buffer is full: the message was not queued and comes back.
    WriteBufferFull(M),
    /// The socket is non-blocking and the operation would block.
    WouldBlock(E),
    /// Any other failure.
    Other(E),
}

/// How secure the streams of a server are.
pub enum Tls {
    /// Plain streams, without encryption.
    Plain,
}

/// The verdict on a failure of a whole session: a message that found the
/// write buffer full is written again, an operation that would block is
/// followed by a read, and any other failure is final.
pub open spec fn session_verdict<M, E>(failure: WsFailure<M, E>) -> Result<
    WsSessionEvent<M>,
    RetryError<WsFailure<M, E>>,
> {
    match failure {
        WsFailure::WriteBufferFull(message) => Ok(WsSessionEvent::WriteMessage(message)),
        WsFailure::WouldBlock(_) => Ok(WsSessionEvent::ReadMessage),
        WsFailure::Other(_) => Err(RetryError::ServiceError(failure)),
    }
}

/// Classify a failure of a whole session.
pub fn retry_session<M, E>(failure: WsFailure<M, E>) -> (verdict: Result<
    WsSessionEvent<M>,
    RetryError<WsFailure<M, E>>,
>)
    ensures
        verdict == session_verdict(failure),
{
    match failure {
        WsFailure::WriteBufferFull(message) => Ok(WsSessionEvent::WriteMessage(message)),
        WsFailure::WouldBlock(err) => Ok(WsSessionEvent::ReadMessage),
        WsFailure::Other(err) => Err(RetryError::ServiceError(WsFailure::Other(err))),
    }
}

/// Classify a failure of the reading side of a session: only an operation
/// that would block is tried again.
pub fn retry_read<M, E>(failure: WsFailure<M, E>) -> (verdict: Result<
    (),
    RetryError<WsFailure<M, E>>,
>)
    ensures
        failure is WouldBlock ==> verdict is Ok,
        !(failure is WouldBlock) ==> verdict == Err::<(), RetryError<WsFailure<M, E>>>(
            RetryError::ServiceError(failure),
        ),
{
    match failure {
        WsFailure::WouldBlock(err) => Ok(()),
        other => Err(RetryError::ServiceError(other)),
    }
}

/// Classify a failure of the writing side of a session: only a message that
/// found the write buffer full is written again.
pub fn retry_write<M, E>(failure: WsFailure<M, E>) -> (verdict: Result<
    M,
    RetryError<WsFailure<M, E>>,
>)
    ensures
        verdict == match failure {
            WsFailure::WriteBufferFull(message) => Ok::<M, RetryError<WsFailure<M, E>>>(message),
            _ => Err::<M, RetryError<WsFailure<M, E>>>(RetryError::ServiceError(failure)),
        },
{
    match failure {
        WsFailure::WriteBufferFull(message) => Ok(message),
        other => Err(RetryError::ServiceError(other)),
    }
}

/// As [`retry_write`], for a writer whose input is an optional message.
pub fn retry_write_option<M, E>(failure: WsFailure<M, E>) -> (verdict: Result<
    Option<M>,
    RetryError<WsFailure<M, E>>,
>)
    ensures
        verdict == match failure {
            WsFailure::WriteBufferFull(message) => Ok::<Option<M>, RetryError<WsFailure<M, E>>>(
                Some(message),
            ),
            _ => Err::<Option<M>, RetryError<WsFailure<M, E>>>(RetryError::ServiceError(failure)),
        },
{
    match failure {
        WsFailure::WriteBufferFull(message) => Ok(Some(message)),
        other => Err(RetryError::ServiceError(other)),
    }
}

/// Classify a failure of a server that accepts connections, given whether
/// the failure is that accepting would block: only that is tried again.
pub fn retry_accept<E>(would_block: bool, err: E) -> (verdict: Result<(), RetryError<E>>)
    ensures
        would_block ==> verdict is Ok,
        !would_block ==> verdict == Err::<(), RetryError<E>>(RetryError::ServiceError(err)),
{
    if would_block {
        Ok(())
    } else {
        Err(RetryError::ServiceError(err))
    }
}

} // verus!
