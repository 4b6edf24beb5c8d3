//! Units over the channels of `std::sync::mpsc`: senders that take a value
//! and receivers that give one.
//!
//! What a channel holds changes under the hands of other threads, so the
//! contracts here state only what holds of every outcome: a value that could
//! not be sent comes back in the error, and the classifiers tell a full or
//! empty channel, which passes, from a disconnected one, which does not.

use crate::retry::RetryError;
use crate::retry::RetryToOptionService;
use crate::retry::Retryable;
use crate::service::Service;
use std::sync::mpsc::Receiver;
use std::sync::mpsc::RecvError;
use std::sync::mpsc::SendError;
use std::sync::mpsc::Sender;
use std::sync::mpsc::SyncSender;
use std::sync::mpsc::TryRecvError;
use std::sync::mpsc::TrySendError;
use vstd::prelude::*;

verus! {

/// `std::sync::mpsc::Sender`, the sending half of an unbounded channel.
#[verifier::external_type_specification]
#[verifier::external_body]
#[verifier::reject_recursive_types(T)]
pub struct ExSender<T>(Sender<T>);

/// `std::sync::mpsc::SyncSender`, the sending half of a bounded channel.
#[verifier::external_type_specification]
#[verifier::external_body]
#[verifier::reject_recursive_types(T)]
pub struct ExSyncSender<T>(SyncSender<T>);

/// `std::sync::mpsc::Receiver`, the receiving half of a channel.
#[verifier::external_type_specification]
#[verifier::external_body]
#[verifier::reject_recursive_types(T)]
pub struct ExReceiver<T>(Receiver<T>);

/// `std::sync::mpsc::SendError`: the value that could not be sent.
#[verifier::external_type_specification]
pub struct ExSendError<T>(SendError<T>);

/// `std::sync::mpsc::TrySendError`: the value that could not be sent, and
/// whether the channel was full or disconnected.
#[verifier::external_type_specification]
pub struct ExTrySendError<T>(TrySendError<T>);

/// `std::sync::mpsc::RecvError`: the channel is empty and disconnected.
#[verifier::external_type_specification]
pub struct ExRecvError(RecvError);

/// `std::sync::mpsc::TryRecvError`: the channel is empty, or empty and
/// disconnected.
#[verifier::external_type_specification]
pub struct ExTryRecvError(TryRecvError);

/// `Sender::send`: on failure the error holds the value that was to be sent.
pub assume_specification<T>[ Sender::<T>::send ](sender: &Sender<T>, t: T) -> (sent: Result<
    (),
    SendError<T>,
>)
    ensures
        sent is Err ==> sent->Err_0.0 == t,
;

/// `SyncSender::send`: on failure the error holds the value that was to be
/// sent.
pub assume_specification<T>[ SyncSender::<T>::send ](sender: &SyncSender<T>, t: T) -> (sent: Result<
    (),
    SendError<T>,
>)
    ensures
        sent is Err ==> sent->Err_0.0 == t,
;

/// `SyncSender::try_send`: on failure the error holds the value that was to
/// be sent, under either variant.
pub assume_specification<T>[ SyncSender::<T>::try_send ](sender: &SyncSender<T>, t: T) -> (sent:
    Result<(), TrySendError<T>>)
    ensures
        sent is Err ==> unsent(sent->Err_0) == t,
;

/// `Sender::clone`: another sender for the same channel.
pub assume_specification<T>[ <Sender<T> as Clone>::clone ](sender: &Sender<T>) -> Sender<T>;

/// `SyncSender::clone`: another sender for the same channel.
pub assume_specification<T>[ <SyncSender<T> as Clone>::clone ](
    sender: &SyncSender<T>,
) -> SyncSender<T>;

/// `Receiver::recv`: nothing is stated of what arrives.
pub assume_specification<T>[ Receiver::<T>::recv ](receiver: &Receiver<T>) -> Result<T, RecvError>;

/// `Receiver::try_recv`: nothing is stated of what arrives.
pub assume_specification<T>[ Receiver::<T>::try_recv ](receiver: &Receiver<T>) -> Result<
    T,
    TryRecvError,
>;

/// The value that a failed `try_send` hands back.
pub open spec fn unsent<T>(err: TrySendError<T>) -> T {
    match err {
        TrySendError::Full(value) => value,
        TrySendError::Disconnected(value) => value,
    }
}

/// A [`Service`] that sends its input on an unbounded channel.
#[verifier::reject_recursive_types(T)]
pub struct MpscSender<T> {
    pub tx: Sender<T>,
}

impl<T> MpscSender<T> {
    pub fn new(tx: Sender<T>) -> (service: Self)
        ensures
            service.tx == tx,
    {
        Self { tx }
    }
}

impl<T> Clone for MpscSender<T> {
    /// Another service on the same channel.
    fn clone(&self) -> Self {
        Self { tx: self.tx.clone() }
    }
}

impl<T> Service for MpscSender<T> {
    type Input = T;

    type Output = ();

    type Error = SendError<T>;

    open spec fn accepts(&self, input: T) -> bool {
        true
    }

    /// What `send` gives for the input on this sender; a failure hands the
    /// input back.
    open spec fn yields(&self, input: T, result: Result<(), SendError<T>>) -> bool {
        &&& call_ensures(Sender::<T>::send, (&self.tx, input), result)
        &&& result is Err ==> result->Err_0.0 == input
    }

    fn process(&self, input: T) -> (result: Result<(), SendError<T>>) {
        self.tx.send(input)
    }
}

/// A [`Service`] that sends its input on a bounded channel and blocks while
/// the channel is full.
#[verifier::reject_recursive_types(T)]
pub struct MpscSyncSender<T> {
    pub tx: SyncSender<T>,
}

impl<T> MpscSyncSender<T> {
    pub fn new(tx: SyncSender<T>) -> (service: Self)
        ensures
            service.tx == tx,
    {
        Self { tx }
    }
}

impl<T> Clone for MpscSyncSender<T> {
    /// Another service on the same channel.
    fn clone(&self) -> Self {
        Self { tx: self.tx.clone() }
    }
}

impl<T> Service for MpscSyncSender<T> {
    type Input = T;

    type Output = ();

    type Error = SendError<T>;

    open spec fn accepts(&self, input: T) -> bool {
        true
    }

    /// What `send` gives for the input on this sender; a failure hands the
    /// input back.
    open spec fn yields(&self, input: T, result: Result<(), SendError<T>>) -> bool {
        &&& call_ensures(SyncSender::<T>::send, (&self.tx, input), result)
        &&& result is Err ==> result->Err_0.0 == input
    }

    fn process(&self, input: T) -> (result: Result<(), SendError<T>>) {
        self.tx.send(input)
    }
}

/// A [`Service`] that tries to send its input on a bounded channel and fails
/// at once where the channel is full. Its classifier retries a full channel
/// with the value that came back.
#[verifier::reject_recursive_types(T)]
pub struct MpscSyncTrySender<T> {
    pub tx: SyncSender<T>,
}

impl<T> MpscSyncTrySender<T> {
    pub fn new(tx: SyncSender<T>) -> (service: Self)
        ensures
            service.tx == tx,
    {
        Self { tx }
    }
}

impl<T> Clone for MpscSyncTrySender<T> {
    /// Another service on the same channel.
    fn clone(&self) -> Self {
        Self { tx: self.tx.clone() }
    }
}

impl<T> Service for MpscSyncTrySender<T> {
    type Input = T;

    type Output = ();

    type Error = TrySendError<T>;

    open spec fn accepts(&self, input: T) -> bool {
        true
    }

    /// What `try_send` gives for the input on this sender; a failure hands
    /// the input back.
    open spec fn yields(&self, input: T, result: Result<(), TrySendError<T>>) -> bool {
        &&& call_ensures(SyncSender::<T>::try_send, (&self.tx, input), result)
        &&& result is Err ==> unsent(result->Err_0) == input
    }

    fn process(&self, input: T) -> (result: Result<(), TrySendError<T>>) {
        self.tx.try_send(input)
    }
}

impl<T> Retryable<T, TrySendError<T>> for MpscSyncTrySender<T> {
    /// A full channel is retried with the value that came back; a
    /// disconnected one is final.
    open spec fn retries(&self, err: TrySendError<T>, verdict: Result<T, RetryError<TrySendError<T>>>) -> bool {
        verdict == match err {
            TrySendError::Full(input) => Ok::<T, RetryError<TrySendError<T>>>(input),
            TrySendError::Disconnected(_) => Err::<T, RetryError<TrySendError<T>>>(
                RetryError::ServiceError(err),
            ),
        }
    }

    fn parse_retry(&self, err: TrySendError<T>) -> (verdict: Result<T, RetryError<TrySendError<T>>>) {
        match err {
            TrySendError::Full(input) => Ok(input),
            err => Err(RetryError::ServiceError(err)),
        }
    }
}

/// A [`Service`] that receives from a channel and blocks while it is empty.
#[verifier::reject_recursive_types(T)]
pub struct MpscReceiver<T> {
    pub rx: Receiver<T>,
}

impl<T> MpscReceiver<T> {
    pub fn new(rx: Receiver<T>) -> (service: Self)
        ensures
            service.rx == rx,
    {
        Self { rx }
    }
}

impl<T> Service for MpscReceiver<T> {
    type Input = ();

    type Output = T;

    type Error = RecvError;

    open spec fn accepts(&self, input: ()) -> bool {
        true
    }

    /// What `recv` gives on this receiver.
    open spec fn yields(&self, input: (), result: Result<T, RecvError>) -> bool {
        call_ensures(Receiver::<T>::recv, (&self.rx,), result)
    }

    fn process(&self, input: ()) -> (result: Result<T, RecvError>) {
        self.rx.recv()
    }
}

/// A [`Service`] that receives from a channel and fails at once where it is
/// empty. Its classifier retries an empty channel.
#[verifier::reject_recursive_types(T)]
pub struct MpscTryReceiver<T> {
    pub rx: Receiver<T>,
}

impl<T> MpscTryReceiver<T> {
    pub fn new(rx: Receiver<T>) -> (service: Self)
        ensures
            service.rx == rx,
    {
        Self { rx }
    }
}

impl<T> Service for MpscTryReceiver<T> {
    type Input = ();

    type Output = T;

    type Error = TryRecvError;

    open spec fn accepts(&self, input: ()) -> bool {
        true
    }

    /// What `try_recv` gives on this receiver.
    open spec fn yields(&self, input: (), result: Result<T, TryRecvError>) -> bool {
        call_ensures(Receiver::<T>::try_recv, (&self.rx,), result)
    }

    fn process(&self, input: ()) -> (result: Result<T, TryRecvError>) {
        self.rx.try_recv()
    }
}

impl<T> Retryable<(), TryRecvError> for MpscTryReceiver<T> {
    /// An empty channel is retried; a disconnected one is final.
    open spec fn retries(&self, err: TryRecvError, verdict: Result<(), RetryError<TryRecvError>>) -> bool {
        match err {
            TryRecvError::Empty => verdict is Ok,
            TryRecvError::Disconnected => verdict == Err::<(), RetryError<TryRecvError>>(
                RetryError::ServiceError(TryRecvError::Disconnected),
            ),
        }
    }

    fn parse_retry(&self, err: TryRecvError) -> (verdict: Result<(), RetryError<TryRecvError>>) {
        match err {
            TryRecvError::Empty => Ok(()),
            err => Err(RetryError::ServiceError(err)),
        }
    }
}

/// A receiver that reports an empty channel as a passing failure, wrapped
/// into [`RetryToOptionService`], answers `Ok(None)` for an empty channel and
/// `Ok(Some(..))` for a value, and never shows the failure `Empty`: its only
/// error is that the channel is disconnected.
pub proof fn lemma_empty_channel_is_none<T>(
    wrapped: RetryToOptionService<MpscTryReceiver<T>>,
    result: Result<Option<T>, RetryError<TryRecvError>>,
)
    requires
        wrapped.yields((), result),
    ensures
        result is Err ==> result->Err_0 == RetryError::ServiceError(TryRecvError::Disconnected),
{
}

} // verus!
