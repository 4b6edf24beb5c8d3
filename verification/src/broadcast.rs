//! Units over the broadcast channel of the `bus` crate: a broadcaster that
//! takes a value for every reader, and readers that each give every value
//! broadcast since they were made.
//!
//! Readers live on other threads, so what a bus holds is not a function of
//! what its broadcaster did, and the contracts state only what holds of
//! every outcome.

use crate::retry::RetryError;
use crate::retry::Retryable;
use crate::service::MutService;
use bus::Bus;
use bus::BusReader;
use std::convert::Infallible;
use std::sync::mpsc::RecvError;
use std::sync::mpsc::TryRecvError;
use vstd::prelude::*;

verus! {

/// `bus::Bus`, the broadcasting end.
#[verifier::external_type_specification]
#[verifier::external_body]
#[verifier::reject_recursive_types(T)]
pub struct ExBus<T>(Bus<T>);

/// `bus::BusReader`, one receiving end.
#[verifier::external_type_specification]
#[verifier::external_body]
#[verifier::reject_recursive_types(T)]
pub struct ExBusReader<T>(BusReader<T>);

/// `Bus::new`: a bus with room for `len` values. It adds one to `len`, so
/// `len` must be below `usize::MAX`.
pub assume_specification<T>[ Bus::<T>::new ](len: usize) -> Bus<T>
    requires
        len < usize::MAX,
;

/// `Bus::broadcast`: blocks until there is room.
pub assume_specification<T>[ Bus::<T>::broadcast ](bus: &mut Bus<T>, val: T);

/// `Bus::try_broadcast`: where there is no room, the value comes back as the
/// error.
pub assume_specification<T>[ Bus::<T>::try_broadcast ](bus: &mut Bus<T>, val: T) -> (sent: Result<
    (),
    T,
>)
    ensures
        sent is Err ==> sent->Err_0 == val,
;

/// `Bus::add_rx`: a new reader, which sees what is broadcast from now on.
pub assume_specification<T>[ Bus::<T>::add_rx ](bus: &mut Bus<T>) -> BusReader<T>;

/// `BusReader::recv`: nothing is stated of what arrives.
pub assume_specification<T: Clone + Sync>[ BusReader::<T>::recv ](
    reader: &mut BusReader<T>,
) -> Result<T, RecvError>;

/// `BusReader::try_recv`: nothing is stated of what arrives.
pub assume_specification<T: Clone + Sync>[ BusReader::<T>::try_recv ](
    reader: &mut BusReader<T>,
) -> Result<T, TryRecvError>;

/// A [`MutService`] that broadcasts its input and blocks while the bus is
/// full.
#[verifier::reject_recursive_types(T)]
pub struct BusBroadcaster<T> {
    pub bus: Bus<T>,
}

impl<T> BusBroadcaster<T> {
    /// Wrap `bus`.
    pub fn new(bus: Bus<T>) -> (service: Self)
        ensures
            service.bus == bus,
    {
        Self { bus }
    }

    /// A broadcaster over a new bus with room for `len` values: the bus that
    /// `Bus::new` gives for `len`.
    pub fn with_len(len: usize) -> (service: Self)
        requires
            len < usize::MAX,
        ensures
            call_ensures(Bus::<T>::new, (len,), service.bus),
    {
        Self { bus: Bus::new(len) }
    }

    /// The bus itself, to add readers to.
    pub fn bus(&mut self) -> (bus: &mut Bus<T>)
        ensures
            *bus == old(self).bus,
            final(self).bus == *final(bus),
    {
        &mut self.bus
    }

    /// A blocking reader of what is broadcast from now on: the reader that
    /// `add_rx` gives on the bus, which is left as `add_rx` leaves it.
    pub fn create_receiver(&mut self) -> (receiver: BusReceiver<T>)
        ensures
            exists|bus: &mut Bus<T>|
                mut_ref_current(bus) == old(self).bus && mut_ref_future(bus) == final(self).bus
                    && #[trigger] call_ensures(Bus::<T>::add_rx, (bus,), receiver.reader),
    {
        BusReceiver::new(self.bus.add_rx())
    }

    /// A non-blocking reader of what is broadcast from now on: the reader
    /// that `add_rx` gives on the bus, which is left as `add_rx` leaves it.
    pub fn create_try_receiver(&mut self) -> (receiver: BusTryReceiver<T>)
        ensures
            exists|bus: &mut Bus<T>|
                mut_ref_current(bus) == old(self).bus && mut_ref_future(bus) == final(self).bus
                    && #[trigger] call_ensures(Bus::<T>::add_rx, (bus,), receiver.reader),
    {
        BusTryReceiver::new(self.bus.add_rx())
    }
}

impl<T> MutService for BusBroadcaster<T> {
    type Input = T;

    type Output = ();

    type Error = Infallible;

    open spec fn accepts_mut(&self, input: T) -> bool {
        true
    }

    /// Never a failure.
    open spec fn yields_mut(&self, input: T, next: &Self, result: Result<(), Infallible>) -> bool {
        result is Ok
    }

    fn process(&mut self, input: T) -> (result: Result<(), Infallible>)
        ensures
            exists|bus: &mut Bus<T>|
                mut_ref_current(bus) == old(self).bus && mut_ref_future(bus) == final(self).bus
                    && #[trigger] call_ensures(Bus::<T>::broadcast, (bus, input), ()),
    {
        let sent = self.bus.broadcast(input);
        assert(sent =~= ());
        Ok(())
    }
}

/// A [`MutService`] that tries to broadcast its input and fails with the
/// input where the bus is full. Its classifier retries with that input.
#[verifier::reject_recursive_types(T)]
pub struct BusTryBroadcaster<T> {
    pub bus: Bus<T>,
}

impl<T> BusTryBroadcaster<T> {
    /// Wrap `bus`.
    pub fn new(bus: Bus<T>) -> (service: Self)
        ensures
            service.bus == bus,
    {
        Self { bus }
    }

    /// A broadcaster over a new bus with room for `len` values: the bus that
    /// `Bus::new` gives for `len`.
    pub fn with_len(len: usize) -> (service: Self)
        requires
            len < usize::MAX,
        ensures
            call_ensures(Bus::<T>::new, (len,), service.bus),
    {
        Self { bus: Bus::new(len) }
    }

    /// The bus itself, to add readers to.
    pub fn bus(&mut self) -> (bus: &mut Bus<T>)
        ensures
            *bus == old(self).bus,
            final(self).bus == *final(bus),
    {
        &mut self.bus
    }

    /// A blocking reader of what is broadcast from now on: the reader that
    /// `add_rx` gives on the bus, which is left as `add_rx` leaves it.
    pub fn create_receiver(&mut self) -> (receiver: BusReceiver<T>)
        ensures
            exists|bus: &mut Bus<T>|
                mut_ref_current(bus) == old(self).bus && mut_ref_future(bus) == final(self).bus
                    && #[trigger] call_ensures(Bus::<T>::add_rx, (bus,), receiver.reader),
    {
        BusReceiver::new(self.bus.add_rx())
    }

    /// A non-blocking reader of what is broadcast from now on: the reader
    /// that `add_rx` gives on the bus, which is left as `add_rx` leaves it.
    pub fn create_try_receiver(&mut self) -> (receiver: BusTryReceiver<T>)
        ensures
            exists|bus: &mut Bus<T>|
                mut_ref_current(bus) == old(self).bus && mut_ref_future(bus) == final(self).bus
                    && #[trigger] call_ensures(Bus::<T>::add_rx, (bus,), receiver.reader),
    {
        BusTryReceiver::new(self.bus.add_rx())
    }
}

impl<T> MutService for BusTryBroadcaster<T> {
    type Input = T;

    type Output = ();

    type Error = T;

    open spec fn accepts_mut(&self, input: T) -> bool {
        true
    }

    /// A failure is the input itself.
    open spec fn yields_mut(&self, input: T, next: &Self, result: Result<(), T>) -> bool {
        result is Err ==> result->Err_0 == input
    }

    fn process(&mut self, input: T) -> (result: Result<(), T>)
        ensures
            exists|bus: &mut Bus<T>|
                mut_ref_current(bus) == old(self).bus && mut_ref_future(bus) == final(self).bus
                    && #[trigger] call_ensures(Bus::<T>::try_broadcast, (bus, input), result),
    {
        self.bus.try_broadcast(input)
    }
}

impl<T> Retryable<T, T> for BusTryBroadcaster<T> {
    /// Every failure is retried, with the value that came back.
    open spec fn retries(&self, err: T, verdict: Result<T, RetryError<T>>) -> bool {
        verdict == Ok::<T, RetryError<T>>(err)
    }

    fn parse_retry(&self, err: T) -> (verdict: Result<T, RetryError<T>>) {
        Ok(err)
    }
}

/// A [`MutService`] that receives from a bus and blocks while there is
/// nothing to read.
#[verifier::reject_recursive_types(T)]
pub struct BusReceiver<T> {
    pub reader: BusReader<T>,
}

impl<T> BusReceiver<T> {
    pub fn new(reader: BusReader<T>) -> (service: Self)
        ensures
            service.reader == reader,
    {
        Self { reader }
    }
}

impl<T: Clone + Sync> MutService for BusReceiver<T> {
    type Input = ();

    type Output = T;

    type Error = RecvError;

    fn process(&mut self, input: ()) -> (result: Result<T, RecvError>)
        ensures
            exists|reader: &mut BusReader<T>|
                mut_ref_current(reader) == old(self).reader && mut_ref_future(reader)
                    == final(self).reader && #[trigger] call_ensures(
                    BusReader::<T>::recv,
                    (reader,),
                    result,
                ),
    {
        self.reader.recv()
    }
}

/// A [`MutService`] that receives from a bus and fails at once where there
/// is nothing to read. Its classifier retries an empty bus.
#[verifier::reject_recursive_types(T)]
pub struct BusTryReceiver<T> {
    pub reader: BusReader<T>,
}

impl<T> BusTryReceiver<T> {
    pub fn new(reader: BusReader<T>) -> (service: Self)
        ensures
            service.reader == reader,
    {
        Self { reader }
    }
}

impl<T: Clone + Sync> MutService for BusTryReceiver<T> {
    type Input = ();

    type Output = T;

    type Error = TryRecvError;

    fn process(&mut self, input: ()) -> (result: Result<T, TryRecvError>)
        ensures
            exists|reader: &mut BusReader<T>|
                mut_ref_current(reader) == old(self).reader && mut_ref_future(reader)
                    == final(self).reader && #[trigger] call_ensures(
                    BusReader::<T>::try_recv,
                    (reader,),
                    result,
                ),
    {
        self.reader.try_recv()
    }
}

impl<T: Clone + Sync> Retryable<(), TryRecvError> for BusTryReceiver<T> {
    /// An empty bus is retried; a disconnected one is final.
    open spec fn retries(&self, err: TryRecvError, verdict: Result<(), RetryError<TryRecvError>>) -> bool {
        match err {
            TryRecvError::Empty => verdict is Ok,
            TryRecvError::Disconnected => verdict == Err::<(), RetryError<TryRecvError>>(
                RetryError::ServiceError(TryRecvError::Disconnected),
            ),
        }
    }

    fn parse_retry(&self, err: TryRecvError) -> (verdict: Result<(), RetryError<TryRecvError>>) {
        match err {
            TryRecvError::Disconnected => Err(RetryError::ServiceError(TryRecvError::Disconnected)),
            TryRecvError::Empty => Ok(()),
        }
    }
}

} // verus!
