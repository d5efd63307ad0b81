//! Shared state and message passing between tasks.
//!
//! Both rest on std: the lock is `std::sync::Mutex` behind an `Arc`, the
//! channel is `std::sync::mpsc`. Neither can be seen into from here, so the
//! contracts say what is done with whatever they hand back.

use vstd::prelude::*;
use vstd::string::StringExecFns;
use std::sync::mpsc::{Receiver, Sender};
use std::sync::{Arc, Mutex as StdMutex, MutexGuard, PoisonError};
use std::time::Instant;
use crate::error::{RocketError, RocketResult};

verus! {

/// std's lock. Nothing of what it holds is visible here.
#[verifier::external_type_specification]
#[verifier::external_body]
#[verifier::reject_recursive_types(T)]
pub struct ExStdMutex<T: ?Sized>(StdMutex<T>);

/// The guard of a held lock: the lock is released when it is dropped.
#[verifier::external_type_specification]
#[verifier::external_body]
#[verifier::reject_recursive_types(T)]
pub struct ExMutexGuard<'a, T: ?Sized + 'a>(MutexGuard<'a, T>);

/// What `lock` returns in place of the guard after a holder has panicked.
#[verifier::external_type_specification]
#[verifier::external_body]
#[verifier::reject_recursive_types(T)]
pub struct ExPoisonError<T>(PoisonError<T>);

/// The sending end of a std channel.
#[verifier::external_type_specification]
#[verifier::external_body]
#[verifier::reject_recursive_types(T)]
pub struct ExSender<T>(Sender<T>);

/// The receiving end of a std channel.
#[verifier::external_type_specification]
#[verifier::external_body]
#[verifier::reject_recursive_types(T)]
pub struct ExReceiver<T>(Receiver<T>);

/// A reading of the monotonic clock.
#[verifier::external_type_specification]
#[verifier::external_body]
pub struct ExInstant(Instant);

/// `Mutex::new` wraps a value in a fresh, unlocked lock. Nothing is claimed
/// of the lock itself.
pub assume_specification<T>[ StdMutex::<T>::new ](t: T) -> (m: StdMutex<T>)
;

/// `Mutex::lock` blocks until the lock is free and returns its guard, inside
/// `Err` where an earlier holder panicked. Nothing is claimed of which it is.
/// It does not return while the calling thread itself still holds the lock.
pub assume_specification<'a, T: ?Sized>[ StdMutex::<T>::lock ](m: &'a StdMutex<T>) -> (r: Result<
    MutexGuard<'a, T>,
    PoisonError<MutexGuard<'a, T>>,
>)
;

/// `PoisonError::into_inner` hands out the guard that the error carries.
pub assume_specification<T>[ PoisonError::<T>::into_inner ](e: PoisonError<T>) -> (guard: T)
;

/// `mpsc::channel` makes an unbounded channel and returns its two ends.
pub assume_specification<T>[ std::sync::mpsc::channel::<T> ]() -> (ends: (Sender<T>, Receiver<T>))
;

/// `Instant::now` reads the monotonic clock. Nothing is claimed of the
/// reading.
pub assume_specification[ Instant::now ]() -> (now: Instant)
;

/// `Arc::clone` makes another pointer to the same lock.
#[verifier::external_body]
fn share_lock<T: ?Sized>(lock: &Arc<StdMutex<T>>) -> (r: Arc<StdMutex<T>>)
    ensures
        r == *lock,
{
    Arc::clone(lock)
}

/// `DerefMut::deref_mut` on a guard: the value that the held lock protects.
/// Nothing is claimed of what it holds, since any holder may have changed it.
#[verifier::external_body]
pub(crate) fn guard_mut<'a, 'b, T: ?Sized>(guard: &'a mut MutexGuard<'b, T>) -> (r: &'a mut T) {
    &mut **guard
}

/// An exclusive-access handle: a value behind a lock, shared by cloning the
/// handle. At most one holder has the value at any time.
#[derive(Debug)]
#[verifier::reject_recursive_types(T)]
pub struct Mutex<T: ?Sized>(Arc<StdMutex<T>>);

impl<T> Mutex<T> {
    pub fn new(data: T) -> (r: Self) {
        Mutex(Arc::new(StdMutex::new(data)))
    }
}

impl<T: ?Sized> Clone for Mutex<T> {
    /// Another handle to the same value.
    fn clone(&self) -> (r: Self)
        ensures
            r == *self,
    {
        Mutex(share_lock(&self.0))
    }
}

impl<T: ?Sized> Mutex<T> {
    /// Waits for the value and takes it. A holder that panicked leaves the
    /// value as it was at that moment; it is handed out all the same, so this
    /// never fails. A thread that still holds the guard of this lock must
    /// not ask for it again: the wait would not end.
    pub fn lock(&self) -> (r: RocketResult<MutexGuard<'_, T>>)
        ensures
            r is Ok,
    {
        Ok(self.acquire())
    }

    /// Waits for the value and takes it, whatever became of the last holder.
    pub(crate) fn acquire(&self) -> MutexGuard<'_, T> {
        match self.0.lock() {
            Ok(guard) => guard,
            Err(poisoned) => poisoned.into_inner(),
        }
    }
}

/// The current reading of the monotonic clock.
pub fn get_time() -> Instant {
    Instant::now()
}

/// What one attempt to take a value from a channel found.
pub enum Polled<T> {
    /// A value was waiting.
    Value(T),
    /// Nothing was waiting, and a sender is still there.
    Empty,
    /// Nothing was waiting, and every sender is gone.
    Disconnected,
}

/// `Sender::send` queues a value, or fails where the receiver is gone. On
/// failure this returns the text that the error displays.
#[verifier::external_body]
fn send_on<T>(tx: &Sender<T>, data: T) -> (r: Result<(), String>) {
    match tx.send(data) {
        Ok(()) => Ok(()),
        Err(e) => Err(e.to_string()),
    }
}

/// `Receiver::recv` blocks for the next value, or fails where every sender
/// is gone and nothing is queued. On failure this returns the text that the
/// error displays.
#[verifier::external_body]
fn recv_on<T>(rx: &Receiver<T>) -> (r: Result<T, String>) {
    match rx.recv() {
        Ok(v) => Ok(v),
        Err(e) => Err(e.to_string()),
    }
}

/// `Receiver::try_recv` takes a value if one is queued and never blocks;
/// its two errors tell an empty channel from a disconnected one.
#[verifier::external_body]
fn poll_on<T>(rx: &Receiver<T>) -> (r: Polled<T>) {
    match rx.try_recv() {
        Ok(v) => Polled::Value(v),
        Err(std::sync::mpsc::TryRecvError::Empty) => Polled::Empty,
        Err(std::sync::mpsc::TryRecvError::Disconnected) => Polled::Disconnected,
    }
}

/// `Sender::clone` makes another sending end of the same channel.
#[verifier::external_body]
fn share_sender<T>(tx: &Sender<T>) -> (r: Sender<T>) {
    tx.clone()
}

/// An unbounded first-in-first-out channel, before its ends are parted.
#[verifier::reject_recursive_types(T)]
pub struct Channel<T> {
    tx: Sender<T>,
    rx: Receiver<T>,
}

/// The sending end of a channel.
#[verifier::reject_recursive_types(T)]
pub struct ChannelSender<T> {
    tx: Sender<T>,
}

/// The receiving end of a channel.
#[verifier::reject_recursive_types(T)]
pub struct ChannelReceiver<T> {
    rx: Receiver<T>,
}

impl<T> Channel<T> {
    pub fn new() -> (r: Self) {
        let (tx, rx) = std::sync::mpsc::channel();
        Channel { tx, rx }
    }

    /// The sending end of this channel.
    pub closed spec fn sender(self) -> Sender<T> {
        self.tx
    }

    /// The receiving end of this channel.
    pub closed spec fn receiver(self) -> Receiver<T> {
        self.rx
    }

    /// Parts the channel into its two ends.
    pub fn split(self) -> (ends: (ChannelSender<T>, ChannelReceiver<T>))
        ensures
            ends.0.end() == self.sender(),
            ends.1.end() == self.receiver(),
    {
        (ChannelSender { tx: self.tx }, ChannelReceiver { rx: self.rx })
    }
}

impl<T> Clone for ChannelSender<T> {
    /// Another sender into the same channel.
    fn clone(&self) -> (r: Self) {
        ChannelSender { tx: share_sender(&self.tx) }
    }
}

/// The fault for a send that found the receiver gone, given the text that
/// the channel's own error displays.
pub open spec fn send_fault(detail: Seq<char>) -> Seq<char> {
    "Channel send error: "@ + detail
}

/// The fault for a blocking receive that found every sender gone, given the
/// text that the channel's own error displays.
pub open spec fn recv_fault(detail: Seq<char>) -> Seq<char> {
    "Channel receive error: "@ + detail
}

impl<T> ChannelSender<T> {
    /// The channel end that this sender holds.
    pub closed spec fn end(self) -> Sender<T> {
        self.tx
    }

    /// What `send` returns for each thing the channel can answer: success as
    /// it is, a failure as a runtime fault that quotes the channel's text.
    pub fn send_outcome(sent: Result<(), String>) -> (r: RocketResult<()>)
        ensures
            match sent {
                Ok(()) => r is Ok,
                Err(detail) => r matches Err(RocketError::Kernel(text)) && text@ == send_fault(
                    detail@,
                ),
            },
    {
        match sent {
            Ok(()) => Ok(()),
            Err(detail) => Err(
                RocketError::Kernel(
                    String::from_str("Channel send error: ").concat(detail.as_str()),
                ),
            ),
        }
    }

    /// Queues `data` for the receiver. Fails only where the receiver is
    /// gone, with a runtime fault.
    pub fn send(&self, data: T) -> (r: RocketResult<()>)
        ensures
            r matches Err(e) ==> e matches RocketError::Kernel(text) && exists|detail: Seq<char>|
                text@ == #[trigger] send_fault(detail),
    {
        Self::send_outcome(send_on(&self.tx, data))
    }
}

impl<T> ChannelReceiver<T> {
    /// The channel end that this receiver holds.
    pub closed spec fn end(self) -> Receiver<T> {
        self.rx
    }

    /// What `recv` returns for each thing the channel can answer: the value
    /// as it is, a failure as a runtime fault that quotes the channel's text.
    pub fn recv_outcome(received: Result<T, String>) -> (r: RocketResult<T>)
        ensures
            match received {
                Ok(value) => r == Ok::<T, RocketError>(value),
                Err(detail) => r matches Err(RocketError::Kernel(text)) && text@ == recv_fault(
                    detail@,
                ),
            },
    {
        match received {
            Ok(value) => Ok(value),
            Err(detail) => Err(
                RocketError::Kernel(
                    String::from_str("Channel receive error: ").concat(detail.as_str()),
                ),
            ),
        }
    }

    /// What `try_recv` returns for each thing one attempt can find.
    pub fn poll_outcome(polled: Polled<T>) -> (r: Result<Option<T>, RocketError>)
        ensures
            match polled {
                Polled::Value(value) => r == Ok::<Option<T>, RocketError>(Some(value)),
                Polled::Empty => r == Ok::<Option<T>, RocketError>(None),
                Polled::Disconnected => r matches Err(RocketError::Kernel(text)) && text@
                    == "Channel disconnected"@,
            },
    {
        match polled {
            Polled::Value(value) => Ok(Some(value)),
            Polled::Empty => Ok(None),
            Polled::Disconnected => Err(
                RocketError::Kernel(String::from_str("Channel disconnected")),
            ),
        }
    }

    /// Waits for the next value. Fails only where every sender is gone and
    /// nothing is left in the queue, with a runtime fault.
    pub fn recv(&self) -> (r: RocketResult<T>)
        ensures
            r matches Err(e) ==> e matches RocketError::Kernel(text) && exists|detail: Seq<char>|
                text@ == #[trigger] recv_fault(detail),
    {
        Self::recv_outcome(recv_on(&self.rx))
    }

    /// Takes the next value if one is waiting, without blocking: `None`
    /// where the queue is empty, a runtime fault where it is empty and every
    /// sender is gone.
    pub fn try_recv(&self) -> (r: Result<Option<T>, RocketError>)
        ensures
            r matches Err(e) ==> e matches RocketError::Kernel(text) && text@
                == "Channel disconnected"@,
    {
        Self::poll_outcome(poll_on(&self.rx))
    }
}

} // verus!
