//! The bounded queue between the producers and the worker, as
//! `crossbeam_channel` provides it.
//!
//! A queue is shared between threads: what it holds at a given moment is no
//! function of a handle on it. So the declarations below promise nothing of
//! the items that come out of a queue, nor of whether a call finds it open.
//! They say on which inputs the calls are made.

use crossbeam_channel::{Receiver, RecvError, Sender};
use vstd::prelude::*;

verus! {

/// The sending end of a queue: `crossbeam_channel::Sender`.
#[verifier::external_type_specification]
#[verifier::external_body]
#[verifier::reject_recursive_types(T)]
pub struct ExSender<T>(Sender<T>);

/// The receiving end of a queue: `crossbeam_channel::Receiver`.
#[verifier::external_type_specification]
#[verifier::external_body]
#[verifier::reject_recursive_types(T)]
pub struct ExReceiver<T>(Receiver<T>);

/// The error of `Receiver::recv`: `crossbeam_channel::RecvError`. It holds
/// nothing.
#[verifier::external_type_specification]
#[verifier::external_body]
pub struct ExRecvError(RecvError);

/// The largest capacity that a queue is opened with.
///
/// `crossbeam_channel::bounded` packs a lap count above the slot index into
/// one word of at least the width of `usize`, and panics where twice the
/// next power of two above the capacity does not fit in it. Up to a quarter
/// of `usize::MAX` it fits on every target.
pub const MAX_CAPACITY: usize = usize::MAX / 4;

/// `crossbeam_channel::bounded`: opens a queue that holds at most `cap`
/// items at a time and hands out its two ends; with `cap` zero, an item
/// passes only while a receiver waits for it.
///
/// Trusted: that the call does not panic for a capacity up to
/// [`MAX_CAPACITY`]. Nothing is promised of the two ends. Memory that the
/// machine cannot provide is not modelled, as for any allocation.
pub assume_specification<T>[ crossbeam_channel::bounded::<T> ](cap: usize) -> (ends: (
    Sender<T>,
    Receiver<T>,
))
    requires
        cap <= MAX_CAPACITY,
;

/// `Receiver::recv`: blocks until the queue releases its oldest item, or
/// until it is empty with every sender gone, which is the error.
///
/// Trusted: nothing of the result. Which of the two comes back, and when,
/// depends on the other threads.
pub assume_specification<T>[ Receiver::<T>::recv ](rx: &Receiver<T>) -> (received: Result<
    T,
    RecvError,
>)
;

/// `Sender::clone`: one more sending end of the same queue. The queue
/// counts one sender more, and the copy is built from the very pointer to
/// the queue that the original holds, in the same variant.
///
/// Trusted: that the copy is, as a value, the original: a sending end is
/// nothing but its queue, so two ends are equal where they belong to one
/// queue. Nothing is promised of what the queue holds.
pub assume_specification<T>[ <Sender<T> as Clone>::clone ](tx: &Sender<T>) -> (copy: Sender<T>)
    ensures
        copy == *tx,
;

/// Gives up a sending end, by `Sender`'s `Drop`: the queue counts one
/// sender less, and once the last one is gone and the queue is empty it
/// reports its end to the receiver.
///
/// Trusted: that the call returns.
#[verifier::external_body]
pub(crate) fn release_sender<T>(tx: Sender<T>) {
    drop(tx)
}

/// Gives up a receiving end, by `Receiver`'s `Drop`: once the last one is
/// gone, sending fails.
///
/// Trusted: that the call returns.
#[verifier::external_body]
pub(crate) fn release_receiver<T>(rx: Receiver<T>) {
    drop(rx)
}

} // verus!
