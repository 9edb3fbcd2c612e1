//! The collector and its worker: the two sides of one queue and one latch.
//!
//! The collector stays with the owner. It hands out sending handles and, at
//! the end, waits on the latch. The worker goes to a thread of its own. It
//! takes what the queue releases, says what the writer is to do with it,
//! and signals the latch once the writer has been flushed and released.
//! Every decision of the worker is a step of the protocol.

use crate::history::{accepts, effects, reached};
use crate::protocol::{step, Action, Event, Phase};
use crate::queue::{release_receiver, release_sender, MAX_CAPACITY};
use core::ops::Deref;
use crossbeam_channel::{bounded, Receiver, RecvError, Sender};
use crossbeam_utils::sync::{Parker, Unparker};
use vstd::pervasive::unreached;
use vstd::prelude::*;

verus! {

/// The owner's side: hands out sending handles and waits for the worker.
#[verifier::reject_recursive_types(T)]
pub struct FileCollector<T: Copy + Send> {
    tx: Sender<T>,
    lock: Parker,
}

/// The worker's side: the receiving end of the queue, the signalling side
/// of the latch, and the phase that the worker has reached.
#[verifier::reject_recursive_types(T)]
pub struct Worker<T: Copy + Send> {
    rx: Receiver<T>,
    signal: Unparker,
    phase: Phase,
    log: Ghost<Seq<Event<T>>>,
}

/// The event that an answer of the queue stands for: the item that it
/// released, or the end of the stream where it is empty and every sending
/// handle is gone.
pub fn event_of<T>(received: Result<T, RecvError>) -> (event: Event<T>)
    ensures
        event == match received {
            Ok(item) => Event::Item(item),
            Err(_) => Event::EndOfStream,
        },
{
    match received {
        Ok(item) => Event::Item(item),
        Err(_) => Event::EndOfStream,
    }
}

impl<T: 'static + Copy + Send + Deref<Target = [u8]>> Worker<T> {
    /// The phase that the worker has reached.
    pub closed spec fn spec_phase(&self) -> Phase {
        self.phase
    }

    /// The events that the worker has taken so far, oldest first.
    pub closed spec fn log(&self) -> Seq<Event<T>> {
        self.log@
    }

    /// What the worker has asked for so far, oldest first: the protocol's
    /// answers to its events.
    pub open spec fn asked(&self) -> Seq<Action<T>> {
        effects(Phase::Draining, self.log())
    }

    /// The worker's phase is the one that its events lead to.
    pub open spec fn wf(&self) -> bool {
        &&& accepts(Phase::Draining, self.log())
        &&& reached(Phase::Draining, self.log()) == self.phase()
    }

    /// The phase that the worker has reached.
    #[verifier::when_used_as_spec(spec_phase)]
    pub fn phase(&self) -> (phase: Phase)
        ensures
            phase == self.phase(),
    {
        self.phase
    }

    /// Waits for the queue and says what the writer is to do with what
    /// came: write the item that was released, or flush and release itself
    /// once the queue has reported its end. Blocks while the queue is empty
    /// and a sending handle is alive.
    pub fn next(&mut self) -> (action: Action<T>)
        requires
            old(self).wf(),
            old(self).phase() == Phase::Draining,
        ensures
            final(self).wf(),
            final(self).asked() == old(self).asked().push(action),
            match action {
                Action::Write(item) => {
                    &&& final(self).phase() == Phase::Draining
                    &&& final(self).log() == old(self).log().push(Event::Item(item))
                },
                Action::Flush => {
                    &&& final(self).phase() == Phase::Closing
                    &&& final(self).log() == old(self).log().push(Event::EndOfStream)
                },
                Action::Signal => false,
            },
    {
        let event = event_of(self.rx.recv());
        let ghost taken = self.log@.push(event);
        proof {
            assert(taken.drop_last() =~= self.log@);
        }
        match step(self.phase, event) {
            Some((phase, action)) => {
                self.phase = phase;
                self.log = Ghost(taken);
                action
            },
            None => unreached(),
        }
    }

    /// Takes note that the writer has been flushed and released, releases
    /// the receiving end of the queue and signals the latch. The worker is
    /// used up: the latch is signalled once.
    pub fn complete(self)
        requires
            self.wf(),
            self.phase() == Phase::Closing,
    {
        let Worker { rx, signal, phase, log: _ } = self;
        match step::<T>(phase, Event::Flushed) {
            Some((_, Action::Signal)) => {
                release_receiver(rx);
                signal.unpark();
            },
            _ => unreached(),
        }
    }
}

impl<T: 'static + Copy + Send + Deref<Target = [u8]>> FileCollector<T> {
    /// The collector's own sending end, which stands for its queue: a
    /// sending end is equal to this one where it belongs to the same queue.
    pub closed spec fn sender(&self) -> Sender<T> {
        self.tx
    }

    /// Opens a queue of capacity `buffer` and a latch, and hands out the
    /// collector together with the worker that serves it. The worker starts
    /// draining, with no event taken.
    pub fn new(buffer: usize) -> (pair: (FileCollector<T>, Worker<T>))
        requires
            buffer <= MAX_CAPACITY,
        ensures
            pair.1.wf(),
            pair.1.phase() == Phase::Draining,
            pair.1.log() == Seq::<Event<T>>::empty(),
    {
        let (tx, rx) = bounded::<T>(buffer);
        let lock = Parker::new();
        let signal = lock.unparker().clone();
        (
            FileCollector { tx, lock },
            Worker { rx, signal, phase: Phase::Draining, log: Ghost(Seq::empty()) },
        )
    }

    /// A new sending handle on the collector's queue. Handles may be cloned
    /// and given to any number of producers; the queue reports its end only
    /// when all of them, and the collector's own, are gone.
    pub fn sink(&self) -> (handle: Sender<T>)
        ensures
            handle == self.sender(),
    {
        self.tx.clone()
    }

    /// Gives up the collector's own sending handle and waits for the
    /// worker's signal. Blocks for as long as a sending handle is alive
    /// somewhere, or the worker has not completed.
    pub fn finish(self) {
        let FileCollector { tx, lock } = self;
        release_sender(tx);
        lock.park();
    }
}

} // verus!
