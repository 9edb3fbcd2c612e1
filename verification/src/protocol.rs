//! The worker's protocol: a state machine from phase and event to the next
//! phase and the effect that the step asks for.

use vstd::prelude::*;

verus! {

/// Where the worker stands in its life.
#[derive(Clone, Copy, PartialEq, Eq, Debug, Structural)]
pub enum Phase {
    /// Items are taken from the queue and written as they come.
    Draining,
    /// The queue has reported its end; the writer is being flushed and
    /// released.
    Closing,
    /// The latch has been signalled. Nothing happens after that.
    Terminal,
}

/// What happened since the worker's last step.
#[derive(PartialEq, Eq, Debug)]
pub enum Event<T> {
    /// The queue released an item.
    Item(T),
    /// The queue is empty and every sending handle is gone.
    EndOfStream,
    /// The writer has been flushed and released.
    Flushed,
}

/// The effect that a step asks for.
#[derive(PartialEq, Eq, Debug)]
pub enum Action<T> {
    /// Append the item's bytes to the writer.
    Write(T),
    /// Flush the writer and release it.
    Flush,
    /// Signal the completion latch.
    Signal,
}

/// The transition relation. `None` means that the protocol has no step for
/// `event` in `phase`.
pub open spec fn transition<T>(phase: Phase, event: Event<T>) -> Option<(Phase, Action<T>)> {
    match (phase, event) {
        (Phase::Draining, Event::Item(item)) => Some((Phase::Draining, Action::Write(item))),
        (Phase::Draining, Event::EndOfStream) => Some((Phase::Closing, Action::Flush)),
        (Phase::Closing, Event::Flushed) => Some((Phase::Terminal, Action::Signal)),
        _ => None,
    }
}

/// One step of the worker.
pub fn step<T>(phase: Phase, event: Event<T>) -> (next: Option<(Phase, Action<T>)>)
    ensures
        next == transition(phase, event),
{
    match phase {
        Phase::Draining => match event {
            Event::Item(item) => Some((Phase::Draining, Action::Write(item))),
            Event::EndOfStream => Some((Phase::Closing, Action::Flush)),
            Event::Flushed => None,
        },
        Phase::Closing => match event {
            Event::Flushed => Some((Phase::Terminal, Action::Signal)),
            _ => None,
        },
        Phase::Terminal => None,
    }
}

} // verus!
