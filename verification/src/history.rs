//! Whole lives of the worker: what a sequence of events makes of a phase,
//! and what holds of every such sequence.

use crate::protocol::{transition, Action, Event, Phase};
use vstd::prelude::*;

verus! {

/// The phase reached and the effects asked for, in order, when `events`
/// arrive one after the other in `phase`. `None` as soon as one of them has
/// no step.
pub open spec fn run<T>(phase: Phase, events: Seq<Event<T>>) -> Option<(Phase, Seq<Action<T>>)>
    decreases events.len(),
{
    if events.len() == 0 {
        Some((phase, Seq::empty()))
    } else {
        match run(phase, events.drop_last()) {
            Some((reached, actions)) => match transition(reached, events.last()) {
                Some((next, action)) => Some((next, actions.push(action))),
                None => None,
            },
            None => None,
        }
    }
}

/// Whether the protocol has a step for each of `events` in turn.
pub open spec fn accepts<T>(phase: Phase, events: Seq<Event<T>>) -> bool {
    run(phase, events) is Some
}

/// The phase that `events` lead to.
pub open spec fn reached<T>(phase: Phase, events: Seq<Event<T>>) -> Phase
    recommends
        accepts(phase, events),
{
    (run(phase, events)->0).0
}

/// The effects that `events` are answered with, in order.
pub open spec fn effects<T>(phase: Phase, events: Seq<Event<T>>) -> Seq<Action<T>>
    recommends
        accepts(phase, events),
{
    (run(phase, events)->0).1
}

/// The items that the queue released, in the order of their events.
pub open spec fn released<T>(events: Seq<Event<T>>) -> Seq<T>
    decreases events.len(),
{
    if events.len() == 0 {
        Seq::empty()
    } else {
        match events.last() {
            Event::Item(item) => released(events.drop_last()).push(item),
            _ => released(events.drop_last()),
        }
    }
}

/// The items handed to the writer, in the order of their effects.
pub open spec fn written<T>(actions: Seq<Action<T>>) -> Seq<T>
    decreases actions.len(),
{
    if actions.len() == 0 {
        Seq::empty()
    } else {
        match actions.last() {
            Action::Write(item) => written(actions.drop_last()).push(item),
            _ => written(actions.drop_last()),
        }
    }
}

/// The bytes that a buffered writer may still hold back after `actions`:
/// those of the items written since the last flush. `bytes` gives the
/// payload of an item.
pub open spec fn pending<T>(actions: Seq<Action<T>>, bytes: spec_fn(T) -> Seq<u8>) -> Seq<u8>
    decreases actions.len(),
{
    if actions.len() == 0 {
        Seq::empty()
    } else {
        match actions.last() {
            Action::Write(item) => pending(actions.drop_last(), bytes) + bytes(item),
            Action::Flush => Seq::empty(),
            Action::Signal => pending(actions.drop_last(), bytes),
        }
    }
}

/// The bytes that a file which was empty before `actions` holds for
/// certain after them: those of the items written before the last flush.
pub open spec fn flushed<T>(actions: Seq<Action<T>>, bytes: spec_fn(T) -> Seq<u8>) -> Seq<u8>
    decreases actions.len(),
{
    if actions.len() == 0 {
        Seq::empty()
    } else {
        match actions.last() {
            Action::Flush => flushed(actions.drop_last(), bytes) + pending(
                actions.drop_last(),
                bytes,
            ),
            _ => flushed(actions.drop_last(), bytes),
        }
    }
}

/// The events of a queue that releases `items` and nothing else.
pub open spec fn arrivals<T>(items: Seq<T>) -> Seq<Event<T>> {
    items.map_values(|item: T| Event::Item(item))
}

/// One write for each of `items`.
pub open spec fn writes<T>(items: Seq<T>) -> Seq<Action<T>> {
    items.map_values(|item: T| Action::Write(item))
}

/// The events of a whole life: the queue releases `items`, reports its end,
/// and the writer is flushed and released.
pub open spec fn lifetime<T>(items: Seq<T>) -> Seq<Event<T>> {
    arrivals(items).push(Event::EndOfStream).push(Event::Flushed)
}

/// While it drains, the worker answers each released item with one write of
/// that item, and stays draining.
pub proof fn lemma_drain<T>(items: Seq<T>)
    ensures
        run(Phase::Draining, arrivals(items)) == Some((Phase::Draining, writes(items))),
    decreases items.len(),
{
    if items.len() > 0 {
        lemma_drain(items.drop_last());
        assert(arrivals(items).drop_last() =~= arrivals(items.drop_last()));
        assert(writes(items.drop_last()).push(Action::Write(items.last())) =~= writes(items));
    } else {
        assert(writes(items) =~= Seq::empty());
    }
}

/// A whole life on `items` writes each of them once, in the order of their
/// release, then flushes, then signals, and ends in the terminal phase.
pub proof fn lemma_lifetime<T>(items: Seq<T>)
    ensures
        run(Phase::Draining, lifetime(items)) == Some(
            (Phase::Terminal, writes(items).push(Action::Flush).push(Action::Signal)),
        ),
{
    lemma_drain(items);
    let closing = arrivals(items).push(Event::EndOfStream);
    assert(closing.drop_last() =~= arrivals(items));
    assert(run(Phase::Draining, closing) == Some(
        (Phase::Closing, writes(items).push(Action::Flush)),
    ));
    assert(lifetime(items).drop_last() =~= closing);
}

/// Whatever the events and the phase they start in: if the protocol has a
/// step for each, the items handed to the writer are the items that the
/// queue released, each once and in the same order, and every event has
/// been answered by one effect.
pub proof fn lemma_written_is_released<T>(phase: Phase, events: Seq<Event<T>>)
    requires
        accepts(phase, events),
    ensures
        written(effects(phase, events)) == released(events),
        effects(phase, events).len() == events.len(),
    decreases events.len(),
{
    if events.len() > 0 {
        lemma_written_is_released(phase, events.drop_last());
        let before = effects(phase, events.drop_last());
        assert(effects(phase, events).drop_last() =~= before);
    }
}

/// The shape of every life that starts draining: items only while the
/// worker drains; after them the end of the stream, which is answered by
/// the flush and leads to closing; after that the flush's completion, which
/// is answered by the signal and leads to the terminal phase.
pub proof fn lemma_shape<T>(events: Seq<Event<T>>)
    requires
        accepts(Phase::Draining, events),
    ensures
        ({
            let actions = effects(Phase::Draining, events);
            let items = released(events);
            match reached(Phase::Draining, events) {
                Phase::Draining => events == arrivals(items) && actions == writes(items),
                Phase::Closing => {
                    &&& events == arrivals(items).push(Event::EndOfStream)
                    &&& actions == writes(items).push(Action::Flush)
                },
                Phase::Terminal => {
                    &&& events == lifetime(items)
                    &&& actions == writes(items).push(Action::Flush).push(Action::Signal)
                },
            }
        }),
    decreases events.len(),
{
    if events.len() > 0 {
        let earlier = events.drop_last();
        lemma_shape(earlier);
        assert(earlier.push(events.last()) =~= events);
        let items = released(earlier);
        match events.last() {
            Event::Item(item) => {
                assert(arrivals(items).push(Event::Item(item)) =~= arrivals(items.push(item)));
                assert(writes(items).push(Action::Write(item)) =~= writes(items.push(item)));
            },
            _ => {},
        }
    } else {
        assert(events =~= arrivals(released(events)));
        assert(writes(released(events)) =~= Seq::empty());
    }
}

/// The flush is asked for at most once in a life, and never in mid-stream:
/// in answer to the end of the stream, after a write for each released
/// item.
pub proof fn lemma_flush_once<T>(events: Seq<Event<T>>, at: int)
    requires
        accepts(Phase::Draining, events),
        0 <= at < effects(Phase::Draining, events).len(),
        effects(Phase::Draining, events)[at] is Flush,
    ensures
        ({
            let actions = effects(Phase::Draining, events);
            &&& at == released(events).len()
            &&& events[at] is EndOfStream
            &&& forall|earlier: int| 0 <= earlier < at ==> actions[earlier] is Write
        }),
{
    lemma_shape(events);
}

/// The latch is signalled at most once, as the last effect of a life: in
/// answer to the writer being flushed and released, directly after the
/// flush was asked for, which comes after every write.
pub proof fn lemma_signal_comes_last<T>(events: Seq<Event<T>>, at: int)
    requires
        accepts(Phase::Draining, events),
        0 <= at < effects(Phase::Draining, events).len(),
        effects(Phase::Draining, events)[at] is Signal,
    ensures
        ({
            let actions = effects(Phase::Draining, events);
            &&& reached(Phase::Draining, events) == Phase::Terminal
            &&& at == actions.len() - 1
            &&& events[at] is Flushed
            &&& at >= 1
            &&& actions[at - 1] is Flush
            &&& forall|earlier: int| 0 <= earlier < at - 1 ==> actions[earlier] is Write
        }),
{
    lemma_shape(events);
}

/// Once the terminal phase is reached, the protocol has no further step.
pub proof fn lemma_terminal_is_final<T>(event: Event<T>)
    ensures
        transition(Phase::Terminal, event) is None,
{
}

/// Once the queue has reported its end, the worker accepts no item: in a
/// life that starts draining, no item comes after the end of the stream.
pub proof fn lemma_no_item_after_end<T>(events: Seq<Event<T>>, end: int, later: int)
    requires
        accepts(Phase::Draining, events),
        0 <= end < later < events.len(),
        events[end] is EndOfStream,
    ensures
        !(events[later] is Item),
{
    lemma_shape(events);
}

/// Nothing is lost, doubled or cut short on the way to the writer: the
/// bytes flushed and the bytes pending are together the payloads of the
/// released items, in the order of their release.
pub proof fn lemma_nothing_lost<T>(
    phase: Phase,
    events: Seq<Event<T>>,
    bytes: spec_fn(T) -> Seq<u8>,
)
    requires
        accepts(phase, events),
    ensures
        flushed(effects(phase, events), bytes) + pending(effects(phase, events), bytes)
            == released(events).map_values(bytes).flatten(),
    decreases events.len(),
{
    let actions = effects(phase, events);
    if events.len() > 0 {
        let earlier = events.drop_last();
        lemma_nothing_lost(phase, earlier, bytes);
        assert(actions.drop_last() =~= effects(phase, earlier));
        let payloads = released(earlier).map_values(bytes);
        match events.last() {
            Event::Item(item) => {
                assert(released(events).map_values(bytes) =~= payloads.push(bytes(item)));
                payloads.lemma_flatten_push(bytes(item));
                assert(flushed(actions, bytes) + pending(actions, bytes) =~= (flushed(
                    actions.drop_last(),
                    bytes,
                ) + pending(actions.drop_last(), bytes)) + bytes(item));
            },
            _ => {
                assert(flushed(actions, bytes) + pending(actions, bytes) =~= flushed(
                    actions.drop_last(),
                    bytes,
                ) + pending(actions.drop_last(), bytes));
            },
        }
    } else {
        assert(flushed(actions, bytes) + pending(actions, bytes) =~= Seq::<u8>::empty());
        assert(released(events).map_values(bytes) =~= Seq::<Seq<u8>>::empty());
    }
}

/// Once the flush has been asked for, and so when the latch is signalled,
/// the file holds the payloads of all the released items, in the order of
/// their release, and the writer holds nothing back.
pub proof fn lemma_file_content<T>(events: Seq<Event<T>>, bytes: spec_fn(T) -> Seq<u8>)
    requires
        accepts(Phase::Draining, events),
        reached(Phase::Draining, events) != Phase::Draining,
    ensures
        flushed(effects(Phase::Draining, events), bytes) == released(events).map_values(
            bytes,
        ).flatten(),
        pending(effects(Phase::Draining, events), bytes) == Seq::<u8>::empty(),
{
    lemma_nothing_lost(Phase::Draining, events, bytes);
    lemma_shape(events);
    let actions = effects(Phase::Draining, events);
    let closing = writes(released(events)).push(Action::Flush);
    assert(closing.last() is Flush);
    if reached(Phase::Draining, events) == Phase::Terminal {
        assert(actions == closing.push(Action::Signal));
        assert(actions.drop_last() =~= closing);
        assert(pending(closing, bytes) =~= Seq::<u8>::empty());
    } else {
        assert(actions == closing);
    }
    assert(pending(actions, bytes) =~= Seq::<u8>::empty());
    assert(flushed(actions, bytes) + Seq::<u8>::empty() =~= flushed(actions, bytes));
}

} // verus!
