use std::ops::Deref;
use std::sync::Mutex;

use crossbeam_channel::{RecvError, SendError, TrySendError};
use crossbeam_utils::thread::scope;
use file_collector::collector::event_of;
use file_collector::{Action, Event, FileCollector, Phase, Worker, MAX_CAPACITY};

/// Runs a worker to its end on a buffered writer over `file`, a file in
/// memory: what is written is held back until the flush.
fn serve<T>(mut worker: Worker<T>, file: &Mutex<Vec<u8>>)
where
    T: 'static + Copy + Send + Deref<Target = [u8]>,
{
    let mut pending = Vec::new();
    while worker.phase() == Phase::Draining {
        match worker.next() {
            Action::Write(item) => pending.extend_from_slice(&item),
            Action::Flush => file.lock().unwrap().append(&mut pending),
            Action::Signal => panic!("a draining worker asked for the signal"),
        }
    }
    assert_eq!(worker.phase(), Phase::Closing);
    worker.complete();
}

fn content(file: &Mutex<Vec<u8>>) -> Vec<u8> {
    file.lock().unwrap().clone()
}

/// A chunk of fixed size: the producer's mark and a running number.
#[derive(Clone, Copy)]
struct Chunk([u8; 8]);

impl Deref for Chunk {
    type Target = [u8];

    fn deref(&self) -> &[u8] {
        &self.0
    }
}

fn chunk(producer: u8, number: u32) -> Chunk {
    let n = number.to_be_bytes();
    Chunk([producer, b'#', 0, 0, n[0], n[1], n[2], n[3]])
}

#[test]
fn an_answer_of_the_queue_is_an_item_or_the_end() {
    let chunk: &[u8] = b"foobar";
    assert_eq!(event_of(Ok(chunk)), Event::Item(chunk));
    assert_eq!(event_of::<&[u8]>(Err(RecvError)), Event::EndOfStream);
}

#[test]
fn basic() {
    let file = Mutex::new(Vec::new());
    let (collector, worker): (FileCollector<&[u8]>, _) = FileCollector::new(1024);
    scope(|s| {
        s.spawn(|_| serve(worker, &file));
        let sink = collector.sink();
        sink.send(b"foobar").unwrap();
        drop(sink);
        collector.finish();
        assert_eq!(b"foobar", &content(&file)[..]);
    })
    .unwrap();
}

#[test]
fn items_of_one_producer_are_written_in_order() {
    let file = Mutex::new(Vec::new());
    let (collector, worker): (FileCollector<&[u8]>, _) = FileCollector::new(8);
    let sink = collector.sink();
    sink.send(b"one ").unwrap();
    sink.send(b"").unwrap();
    sink.send(b"two ").unwrap();
    sink.send(b"three").unwrap();
    drop(sink);
    drop(collector);
    serve(worker, &file);
    assert_eq!(content(&file), b"one two three".to_vec());
}

#[test]
fn no_items_give_an_empty_file() {
    let file = Mutex::new(Vec::new());
    let (collector, worker): (FileCollector<&[u8]>, _) = FileCollector::new(4);
    scope(|s| {
        s.spawn(|_| serve(worker, &file));
        collector.finish();
        assert_eq!(content(&file), Vec::<u8>::new());
    })
    .unwrap();
}

#[test]
fn worker_starts_draining_and_ends_closing() {
    let (collector, mut worker): (FileCollector<&[u8]>, _) = FileCollector::new(2);
    assert_eq!(worker.phase(), Phase::Draining);
    let sink = collector.sink();
    sink.send(b"ab").unwrap();
    assert_eq!(worker.next(), Action::Write(&b"ab"[..]));
    assert_eq!(worker.phase(), Phase::Draining);
    sink.send(b"cd").unwrap();
    drop(sink);
    assert_eq!(worker.next(), Action::Write(&b"cd"[..]));
    assert_eq!(worker.phase(), Phase::Draining);
    drop(collector);
    assert_eq!(worker.next(), Action::Flush);
    assert_eq!(worker.phase(), Phase::Closing);
    worker.complete();
}

#[test]
fn the_queue_stays_open_while_the_collector_holds_its_own_handle() {
    let (collector, mut worker): (FileCollector<&[u8]>, _) = FileCollector::new(2);
    let sink = collector.sink();
    sink.send(b"x").unwrap();
    drop(sink);
    assert_eq!(worker.next(), Action::Write(&b"x"[..]));
    let late = collector.sink();
    late.send(b"y").unwrap();
    drop(late);
    assert_eq!(worker.next(), Action::Write(&b"y"[..]));
    scope(|s| {
        s.spawn(move |_| {
            assert_eq!(worker.next(), Action::Flush);
            worker.complete();
        });
        collector.finish();
    })
    .unwrap();
}

#[test]
fn finish_returns_with_everything_flushed() {
    let file = Mutex::new(Vec::new());
    let (collector, worker): (FileCollector<&[u8]>, _) = FileCollector::new(4);
    collector.sink().send(b"xyz").unwrap();
    let sink = collector.sink();
    sink.send(b"!").unwrap();
    drop(sink);
    scope(|s| {
        s.spawn(|_| serve(worker, &file));
        collector.finish();
        assert_eq!(content(&file), b"xyz!".to_vec());
    })
    .unwrap();
}

#[test]
fn sending_after_the_receiving_end_is_gone_fails() {
    let (collector, worker): (FileCollector<&[u8]>, _) = FileCollector::new(4);
    let sink = collector.sink();
    sink.send(b"early").unwrap();
    drop(worker);
    assert_eq!(sink.send(b"late"), Err(SendError(&b"late"[..])));
    assert_eq!(collector.sink().send(b"later"), Err(SendError(&b"later"[..])));
}

#[test]
fn a_full_queue_takes_no_more_until_the_worker_takes_one() {
    let file = Mutex::new(Vec::new());
    let (collector, mut worker): (FileCollector<&[u8]>, _) = FileCollector::new(2);
    let sink = collector.sink();
    assert_eq!(sink.capacity(), Some(2));
    assert_eq!(sink.try_send(b"a"), Ok(()));
    assert_eq!(sink.try_send(b"b"), Ok(()));
    assert!(sink.is_full());
    assert_eq!(sink.try_send(b"c"), Err(TrySendError::Full(&b"c"[..])));
    assert_eq!(worker.next(), Action::Write(&b"a"[..]));
    assert_eq!(sink.try_send(b"c"), Ok(()));
    assert_eq!(sink.try_send(b"d"), Err(TrySendError::Full(&b"d"[..])));
    drop(sink);
    drop(collector);
    serve(worker, &file);
    assert_eq!(content(&file), b"bc".to_vec());
}

#[test]
fn a_blocked_producer_goes_on_when_the_worker_drains() {
    let file = Mutex::new(Vec::new());
    let (collector, worker): (FileCollector<Chunk>, _) = FileCollector::new(1);
    let sink = collector.sink();
    scope(|s| {
        let producer = s.spawn(move |_| {
            for number in 0..100 {
                sink.send(chunk(1, number)).unwrap();
            }
        });
        s.spawn(|_| serve(worker, &file));
        producer.join().unwrap();
        collector.finish();
        let mut expected = Vec::new();
        for number in 0..100 {
            expected.extend_from_slice(&chunk(1, number));
        }
        assert_eq!(content(&file), expected);
    })
    .unwrap();
}

#[test]
fn a_queue_without_room_hands_items_over_one_by_one() {
    let file = Mutex::new(Vec::new());
    let (collector, worker): (FileCollector<Chunk>, _) = FileCollector::new(0);
    let sink = collector.sink();
    assert_eq!(sink.capacity(), Some(0));
    scope(|s| {
        let producer = s.spawn(move |_| {
            for number in 0..10 {
                sink.send(chunk(3, number)).unwrap();
            }
        });
        s.spawn(|_| serve(worker, &file));
        producer.join().unwrap();
        collector.finish();
        let mut expected = Vec::new();
        for number in 0..10 {
            expected.extend_from_slice(&chunk(3, number));
        }
        assert_eq!(content(&file), expected);
    })
    .unwrap();
}

#[test]
fn two_producers_lose_and_corrupt_nothing() {
    let file = Mutex::new(Vec::new());
    let (collector, worker): (FileCollector<Chunk>, _) = FileCollector::new(16);
    let first = collector.sink();
    let second = collector.sink();
    scope(|s| {
        s.spawn(|_| serve(worker, &file));
        let a = s.spawn(move |_| {
            for number in 0..1000 {
                first.send(chunk(b'a', number)).unwrap();
            }
        });
        let b = s.spawn(move |_| {
            for number in 0..1000 {
                second.send(chunk(b'b', number)).unwrap();
            }
        });
        a.join().unwrap();
        b.join().unwrap();
        collector.finish();
        let written = content(&file);
        assert_eq!(written.len(), 2000 * 8);
        let mut next_of_a = 0u32;
        let mut next_of_b = 0u32;
        for got in written.chunks(8) {
            if got[0] == b'a' {
                assert_eq!(got, &chunk(b'a', next_of_a)[..]);
                next_of_a += 1;
            } else {
                assert_eq!(got, &chunk(b'b', next_of_b)[..]);
                next_of_b += 1;
            }
        }
        assert_eq!((next_of_a, next_of_b), (1000, 1000));
    })
    .unwrap();
}

#[test]
fn every_sink_is_bound_to_the_same_queue() {
    let file = Mutex::new(Vec::new());
    let (collector, worker): (FileCollector<&[u8]>, _) = FileCollector::new(4);
    let first = collector.sink();
    let second = collector.sink();
    assert!(first.same_channel(&second));
    second.send(b"2").unwrap();
    first.send(b"1").unwrap();
    drop(first);
    drop(second);
    drop(collector);
    serve(worker, &file);
    assert_eq!(content(&file), b"21".to_vec());
}

#[test]
fn collectors_do_not_share_a_queue() {
    let (one, _worker_one): (FileCollector<&[u8]>, _) = FileCollector::new(4);
    let (other, _worker_other): (FileCollector<&[u8]>, _) = FileCollector::new(4);
    assert!(!one.sink().same_channel(&other.sink()));
}

#[test]
fn largest_capacity_is_a_quarter_of_the_address_range() {
    assert_eq!(MAX_CAPACITY, usize::MAX / 4);
}
