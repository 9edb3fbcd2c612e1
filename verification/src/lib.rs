//! A bounded hand-off of byte-bearing items from many producers to one
//! worker that appends them to a file in the order the queue releases them.
//!
//! The library holds the worker's protocol and the wiring of the queue and
//! of the completion latch. Opening the file, writing to it and running the
//! worker on a thread of its own are left to the program around it.

pub mod collector;
pub mod history;
pub mod latch;
pub mod protocol;
pub mod queue;

pub use collector::{FileCollector, Worker};
pub use protocol::{Action, Event, Phase};
pub use queue::MAX_CAPACITY;
