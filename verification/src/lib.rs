//! An ordered, line-oriented output multiplexer.
//!
//! Producers enqueue text lines destined for two independent sinks
//! (primary and secondary output). Each sink has its own unbounded FIFO
//! queue and its own consumer, so lines reach a sink in the order they
//! were enqueued for it, and closing the channel drains everything that
//! was queued before the close.

pub mod buffer;
pub mod channel;
pub mod laws;
pub mod message;
pub mod mock;
pub mod model;
pub mod queue;

pub use buffer::Buffer;
pub use buffer::MAX_BUFFER_CAPACITY;
pub use channel::Sink;
pub use channel::StdoutChannel;
pub use channel::StdoutError;
pub use message::StdoutMessage;
pub use mock::MockStdout;
