//! A small in-process pipeline runtime: sources, transforms and sinks run as
//! independent loops connected by bounded mailboxes (tokio mpsc channels), with
//! a dispatcher that fans each stage's output batches out to its downstream
//! destinations either round-robin (with automatic eviction of dead
//! destinations) or by broadcast.

pub mod behaviors;

pub use behaviors::consumer::Consumer;
pub use behaviors::consumer::ConsumerRunnable;
pub use behaviors::consumer::State;
pub use behaviors::producer::Producer;
pub use behaviors::producer::ProducerRunnable;
pub use behaviors::producer_consumer::ProducerConsumer;
pub use behaviors::producer_consumer::ProducerConsumerRunnable;
pub use behaviors::CycleOutcome;
pub use behaviors::DestinationDown;
pub use behaviors::Dispatcher;
pub use behaviors::DispatcherType;
pub use behaviors::Status;
