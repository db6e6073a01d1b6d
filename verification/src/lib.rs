//! A disruptor: a ring of pre-allocated event slots through which producers
//! hand events to stages of consumers, coordinated by sequence counters.
mod barrier;
mod builder;
pub mod processor;
pub mod producer;
pub mod handling;
pub mod observation;
pub mod ringbuffer;
pub mod sequence;
pub mod sequencer;
pub mod traits;
pub mod utils;
pub mod waiting;
pub mod work;

pub use barrier::{bounded_by, MpmcSequenceBarrier, ProcessingSequenceBarrier, SCAN_LIMIT};
pub use builder::{
    BarrierScope, DisruptorBuilder, WithDataProvider, WithEventHandlers, WithSequencer,
    WithWaitingStrategy,
};
pub use traits::{
    DataProvider, EventHandler, EventHandlerMut, EventProcessor, EventProcessorExecutor,
    EventProcessorMut, EventProducer, ExecutorHandle, Runnable, SequenceBarrier, Sequencer,
    WaitingStrategy,
};
