//! A multi-producer, single-consumer, bounded, back-pressured FIFO channel,
//! modelled as a sequential state machine.
//!
//! The shared channel state lives in [`channel::Inner`]; the producer and
//! consumer endpoints are [`channel::AddressSender`] and
//! [`channel::AddressReceiver`]. Every public operation is one atomic step of
//! the channel protocol: the embedding runtime serializes the steps and
//! performs the task wake-ups that the parking slots record.

pub mod channel;
pub mod queue;
pub mod state;

pub use channel::{channel, AddressReceiver, AddressSender, Async, Inner};
pub use channel::{ReceiverTask, SendError, SenderTask, TaskHandle};
pub use channel::{
    lemma_count_conservation, lemma_fifo, lemma_no_phantom_capacity, lemma_sender_ceiling,
};
pub use queue::{PopResult, Queue};
pub use state::{decode_state, encode_state, State};
pub use state::{INIT_STATE, MAX_BUFFER, MAX_CAPACITY, OPEN_MASK};
