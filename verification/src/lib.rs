//! A bounded multi-producer, single-consumer channel for cooperative tasks.
//!
//! The channel stores up to `N` messages in an inline ring buffer. Producers
//! are held back while the buffer is full, and the consumer can shut the
//! channel down without losing what is already buffered.
//!
//! [`ChannelModel`] is the mathematical description of a channel, and
//! [`ChannelState`] the ring buffer that implements it. A [`Channel`] guards
//! one state with an exclusion primitive, and [`split`] hands out the
//! [`Sender`] and [`Receiver`] that share it. What holds of every channel is
//! proved in [`laws`].
//!
//! An operation never wakes a task while it has the state of the channel in
//! hand: it hands back [`Wakeups`], which are delivered afterwards. A waker
//! is therefore free to use the channel that wakes it.

pub mod channel;
pub mod error;
pub mod laws;
pub mod model;
pub mod mutex;
pub mod operation;
pub mod receiver;
pub mod sender;
pub mod slot;
pub mod split;
pub mod state;

pub use channel::{Channel, WithCriticalSections, WithThreadModeOnly};
pub use error::{SendError, TryRecvError, TrySendError};
pub use model::ChannelModel;
pub use mutex::{CriticalSectionMutex, Exclusion, ThreadModeMutex};
pub use operation::{Operation, Outcome, SendPoll};
pub use receiver::Receiver;
pub use sender::{CloseFuture, SendFuture, Sender};
pub use slot::{Due, WakerSlot, Wakeups};
pub use split::split;
pub use state::ChannelState;
