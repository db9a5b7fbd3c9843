//! A minimal actor-style messaging layer: fixed-width mailbox addresses,
//! envelope framing, handler derivation for message enums and the decisions
//! of an actor's control loop.

pub mod address;
pub mod control;
pub mod dispatch;
pub mod emit;
pub mod envelope;
pub mod signal;

pub use address::{Address, AddressError, AddressType, DestAddress, SourceAddress, ADDRESS_LENGTH};
pub use emit::actor_message;
pub use envelope::{Envelope, EnvelopeError};
pub use signal::{ShouldBlock, ShouldTerminate};
