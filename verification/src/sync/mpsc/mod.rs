//! An unbounded queue from many producers to one consumer, stored in a chain
//! of fixed-capacity blocks.

pub mod block;
pub mod chan;
pub mod error;
pub mod list;
pub mod unbounded;

pub use self::unbounded::{unbounded_channel, UnboundedReceiver, UnboundedSender};
