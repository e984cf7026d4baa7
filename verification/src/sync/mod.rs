//! Communication between tasks.

pub mod mpsc;
pub mod task;

pub use crate::sync::mpsc::unbounded::{unbounded_channel, UnboundedReceiver, UnboundedSender};
