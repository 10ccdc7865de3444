//! The traits and types that a typical user of the bus needs.
pub use crate::{Bus, DynBus, Identity, Message, Resource, Storage};
