//! A typed message bus for one process.
//!
//! - [`dyn_bus`] is the registry: channels are constructed when they are first asked for,
//!   their endpoints and the resources of the bus are kept in slots by identity, and each is
//!   handed out once or to every caller, as its [`Storage`] policy says.
//! - [`channel`] is the contract between the registry and a kind of [`Channel`], with the
//!   decisions of the receivers that are made from other receivers.
//! - [`spawn`] is the cancellation cell that ties a task to its lifeline: when the lifeline
//!   is dropped, the task is woken and stops at its next scheduling step.
//! - [`error`] holds the errors of the bus.
//!
//! The library decides, keeps state and wakes who waits, through exclusive references. The
//! locks that make it shared, and the executors that run the tasks, belong to its caller.
pub mod bus;
pub mod channel;
pub mod dyn_bus;
pub mod error;
pub mod prelude;
pub mod spawn;
pub mod storage;

pub use bus::{Bus, Identity, Link, Message, Resource};
pub use channel::Channel;
pub use dyn_bus::DynBus;
pub use storage::{Policy, Storage};
