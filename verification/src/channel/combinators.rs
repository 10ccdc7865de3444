//! Receivers that are made from other receivers.
pub mod filter;
pub mod map;
pub mod merge;
pub mod merge_from;

pub use filter::FilterReceiver;
pub use map::MapReceiver;
pub use merge::MergeReceiver;
pub use merge_from::MergeFromReceiver;
