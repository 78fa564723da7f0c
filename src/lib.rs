//! A sandboxed plugin host. The host writes an input into a shared region,
//! asks each loaded module in load order, and takes the first verdict. Values
//! cross the boundary as length-prefixed frames in fixed-offset mailboxes.
//! The guest side keeps its capability instances in an arena of handles.
pub mod codec;
pub mod dispatch;
pub mod engine;
pub mod error;
pub mod frame;
pub mod guest;
