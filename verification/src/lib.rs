//! Message synchronisation for a push-notification account.
//!
//! The crate holds the decisions of a desktop client: how a control frame
//! is decoded, what a batch of downloaded messages asks for, which request
//! goes to the service and how its answer is judged, and how the realtime
//! connection is supervised. Nothing here touches the network, the disk or
//! the clock: the two machines, `feed::Supervisor` and `pass::Pass`, hand
//! out one action at a time and take its outcome as the next event. Every
//! function carries a contract that states its result over the views of
//! the data it is given.

pub mod types;
pub mod protocol;
pub mod feed;
pub mod pipeline;
pub mod json;
pub mod strings;
pub mod service;
pub mod sync;
pub mod auth;
pub mod notice;
pub mod settings;
pub mod pass;
