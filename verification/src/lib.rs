//! Keeps a door-side display informed of its owner's calendar status.
//!
//! The crate holds the decisions of the synchroniser and nothing that waits:
//! how a day's calendar events reduce to the one status worth showing, when a
//! waking display is written to, and the order of steps of one write. The
//! program around it performs the requests and radio calls and reports back
//! what happened.

pub mod bt;
pub mod calendar;
pub mod cell;
pub mod client;
pub mod moment;
pub mod poller;
pub mod text;
pub mod wire;
pub mod writer;
