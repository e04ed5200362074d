//! Decision logic of a webhook relay that turns one chat message into a
//! download of a linked video and its delivery back to the sender.
//!
//! The crate performs no I/O. [`pipeline`] decides, move by move, what is to
//! be done for a request, and the program around it does it; [`guarantees`]
//! states what holds of every request. [`api::telegram`] reads the inbound
//! update and describes the requests to the messaging platform, [`json`]
//! holds the JSON values that updates are read from, [`link`] and [`job`]
//! cover the link to fetch and the download it starts, [`logging`] turns
//! log records into structured entries, and [`text`] holds the string
//! helpers that the rest relies on.

pub mod api;
pub mod guarantees;
pub mod job;
pub mod json;
pub mod link;
pub mod logging;
pub mod pipeline;
pub mod text;
