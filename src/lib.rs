//! Resolves short video clip links to the address of the clip's media file.
//!
//! The library holds the decisions of the redirect service: which clip an
//! inbound address names, what is sent to the platform's token and clips
//! endpoints, how the media address is derived from a thumbnail address, and
//! the order in which one request moves through these steps.

pub mod twitch;
pub mod routing;
pub mod handler;
