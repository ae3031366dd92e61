//! Proxy core for a hierarchical space directory: name sanitizing,
//! path resolution over an upstream space tree, response shaping, and
//! the bookkeeping decisions behind room check-in and check-out.
pub mod sanitize;
pub mod spaces;
pub mod handlers;
pub mod resolve;
pub mod upstream;
