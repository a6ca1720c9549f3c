//! A peer-to-peer mesh node: identity keys, the registry of known nodes,
//! the wire encoding of announcements, and the decisions of the node runtime.

pub mod address;
pub mod api;
pub mod identity;
pub mod json;
pub mod messages;
pub mod registry;
pub mod runtime;
