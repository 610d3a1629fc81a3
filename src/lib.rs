//! The state core of a small realtime chat service: which identities are
//! connected, their display names, and the log of chat messages.

pub mod laws;
pub mod model;
pub mod reducers;
pub mod store;
pub mod validation;
