//! The messages of a Coldcard: what is sent and what comes back.

pub mod request;
pub mod response;
