//! The values exchanged with a lite server.

pub mod common;
pub mod request;
pub mod response;
pub mod utils;
