//! Client side of the TON lite server API.
//!
//! The library holds the data that travels between a lite client and a lite
//! server (`tl`), the client's error type (`types`), and the client itself
//! (`client`): the state it keeps between calls, the request that each
//! operation sends, and how each answer is read back.
//!
//! Talking to the network is left to the caller: the client hands out a
//! `WrappedRequest` for each operation and takes back what the server
//! answered.

pub mod client;
pub mod tl;
pub mod types;
