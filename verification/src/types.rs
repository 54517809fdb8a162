use vstd::prelude::*;

use crate::tl::response;

verus! {

/// What can go wrong with a query.
#[derive(Debug, Clone, PartialEq, Eq)]
pub enum LiteError {
    /// The server refused the query.
    ServerError(response::Error),
    /// The server answered with another kind of answer than the query calls for.
    UnexpectedMessage,
    /// The connection failed; the text says how.
    TransportError(String),
}

} // verus!
