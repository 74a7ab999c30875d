//! What can go wrong with an answer of the catalog or of the user lookup.

use vstd::prelude::*;

verus! {

/// A failure that ends the whole request; none of them is recovered from.
#[derive(Clone, Copy, Debug, PartialEq, Eq, Structural)]
pub enum CatalogError {
    /// The answer came with a status outside 200 to 299, or it is not JSON.
    Transport,
    /// The answer is JSON of another shape than the catalog's schema: an
    /// expected field is missing or of the wrong type.
    SchemaShape,
    /// The user lookup found no row.
    LookupNotFound,
}

/// Whether an HTTP status says that the request succeeded: 200 to 299.
pub open spec fn is_success(http_status: u16) -> bool {
    200 <= http_status <= 299
}

/// Whether an HTTP status says that the request succeeded.
pub fn status_is_success(http_status: u16) -> (r: bool)
    ensures
        r == is_success(http_status),
{
    200 <= http_status && http_status <= 299
}

} // verus!
