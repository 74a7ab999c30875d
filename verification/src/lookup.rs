//! The lookup that turns a user of the chat into a user of the catalog.

use vstd::prelude::*;
use crate::error::CatalogError;
use crate::text::texts;

verus! {

/// The catalog name among the rows that the lookup found: the one of the
/// first row. No row is a failure.
pub open spec fn found_name(rows: Seq<Seq<char>>) -> Result<Seq<char>, CatalogError> {
    if rows.len() > 0 {
        Ok(rows[0])
    } else {
        Err(CatalogError::LookupNotFound)
    }
}

/// Picks the catalog name from the names that the lookup of one user
/// returned, one for each row.
pub fn search_anilist(rows: &Vec<String>) -> (r: Result<String, CatalogError>)
    ensures
        match r {
            Ok(name) => found_name(texts(rows@)) == Ok::<Seq<char>, CatalogError>(name@),
            Err(e) => found_name(texts(rows@)) == Err::<Seq<char>, CatalogError>(e),
        },
{
    if rows.len() > 0 {
        Ok(rows[0].clone())
    } else {
        Err(CatalogError::LookupNotFound)
    }
}

} // verus!
