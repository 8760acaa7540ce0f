//! The ways in which a request to the catalog can fail.

use vstd::prelude::*;

verus! {

/// Why a request produced no result.
#[derive(Clone, Copy, Debug, PartialEq, Eq, Structural)]
pub enum CatalogError {
    /// A point lookup found no row.
    NotFound,
    /// A random sample was asked of a filter that matches nothing.
    EmptyPopulation,
    /// The search index named an id for which the store has no row, and
    /// there was no other candidate to fall back to.
    Inconsistency,
    /// The store or the search service could not be reached or refused
    /// the query.
    UpstreamUnavailable,
}

impl CatalogError {
    /// A short description for logs and response bodies.
    pub fn message(&self) -> (text: &'static str)
        ensures
            text@ == (match *self {
                CatalogError::NotFound => "not found"@,
                CatalogError::EmptyPopulation => "no matching item"@,
                CatalogError::Inconsistency => "search index and store disagree"@,
                CatalogError::UpstreamUnavailable => "upstream unavailable"@,
            }),
    {
        match self {
            CatalogError::NotFound => "not found",
            CatalogError::EmptyPopulation => "no matching item",
            CatalogError::Inconsistency => "search index and store disagree",
            CatalogError::UpstreamUnavailable => "upstream unavailable",
        }
    }
}

/// The row of a point lookup, or `NotFound` where the lookup found none.
pub fn found<T>(row: Option<T>) -> (outcome: Result<T, CatalogError>)
    ensures
        outcome == (match row {
            Some(item) => Ok::<T, CatalogError>(item),
            None => Err::<T, CatalogError>(CatalogError::NotFound),
        }),
{
    match row {
        Some(item) => Ok(item),
        None => Err(CatalogError::NotFound),
    }
}

} // verus!
