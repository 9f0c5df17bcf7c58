//! What a database lookup of one record can give, as the decisions of the API receive it.

use vstd::prelude::*;

verus! {

/// What a database lookup of one record gave.
#[derive(Debug, Clone)]
pub enum Lookup<T> {
    /// The record matched; the value read from it.
    Found(T),
    /// No record matched.
    Missing,
    /// The database failed; the text of its error.
    Failed(String),
}

} // verus!
