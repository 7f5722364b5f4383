//! The store that holds the delivery problems.

use crate::email_address::EmailAddress;
use crate::problem::{DeliveryProblem, ProblemSubtype, ProblemType};
use vstd::prelude::*;

verus! {

/// A failure of the store: it could not be reached, or it refused the query
/// or the insert.
#[derive(Debug, PartialEq, Eq)]
pub struct DbError {
    /// What the store reported.
    pub description: String,
}

/// What the registry asks of a store.
///
/// The store lives outside the registry, and other clients write to it.
/// Nothing is therefore promised of what a call returns: the registry is
/// proved for every answer.
pub trait Db {
    /// Fetches all the problems recorded for an address, in the store's order.
    fn get_bounces(&self, address: &EmailAddress) -> Result<Vec<DeliveryProblem>, DbError>;

    /// Inserts a new problem for an address.
    fn create_bounce(
        &self,
        address: &EmailAddress,
        problem_type: ProblemType,
        problem_subtype: ProblemSubtype,
    ) -> Result<(), DbError>;
}

} // verus!
