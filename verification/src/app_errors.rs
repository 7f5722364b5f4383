//! The errors that the registry reports.

use crate::auth_db::DbError;
use crate::email_address::EmailAddress;
use crate::problem::{DeliveryProblem, ProblemType};
use vstd::prelude::*;

verus! {

/// Why an operation of the registry failed.
#[derive(Debug, PartialEq, Eq)]
pub enum AppErrorKind {
    /// The address went over a limit on hard bounces.
    BounceHardError { address: EmailAddress, time: u64, problem: DeliveryProblem },
    /// The address went over a limit on soft bounces.
    BounceSoftError { address: EmailAddress, time: u64, problem: DeliveryProblem },
    /// The address went over a limit on complaints.
    ComplaintError { address: EmailAddress, time: u64, problem: DeliveryProblem },
    /// The store failed. Its error is passed on as it came.
    AuthDbError(DbError),
    /// The system clock gave no time that fits in milliseconds since the
    /// epoch.
    SystemTimeError,
}

/// What an operation of the registry returns.
pub type AppResult<T> = Result<T, AppErrorKind>;

impl AppErrorKind {
    /// The error for an address that went over a limit at `problem`: of the
    /// problem's own category, with the problem and its time.
    pub open spec fn violation(address: EmailAddress, problem: DeliveryProblem) -> AppErrorKind {
        match problem.problem_type {
            ProblemType::HardBounce => AppErrorKind::BounceHardError {
                address,
                time: problem.created_at,
                problem,
            },
            ProblemType::SoftBounce => AppErrorKind::BounceSoftError {
                address,
                time: problem.created_at,
                problem,
            },
            ProblemType::Complaint => AppErrorKind::ComplaintError {
                address,
                time: problem.created_at,
                problem,
            },
        }
    }

    /// Builds the error for an address that went over a limit at `problem`.
    pub fn limit_violation(
        address: &EmailAddress,
        problem: &DeliveryProblem,
    ) -> (error: AppErrorKind)
        ensures
            error == AppErrorKind::violation(*address, *problem),
    {
        match problem.problem_type {
            ProblemType::HardBounce => AppErrorKind::BounceHardError {
                address: address.clone(),
                time: problem.created_at,
                problem: problem.clone(),
            },
            ProblemType::SoftBounce => AppErrorKind::BounceSoftError {
                address: address.clone(),
                time: problem.created_at,
                problem: problem.clone(),
            },
            ProblemType::Complaint => AppErrorKind::ComplaintError {
                address: address.clone(),
                time: problem.created_at,
                problem: problem.clone(),
            },
        }
    }
}

} // verus!
