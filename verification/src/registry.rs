//! The registry of delivery problems.

use crate::app_errors::{AppErrorKind, AppResult};
use crate::auth_db::{Db, DbError};
use crate::clock::now_millis;
use crate::email_address::EmailAddress;
use crate::limits::{check_outcome, check_problems};
use crate::notification::{BounceSubtype, BounceType, ComplaintFeedbackType};
use crate::problem::{DeliveryProblem, ProblemSubtype, ProblemType};
use crate::settings::{BounceLimits, BounceLimitsView, Settings};
use vstd::prelude::*;

verus! {

/// Bounce and complaint registry: a set of limits and the store that
/// holds the problems recorded for each address.
#[derive(Debug)]
pub struct DeliveryProblems<D: Db> {
    auth_db: D,
    limits: BounceLimits,
}

/// The subtype under which a complaint is stored: that of its feedback, or
/// `Unmapped` where the notification carried none.
pub open spec fn complaint_subtype_of(complaint_type: Option<ComplaintFeedbackType>) -> ProblemSubtype {
    match complaint_type {
        Some(feedback) => ProblemSubtype::of_complaint(feedback),
        None => ProblemSubtype::Unmapped,
    }
}

/// What recording a problem gives when the store answers `inserted`:
/// success if the store took the problem, else the store's error as it came.
pub open spec fn record_outcome(inserted: Result<(), DbError>) -> AppResult<()> {
    match inserted {
        Ok(()) => Ok(()),
        Err(error) => Err(AppErrorKind::AuthDbError(error)),
    }
}

/// What checking an address gives when the store answers `fetched` and the
/// clock reads `clock`: the store's error as it came; else the error of
/// a clock without a reading; else the outcome of holding the problems
/// fetched against the limits at that time.
pub open spec fn check_result(
    limits: BounceLimitsView,
    address: EmailAddress,
    fetched: Result<Vec<DeliveryProblem>, DbError>,
    clock: Option<u64>,
) -> AppResult<()> {
    match fetched {
        Err(error) => Err(AppErrorKind::AuthDbError(error)),
        Ok(problems) => match clock {
            None => Err(AppErrorKind::SystemTimeError),
            Some(now) => check_outcome(limits, address, problems@, now),
        },
    }
}

/// Picks the subtype under which a complaint is stored.
pub fn complaint_subtype(complaint_type: Option<ComplaintFeedbackType>) -> (subtype: ProblemSubtype)
    ensures
        subtype == complaint_subtype_of(complaint_type),
        complaint_type is None ==> subtype == ProblemSubtype::Unmapped,
{
    match complaint_type {
        Some(feedback) => ProblemSubtype::from(feedback),
        None => ProblemSubtype::Unmapped,
    }
}

impl<D: Db> DeliveryProblems<D> {
    /// The limits that the registry was made with.
    pub closed spec fn limits(&self) -> BounceLimitsView {
        self.limits@
    }

    /// The store that the registry was made with.
    pub closed spec fn auth_db(&self) -> D {
        self.auth_db
    }

    /// Makes a registry from the configured limits and a store.
    pub fn new(settings: &Settings, auth_db: D) -> (registry: DeliveryProblems<D>)
        ensures
            registry.limits() == settings.bouncelimits@,
            registry.auth_db() == auth_db,
    {
        DeliveryProblems { auth_db, limits: settings.bouncelimits.clone() }
    }

    /// Checks an email address against the problems that the store holds
    /// for it, at the time of the call.
    ///
    /// The store is asked once, for the problems of `address`. The result is
    /// `check_result` of what the store answered and of what the clock read:
    /// the store and the clock decide which answer and which reading.
    pub fn check(&self, address: &EmailAddress) -> (result: AppResult<()>)
        ensures
            exists|fetched: Result<Vec<DeliveryProblem>, DbError>, clock: Option<u64>|
                call_ensures(D::get_bounces, (&self.auth_db(), address), fetched) && result
                    == #[trigger] check_result(self.limits(), *address, fetched, clock),
    {
        let fetched = self.auth_db.get_bounces(address);
        let ghost answer = fetched;
        let problems = match fetched {
            Ok(problems) => problems,
            Err(error) => {
                assert(Err::<(), AppErrorKind>(AppErrorKind::AuthDbError(error)) == check_result(
                    self.limits(),
                    *address,
                    answer,
                    None,
                ));
                return Err(AppErrorKind::AuthDbError(error));
            },
        };
        let clock = now_millis();
        let now = match clock {
            Some(now) => now,
            None => {
                assert(Err::<(), AppErrorKind>(AppErrorKind::SystemTimeError) == check_result(
                    self.limits(),
                    *address,
                    answer,
                    clock,
                ));
                return Err(AppErrorKind::SystemTimeError);
            },
        };
        let result = check_problems(&self.limits, address, problems.as_slice(), now);
        assert(result == check_result(self.limits(), *address, answer, clock));
        result
    }

    /// Records a hard or soft bounce against an email address.
    ///
    /// The store is handed the address with the problem type and subtype
    /// that the bounce maps to, and its answer is the result. No limit is
    /// consulted: the call fails only where the store does.
    pub fn record_bounce(
        &self,
        address: &EmailAddress,
        bounce_type: BounceType,
        bounce_subtype: BounceSubtype,
    ) -> (result: AppResult<()>)
        ensures
            exists|inserted: Result<(), DbError>|
                call_ensures(
                    D::create_bounce,
                    (
                        &self.auth_db(),
                        address,
                        ProblemType::of_bounce(bounce_type),
                        ProblemSubtype::of_bounce(bounce_subtype),
                    ),
                    inserted,
                ) && result == #[trigger] record_outcome(inserted),
            result matches Err(error) ==> error is AuthDbError,
    {
        let inserted = self.auth_db.create_bounce(
            address,
            ProblemType::from(bounce_type),
            ProblemSubtype::from(bounce_subtype),
        );
        let ghost answer = inserted;
        let result = match inserted {
            Ok(()) => Ok(()),
            Err(error) => Err(AppErrorKind::AuthDbError(error)),
        };
        assert(result == record_outcome(answer));
        result
    }

    /// Records a complaint against an email address.
    ///
    /// The store is handed the address with the type `Complaint` and the
    /// subtype of the feedback, or `Unmapped` where there is none, and its
    /// answer is the result. The call fails only where the store does.
    pub fn record_complaint(
        &self,
        address: &EmailAddress,
        complaint_type: Option<ComplaintFeedbackType>,
    ) -> (result: AppResult<()>)
        ensures
            exists|inserted: Result<(), DbError>|
                call_ensures(
                    D::create_bounce,
                    (
                        &self.auth_db(),
                        address,
                        ProblemType::Complaint,
                        complaint_subtype_of(complaint_type),
                    ),
                    inserted,
                ) && result == #[trigger] record_outcome(inserted),
            result matches Err(error) ==> error is AuthDbError,
    {
        let bounce_subtype = complaint_subtype(complaint_type);
        let inserted = self.auth_db.create_bounce(
            address,
            ProblemType::Complaint,
            bounce_subtype,
        );
        let ghost answer = inserted;
        let result = match inserted {
            Ok(()) => Ok(()),
            Err(error) => Err(AppErrorKind::AuthDbError(error)),
        };
        assert(result == record_outcome(answer));
        result
    }
}

} // verus!
