//! Detection of limit violations in the history of an address.

use crate::app_errors::{AppErrorKind, AppResult};
use crate::email_address::EmailAddress;
use crate::problem::{DeliveryProblem, ProblemType};
use crate::settings::{BounceLimit, BounceLimits, BounceLimitsView, Duration};
use std::collections::HashMap;
use vstd::prelude::*;

verus! {

broadcast use vstd::std_specs::hash::group_hash_axioms;

/// Whether a problem created at `created_at` lies within `period` of `now`:
/// it is no older than `now - period`.
pub open spec fn in_period(created_at: u64, now: u64, period: Duration) -> bool {
    created_at >= now - period.0
}

/// Whether `count` problems are more than `limit` allows, the latest of them,
/// created at `created_at`, lying within the limit's period of `now`.
pub open spec fn exceeds(limit: BounceLimit, count: int, created_at: u64, now: u64) -> bool {
    count > limit.limit && in_period(created_at, now, limit.period)
}

/// Whether some limit of the list is exceeded.
pub open spec fn limit_violated(
    count: int,
    created_at: u64,
    now: u64,
    limits: Seq<BounceLimit>,
) -> bool {
    exists|j: int| 0 <= j < limits.len() && exceeds(#[trigger] limits[j], count, created_at, now)
}

/// The limits that apply to a category of problem.
pub open spec fn limits_for(limits: BounceLimitsView, problem_type: ProblemType) -> Seq<
    BounceLimit,
> {
    match problem_type {
        ProblemType::HardBounce => limits.hard,
        ProblemType::SoftBounce => limits.soft,
        ProblemType::Complaint => limits.complaint,
    }
}

/// How many of the problems are of the given category.
pub open spec fn count_of(problems: Seq<DeliveryProblem>, problem_type: ProblemType) -> nat
    decreases problems.len(),
{
    if problems.len() == 0 {
        0
    } else {
        count_of(problems.drop_last(), problem_type) + if problems.last().problem_type
            == problem_type {
            1nat
        } else {
            0nat
        }
    }
}

/// How many of the problems are of the given category and lie within
/// `period` of `now`.
pub open spec fn count_within(
    problems: Seq<DeliveryProblem>,
    problem_type: ProblemType,
    now: u64,
    period: Duration,
) -> nat
    decreases problems.len(),
{
    if problems.len() == 0 {
        0
    } else {
        count_within(problems.drop_last(), problem_type, now, period) + if problems.last().problem_type
            == problem_type && in_period(problems.last().created_at, now, period) {
            1nat
        } else {
            0nat
        }
    }
}

/// The running count at the problem of index `k`: how many problems of its
/// category the list holds up to and including it.
pub open spec fn running_count(problems: Seq<DeliveryProblem>, k: int) -> nat {
    count_of(problems.take(k + 1), problems[k].problem_type)
}

/// Whether the problem of index `k` goes over a limit of its category: the
/// running count at it exceeds a limit within whose period it lies.
pub open spec fn violates_at(
    limits: BounceLimitsView,
    problems: Seq<DeliveryProblem>,
    now: u64,
    k: int,
) -> bool {
    limit_violated(
        running_count(problems, k) as int,
        problems[k].created_at,
        now,
        limits_for(limits, problems[k].problem_type),
    )
}

/// Whether `k` is the index of the first problem, in the order of the list,
/// that goes over a limit.
pub open spec fn is_first_violation(
    limits: BounceLimitsView,
    problems: Seq<DeliveryProblem>,
    now: u64,
    k: int,
) -> bool {
    &&& 0 <= k < problems.len()
    &&& violates_at(limits, problems, now, k)
    &&& forall|j: int| 0 <= j < k ==> !violates_at(limits, problems, now, j)
}

/// The index of the first problem that goes over a limit, if there is one.
pub open spec fn first_violation(
    limits: BounceLimitsView,
    problems: Seq<DeliveryProblem>,
    now: u64,
) -> Option<int> {
    if exists|k: int| is_first_violation(limits, problems, now, k) {
        Some(choose|k: int| is_first_violation(limits, problems, now, k))
    } else {
        None
    }
}

/// What checking an address against its history gives: the violation at the
/// first problem that goes over a limit, or success where none does.
pub open spec fn check_outcome(
    limits: BounceLimitsView,
    address: EmailAddress,
    problems: Seq<DeliveryProblem>,
    now: u64,
) -> AppResult<()> {
    match first_violation(limits, problems, now) {
        Some(k) => Err(AppErrorKind::violation(address, problems[k])),
        None => Ok(()),
    }
}

/// Tells whether `count` problems, the latest created at `created_at`, go
/// over one of the limits. Stops at the first limit that is exceeded.
pub fn is_limit_violation(
    count: usize,
    created_at: u64,
    now: u64,
    limits: &[BounceLimit],
) -> (violation: bool)
    ensures
        violation == limit_violated(count as int, created_at, now, limits@),
{
    let mut i: usize = 0;
    while i < limits.len()
        invariant
            i <= limits.len(),
            forall|j: int|
                0 <= j < i ==> !exceeds(#[trigger] limits@[j], count as int, created_at, now),
        decreases limits.len() - i,
    {
        let limit = &limits[i];
        if count > limit.limit as usize && (limit.period.0 >= now || created_at >= now
            - limit.period.0) {
            return true;
        }
        i += 1;
    }
    false
}

/// The count that the map holds for a category: the value under the
/// category's code, or 0 where the map has no entry for it.
spec fn counted(counts: Map<u8, usize>, problem_type: ProblemType) -> nat {
    if counts.contains_key(problem_type.code()) {
        counts[problem_type.code()] as nat
    } else {
        0
    }
}

/// Taking one more problem into account raises the count of its category by
/// one and leaves the other counts as they were.
proof fn lemma_count_of_next(problems: Seq<DeliveryProblem>, i: int, problem_type: ProblemType)
    requires
        0 <= i < problems.len(),
    ensures
        count_of(problems.take(i + 1), problem_type) == count_of(problems.take(i), problem_type)
            + if problems[i].problem_type == problem_type {
            1nat
        } else {
            0nat
        },
        count_of(problems.take(i), problem_type) <= i,
    decreases i,
{
    assert(problems.take(i + 1).drop_last() =~= problems.take(i));
    if i > 0 {
        lemma_count_of_next(problems, i - 1, problem_type);
    }
}

/// The limits that apply to a category of problem.
pub fn limits_of(limits: &BounceLimits, problem_type: ProblemType) -> (list: &[BounceLimit])
    ensures
        list@ == limits_for(limits@, problem_type),
{
    match problem_type {
        ProblemType::HardBounce => limits.hard.as_slice(),
        ProblemType::SoftBounce => limits.soft.as_slice(),
        ProblemType::Complaint => limits.complaint.as_slice(),
    }
}

/// Checks an address against its history, as the store returned it, at the
/// time `now`.
///
/// The problems are taken in the order given. Each raises the running count
/// of its category, and is then held against the limits of that category.
/// The first one that goes over a limit ends the check with the error of its
/// category, which carries the address, the problem and its time.
pub fn check_problems(
    limits: &BounceLimits,
    address: &EmailAddress,
    problems: &[DeliveryProblem],
    now: u64,
) -> (result: AppResult<()>)
    ensures
        result == check_outcome(limits@, *address, problems@, now),
        result is Ok <==> forall|k: int|
            0 <= k < problems.len() ==> !violates_at(limits@, problems@, now, k),
        result matches Err(error) ==> exists|k: int|
            is_first_violation(limits@, problems@, now, k) && error == AppErrorKind::violation(
                *address,
                problems@[k],
            ),
        problems.len() == 0 ==> result is Ok,
{
    let mut counts: HashMap<u8, usize> = HashMap::new();
    let mut i: usize = 0;
    while i < problems.len()
        invariant
            i <= problems.len(),
            forall|t: ProblemType| counted(counts@, t) == count_of(problems@.take(i as int), t),
            forall|k: int| 0 <= k < i ==> !violates_at(limits@, problems@, now, k),
        decreases problems.len() - i,
    {
        let problem = &problems[i];
        let ghost before = counts@;
        proof {
            lemma_count_of_next(problems@, i as int, problem.problem_type);
        }
        let count = counts.entry(problem.problem_type.serialize()).or_insert(0);
        assert(*count == counted(before, problem.problem_type));
        *count += 1;
        let count: usize = *count;
        assert(count == running_count(problems@, i as int));
        assert forall|t: ProblemType| counted(counts@, t) == count_of(
            problems@.take(i + 1),
            t,
        ) by {
            lemma_count_of_next(problems@, i as int, t);
            assert(counts@ == before.insert(problem.problem_type.code(), count));
            assert(counted(before, t) == count_of(problems@.take(i as int), t));
        }
        if is_limit_violation(
            count,
            problem.created_at,
            now,
            limits_of(limits, problem.problem_type),
        ) {
            assert(is_first_violation(limits@, problems@, now, i as int));
            return Err(AppErrorKind::limit_violation(address, problem));
        }
        i += 1;
    }
    Ok(())
}

} // verus!
