//! What holds of the check for every history, set of limits and time.

use crate::app_errors::AppErrorKind;
use crate::auth_db::DbError;
use crate::email_address::EmailAddress;
use crate::limits::{
    check_outcome, count_of, count_within, exceeds, first_violation, in_period,
    is_first_violation, limits_for, running_count, violates_at,
};
use crate::problem::{DeliveryProblem, ProblemType};
use crate::registry::check_result;
use crate::settings::{BounceLimitsView, Duration};
use vstd::prelude::*;

verus! {

/// Where some problem goes over a limit, there is a first one that does.
pub proof fn lemma_first_violation_exists(
    limits: BounceLimitsView,
    problems: Seq<DeliveryProblem>,
    now: u64,
    k: int,
)
    requires
        0 <= k < problems.len(),
        violates_at(limits, problems, now, k),
    ensures
        exists|first: int| first <= k && is_first_violation(limits, problems, now, first),
    decreases k,
{
    if exists|j: int| 0 <= j < k && violates_at(limits, problems, now, j) {
        let j = choose|j: int| 0 <= j < k && violates_at(limits, problems, now, j);
        lemma_first_violation_exists(limits, problems, now, j);
    } else {
        assert(is_first_violation(limits, problems, now, k));
    }
}

/// The check fails exactly where some problem goes over a limit, and then
/// with the violation of the first problem that does.
pub proof fn lemma_check_outcome(
    limits: BounceLimitsView,
    address: EmailAddress,
    problems: Seq<DeliveryProblem>,
    now: u64,
)
    ensures
        check_outcome(limits, address, problems, now) is Ok <==> forall|k: int|
            0 <= k < problems.len() ==> !violates_at(limits, problems, now, k),
        forall|k: int|
            is_first_violation(limits, problems, now, k) ==> check_outcome(
                limits,
                address,
                problems,
                now,
            ) == Err::<(), AppErrorKind>(AppErrorKind::violation(address, problems[k])),
{
    if exists|k: int| 0 <= k < problems.len() && violates_at(limits, problems, now, k) {
        let k = choose|k: int| 0 <= k < problems.len() && violates_at(limits, problems, now, k);
        lemma_first_violation_exists(limits, problems, now, k);
    }
    assert forall|k: int| is_first_violation(limits, problems, now, k) implies check_outcome(
        limits,
        address,
        problems,
        now,
    ) == Err::<(), AppErrorKind>(AppErrorKind::violation(address, problems[k])) by {
        let first = first_violation(limits, problems, now)->0;
        assert(is_first_violation(limits, problems, now, first));
        assert(first == k);
    }
}

/// An address with no recorded problem passes the check, whatever the
/// limits and the time: the history alone, and the answer of a store that
/// holds nothing for the address, once the clock has a reading.
pub proof fn lemma_empty_history_passes(limits: BounceLimitsView, address: EmailAddress, now: u64)
    ensures
        check_outcome(limits, address, Seq::<DeliveryProblem>::empty(), now) is Ok,
        forall|fetched: Result<Vec<DeliveryProblem>, DbError>|
            fetched matches Ok(problems) && problems@.len() == 0 ==> #[trigger] check_result(
                limits,
                address,
                fetched,
                Some(now),
            ) is Ok,
{
    lemma_check_outcome(limits, address, Seq::<DeliveryProblem>::empty(), now);
    assert forall|fetched: Result<Vec<DeliveryProblem>, DbError>|
        fetched matches Ok(problems) && problems@.len() == 0 implies #[trigger] check_result(
        limits,
        address,
        fetched,
        Some(now),
    ) is Ok by {
        assert(fetched->Ok_0@ =~= Seq::<DeliveryProblem>::empty());
    }
}

/// A category without limits is never violated: no problem of that category
/// goes over a limit, however many there are.
pub proof fn lemma_no_limits_no_violation(
    limits: BounceLimitsView,
    problems: Seq<DeliveryProblem>,
    now: u64,
    k: int,
)
    requires
        0 <= k < problems.len(),
        limits_for(limits, problems[k].problem_type).len() == 0,
    ensures
        !violates_at(limits, problems, now, k),
{
}

/// Whether every limit holds of the history as a whole: for each category
/// and each of its limits, no more problems of the category lie within the
/// limit's period than the limit allows.
pub open spec fn within_limits(
    limits: BounceLimitsView,
    problems: Seq<DeliveryProblem>,
    now: u64,
) -> bool {
    forall|problem_type: ProblemType, j: int|
        0 <= j < limits_for(limits, problem_type).len() ==> count_within(
            problems,
            problem_type,
            now,
            (#[trigger] limits_for(limits, problem_type)[j]).period,
        ) <= limits_for(limits, problem_type)[j].limit
}

/// Whether the problem of index `k` is listed after an older problem of its
/// category that lies outside `period`.
pub open spec fn follows_stale(
    problems: Seq<DeliveryProblem>,
    k: int,
    now: u64,
    period: Duration,
) -> bool {
    exists|i: int|
        0 <= i < k && (#[trigger] problems[i]).problem_type == problems[k].problem_type
            && !in_period(problems[i].created_at, now, period)
}

/// A prefix of a history holds no more problems of a category within
/// a period than the whole history does.
proof fn lemma_count_within_prefix(
    problems: Seq<DeliveryProblem>,
    problem_type: ProblemType,
    now: u64,
    period: Duration,
    n: int,
)
    requires
        0 <= n <= problems.len(),
    ensures
        count_within(problems.take(n), problem_type, now, period) <= count_within(
            problems,
            problem_type,
            now,
            period,
        ),
    decreases problems.len(),
{
    if n == problems.len() {
        assert(problems.take(n) =~= problems);
    } else {
        assert(problems.drop_last().take(n) =~= problems.take(n));
        lemma_count_within_prefix(problems.drop_last(), problem_type, now, period, n);
    }
}

/// Of the problems of a category, those within a period are no more than
/// all; and they are all, where none of the category lies outside the period.
proof fn lemma_count_within_bound(
    problems: Seq<DeliveryProblem>,
    problem_type: ProblemType,
    now: u64,
    period: Duration,
)
    ensures
        count_within(problems, problem_type, now, period) <= count_of(problems, problem_type),
        (forall|i: int|
            0 <= i < problems.len() && (#[trigger] problems[i]).problem_type == problem_type
                ==> in_period(problems[i].created_at, now, period)) ==> count_within(
            problems,
            problem_type,
            now,
            period,
        ) == count_of(problems, problem_type),
    decreases problems.len(),
{
    if problems.len() > 0 {
        lemma_count_within_bound(problems.drop_last(), problem_type, now, period);
        if forall|i: int|
            0 <= i < problems.len() && (#[trigger] problems[i]).problem_type == problem_type
                ==> in_period(problems[i].created_at, now, period) {
            assert forall|i: int|
                0 <= i < problems.drop_last().len() && (#[trigger] problems.drop_last()[i]).problem_type
                    == problem_type implies in_period(
                problems.drop_last()[i].created_at,
                now,
                period,
            ) by {
                assert(problems.drop_last()[i] == problems[i]);
            }
            assert(problems.last() == problems[problems.len() - 1]);
        }
    }
}

/// Where a history holds a problem of a category within a period, the last
/// such problem has all of them at or before it.
proof fn lemma_last_within(
    problems: Seq<DeliveryProblem>,
    problem_type: ProblemType,
    now: u64,
    period: Duration,
) -> (k: int)
    requires
        count_within(problems, problem_type, now, period) > 0,
    ensures
        0 <= k < problems.len(),
        problems[k].problem_type == problem_type,
        in_period(problems[k].created_at, now, period),
        count_within(problems.take(k + 1), problem_type, now, period) == count_within(
            problems,
            problem_type,
            now,
            period,
        ),
    decreases problems.len(),
{
    if problems.last().problem_type == problem_type && in_period(
        problems.last().created_at,
        now,
        period,
    ) {
        assert(problems.take(problems.len() as int) =~= problems);
        problems.len() - 1
    } else {
        let k = lemma_last_within(problems.drop_last(), problem_type, now, period);
        assert(problems.drop_last().take(k + 1) =~= problems.take(k + 1));
        k
    }
}

/// A history that stays within every limit passes the check, provided
/// that no older problem outside a limit's period makes the difference.
///
/// The check counts every problem of a category up to the one at hand,
/// whatever its age. A problem outside a period that is listed first is
/// therefore counted against a later one inside it. The second condition
/// leaves out the histories in which such a count goes over the limit;
/// a history listed newest first meets it always.
pub proof fn lemma_within_limits_passes(
    limits: BounceLimitsView,
    address: EmailAddress,
    problems: Seq<DeliveryProblem>,
    now: u64,
)
    requires
        within_limits(limits, problems, now),
        forall|k: int, j: int|
            #![trigger problems[k], limits_for(limits, problems[k].problem_type)[j]]
            0 <= k < problems.len() && 0 <= j < limits_for(limits, problems[k].problem_type).len()
                && in_period(
                problems[k].created_at,
                now,
                limits_for(limits, problems[k].problem_type)[j].period,
            ) && follows_stale(
                problems,
                k,
                now,
                limits_for(limits, problems[k].problem_type)[j].period,
            ) ==> running_count(problems, k) <= limits_for(
                limits,
                problems[k].problem_type,
            )[j].limit,
    ensures
        check_outcome(limits, address, problems, now) is Ok,
{
    assert forall|k: int| 0 <= k < problems.len() implies !violates_at(
        limits,
        problems,
        now,
        k,
    ) by {
        let problem_type = problems[k].problem_type;
        let list = limits_for(limits, problem_type);
        assert forall|j: int| 0 <= j < list.len() implies !exceeds(
            #[trigger] list[j],
            running_count(problems, k) as int,
            problems[k].created_at,
            now,
        ) by {
            let period = list[j].period;
            if in_period(problems[k].created_at, now, period) && !follows_stale(
                problems,
                k,
                now,
                period,
            ) {
                let prefix = problems.take(k + 1);
                assert forall|i: int|
                    0 <= i < prefix.len() && (#[trigger] prefix[i]).problem_type
                        == problem_type implies in_period(prefix[i].created_at, now, period) by {
                    assert(prefix[i] == problems[i]);
                }
                lemma_count_within_bound(prefix, problem_type, now, period);
                lemma_count_within_prefix(problems, problem_type, now, period, k + 1);
            }
        }
    }
    lemma_check_outcome(limits, address, problems, now);
}

/// Whether the history lists its problems newest first.
pub open spec fn newest_first(problems: Seq<DeliveryProblem>) -> bool {
    forall|i: int, k: int|
        0 <= i < k < problems.len() ==> (#[trigger] problems[i]).created_at >= (
        #[trigger] problems[k]).created_at
}

/// A history listed newest first that stays within every limit passes the
/// check: no problem outside a period comes before one inside it.
pub proof fn lemma_newest_first_within_limits_passes(
    limits: BounceLimitsView,
    address: EmailAddress,
    problems: Seq<DeliveryProblem>,
    now: u64,
)
    requires
        within_limits(limits, problems, now),
        newest_first(problems),
    ensures
        check_outcome(limits, address, problems, now) is Ok,
{
    assert forall|k: int, j: int|
        #![trigger problems[k], limits_for(limits, problems[k].problem_type)[j]]
        0 <= k < problems.len() && in_period(
            problems[k].created_at,
            now,
            limits_for(limits, problems[k].problem_type)[j].period,
        ) implies !follows_stale(
        problems,
        k,
        now,
        limits_for(limits, problems[k].problem_type)[j].period,
    ) by {
        let period = limits_for(limits, problems[k].problem_type)[j].period;
        assert forall|i: int| 0 <= i < k implies in_period(
            (#[trigger] problems[i]).created_at,
            now,
            period,
        ) by {
            assert(problems[i].created_at >= problems[k].created_at);
        }
    }
    lemma_within_limits_passes(limits, address, problems, now);
}

/// A history with more problems of a category within a limit's period than
/// the limit allows fails the check. It fails with the error of that
/// category, at a problem within that period, provided that the first
/// problem to go over a limit is such a problem.
///
/// The check ends at the first problem that goes over any limit. A problem
/// of another category that goes over a limit of its own, or an older
/// problem of this category that goes over another of its limits, may come
/// first: the error is then that problem's.
pub proof fn lemma_over_limit_fails(
    limits: BounceLimitsView,
    address: EmailAddress,
    problems: Seq<DeliveryProblem>,
    now: u64,
    problem_type: ProblemType,
    j: int,
)
    requires
        0 <= j < limits_for(limits, problem_type).len(),
        count_within(problems, problem_type, now, limits_for(limits, problem_type)[j].period)
            > limits_for(limits, problem_type)[j].limit,
        forall|k: int|
            is_first_violation(limits, problems, now, k) ==> (#[trigger] problems[k]).problem_type
                == problem_type && in_period(
                problems[k].created_at,
                now,
                limits_for(limits, problem_type)[j].period,
            ),
    ensures
        exists|k: int|
            {
                &&& #[trigger] is_first_violation(limits, problems, now, k)
                &&& check_outcome(limits, address, problems, now) == Err::<(), AppErrorKind>(
                    AppErrorKind::violation(address, problems[k]),
                )
                &&& problems[k].problem_type == problem_type
                &&& in_period(
                    problems[k].created_at,
                    now,
                    limits_for(limits, problem_type)[j].period,
                )
            },
        match problem_type {
            ProblemType::HardBounce => check_outcome(limits, address, problems, now) matches Err(
                AppErrorKind::BounceHardError { .. },
            ),
            ProblemType::SoftBounce => check_outcome(limits, address, problems, now) matches Err(
                AppErrorKind::BounceSoftError { .. },
            ),
            ProblemType::Complaint => check_outcome(limits, address, problems, now) matches Err(
                AppErrorKind::ComplaintError { .. },
            ),
        },
{
    lemma_some_problem_over_limit(limits, problems, now, problem_type, j);
    let k = choose|k: int| 0 <= k < problems.len() && violates_at(limits, problems, now, k);
    lemma_first_violation_exists(limits, problems, now, k);
    let first = choose|first: int| is_first_violation(limits, problems, now, first);
    lemma_check_outcome(limits, address, problems, now);
    assert(problems[first].problem_type == problem_type);
}

/// A history with more problems of a category within a limit's period than
/// the limit allows holds a problem that goes over a limit, so that the
/// check fails, whatever else the history holds.
pub proof fn lemma_some_problem_over_limit(
    limits: BounceLimitsView,
    problems: Seq<DeliveryProblem>,
    now: u64,
    problem_type: ProblemType,
    j: int,
)
    requires
        0 <= j < limits_for(limits, problem_type).len(),
        count_within(problems, problem_type, now, limits_for(limits, problem_type)[j].period)
            > limits_for(limits, problem_type)[j].limit,
    ensures
        exists|k: int| 0 <= k < problems.len() && violates_at(limits, problems, now, k),
        forall|address: EmailAddress| #[trigger]
            check_outcome(limits, address, problems, now) is Err,
{
    let limit = limits_for(limits, problem_type)[j];
    let k = lemma_last_within(problems, problem_type, now, limit.period);
    lemma_count_within_bound(problems.take(k + 1), problem_type, now, limit.period);
    assert(exceeds(limit, running_count(problems, k) as int, problems[k].created_at, now));
    assert(violates_at(limits, problems, now, k));
    assert forall|address: EmailAddress| #[trigger]
        check_outcome(limits, address, problems, now) is Err by {
        lemma_check_outcome(limits, address, problems, now);
    }
}

/// A limit of zero blocks an address as soon as its history holds one
/// problem of the limit's category within the limit's period. So a bounce
/// or a complaint that was just recorded, and that the store returns with
/// a time within the period, makes the next check fail.
pub proof fn lemma_zero_limit_blocks(
    limits: BounceLimitsView,
    address: EmailAddress,
    problems: Seq<DeliveryProblem>,
    now: u64,
    i: int,
    j: int,
)
    requires
        0 <= i < problems.len(),
        0 <= j < limits_for(limits, problems[i].problem_type).len(),
        limits_for(limits, problems[i].problem_type)[j].limit == 0,
        in_period(
            problems[i].created_at,
            now,
            limits_for(limits, problems[i].problem_type)[j].period,
        ),
    ensures
        check_outcome(limits, address, problems, now) is Err,
{
    let limit = limits_for(limits, problems[i].problem_type)[j];
    assert(problems.take(i + 1).drop_last() =~= problems.take(i));
    assert(problems.take(i + 1).last() == problems[i]);
    assert(running_count(problems, i) >= 1);
    assert(exceeds(limit, running_count(problems, i) as int, problems[i].created_at, now));
    assert(violates_at(limits, problems, now, i));
    lemma_check_outcome(limits, address, problems, now);
}

/// Leaving out a problem of another category changes no count of a category.
proof fn lemma_count_of_remove(problems: Seq<DeliveryProblem>, i: int, problem_type: ProblemType)
    requires
        0 <= i < problems.len(),
        problems[i].problem_type != problem_type,
    ensures
        count_of(problems.remove(i), problem_type) == count_of(problems, problem_type),
    decreases problems.len(),
{
    if i == problems.len() - 1 {
        assert(problems.remove(i) =~= problems.drop_last());
    } else {
        assert(problems.remove(i).drop_last() =~= problems.drop_last().remove(i));
        assert(problems.remove(i).last() == problems.last());
        lemma_count_of_remove(problems.drop_last(), i, problem_type);
    }
}

/// The categories are counted apart: a problem of one category adds nothing
/// to the running count of a problem of another. Whether the problem of
/// index `k` goes over a limit is the same with and without the problem of
/// index `i`, where the two are of different categories.
pub proof fn lemma_categories_are_independent(
    limits: BounceLimitsView,
    problems: Seq<DeliveryProblem>,
    now: u64,
    i: int,
    k: int,
)
    requires
        0 <= i < problems.len(),
        0 <= k < problems.len(),
        problems[i].problem_type != problems[k].problem_type,
    ensures
        ({
            let shifted = if i < k {
                k - 1
            } else {
                k
            };
            &&& problems.remove(i)[shifted] == problems[k]
            &&& running_count(problems.remove(i), shifted) == running_count(problems, k)
            &&& violates_at(limits, problems.remove(i), now, shifted) == violates_at(
                limits,
                problems,
                now,
                k,
            )
        }),
{
    if i < k {
        assert(problems.remove(i).take(k) =~= problems.take(k + 1).remove(i));
        lemma_count_of_remove(problems.take(k + 1), i, problems[k].problem_type);
    } else {
        assert(problems.remove(i).take(k + 1) =~= problems.take(k + 1));
    }
}

} // verus!
