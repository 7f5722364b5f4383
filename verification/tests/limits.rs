use delivery_problems::app_errors::AppErrorKind;
use delivery_problems::email_address::EmailAddress;
use delivery_problems::limits::{check_problems, is_limit_violation, limits_of};
use delivery_problems::problem::{DeliveryProblem, ProblemSubtype, ProblemType};
use delivery_problems::settings::{BounceLimit, BounceLimits, Duration};

const SECOND: u64 = 1000;
const MINUTE: u64 = 60 * SECOND;
const HOUR: u64 = 60 * MINUTE;
const DAY: u64 = 24 * HOUR;
const NOW: u64 = 1_700_000_000_000;

fn address() -> EmailAddress {
    EmailAddress::new("addr@example.com".to_string())
}

fn problem(problem_type: ProblemType, created_at: u64) -> DeliveryProblem {
    DeliveryProblem {
        address: address(),
        problem_type,
        problem_subtype: ProblemSubtype::General,
        created_at,
    }
}

fn limit(limit: u8, period: u64) -> BounceLimit {
    BounceLimit {
        period: Duration(period),
        limit,
    }
}

fn no_limits() -> BounceLimits {
    BounceLimits {
        hard: vec![],
        soft: vec![],
        complaint: vec![],
    }
}

#[test]
fn no_limit_is_never_violated() {
    assert!(!is_limit_violation(200, NOW, NOW, &[]));
}

#[test]
fn count_must_strictly_exceed_the_limit() {
    let limits = [limit(2, DAY)];
    assert!(!is_limit_violation(1, NOW, NOW, &limits));
    assert!(!is_limit_violation(2, NOW, NOW, &limits));
    assert!(is_limit_violation(3, NOW, NOW, &limits));
}

#[test]
fn period_boundary_is_inclusive() {
    let limits = [limit(0, DAY)];
    assert!(is_limit_violation(1, NOW - DAY, NOW, &limits));
    assert!(!is_limit_violation(1, NOW - DAY - 1, NOW, &limits));
}

#[test]
fn period_longer_than_the_time_since_the_epoch_covers_everything() {
    let limits = [limit(0, u64::MAX)];
    assert!(is_limit_violation(1, 0, NOW, &limits));
    assert!(is_limit_violation(1, 0, 5, &[limit(0, 10)]));
}

#[test]
fn any_limit_of_the_list_can_be_violated() {
    let limits = [limit(5, DAY), limit(1, HOUR)];
    assert!(is_limit_violation(2, NOW - MINUTE, NOW, &limits));
    assert!(!is_limit_violation(2, NOW - 2 * HOUR, NOW, &limits));
    assert!(is_limit_violation(6, NOW - 2 * HOUR, NOW, &limits));
}

#[test]
fn counts_above_a_byte_are_still_counts() {
    let limits = [limit(255, DAY)];
    assert!(!is_limit_violation(255, NOW, NOW, &limits));
    assert!(is_limit_violation(256, NOW, NOW, &limits));
}

#[test]
fn limits_of_picks_the_list_of_the_category() {
    let limits = BounceLimits {
        hard: vec![limit(1, DAY)],
        soft: vec![limit(2, HOUR), limit(3, DAY)],
        complaint: vec![],
    };
    assert_eq!(limits_of(&limits, ProblemType::HardBounce), &[limit(1, DAY)]);
    assert_eq!(
        limits_of(&limits, ProblemType::SoftBounce),
        &[limit(2, HOUR), limit(3, DAY)]
    );
    assert!(limits_of(&limits, ProblemType::Complaint).is_empty());
}

#[test]
fn empty_history_passes() {
    let limits = BounceLimits {
        hard: vec![limit(0, DAY)],
        soft: vec![limit(0, DAY)],
        complaint: vec![limit(0, DAY)],
    };
    assert_eq!(check_problems(&limits, &address(), &[], NOW), Ok(()));
}

#[test]
fn third_hard_bounce_within_the_hour_violates_a_limit_of_two() {
    let limits = BounceLimits {
        hard: vec![limit(2, DAY)],
        ..no_limits()
    };
    let problems = vec![
        problem(ProblemType::HardBounce, NOW - 30 * MINUTE),
        problem(ProblemType::HardBounce, NOW - 20 * MINUTE),
        problem(ProblemType::HardBounce, NOW - 10 * MINUTE),
    ];
    assert_eq!(
        check_problems(&limits, &address(), &problems, NOW),
        Err(AppErrorKind::BounceHardError {
            address: address(),
            time: NOW - 10 * MINUTE,
            problem: problems[2].clone(),
        })
    );
}

#[test]
fn two_hard_bounces_stay_within_a_limit_of_two() {
    let limits = BounceLimits {
        hard: vec![limit(2, DAY)],
        ..no_limits()
    };
    let problems = vec![
        problem(ProblemType::HardBounce, NOW - 30 * MINUTE),
        problem(ProblemType::HardBounce, NOW - 20 * MINUTE),
    ];
    assert_eq!(check_problems(&limits, &address(), &problems, NOW), Ok(()));
}

#[test]
fn problem_outside_the_period_does_not_violate() {
    let limits = BounceLimits {
        hard: vec![limit(0, DAY)],
        ..no_limits()
    };
    let problems = vec![problem(ProblemType::HardBounce, NOW - 2 * DAY)];
    assert_eq!(check_problems(&limits, &address(), &problems, NOW), Ok(()));
}

#[test]
fn zero_limit_blocks_on_one_recent_problem() {
    let limits = BounceLimits {
        soft: vec![limit(0, HOUR)],
        ..no_limits()
    };
    let problems = vec![problem(ProblemType::SoftBounce, NOW - MINUTE)];
    assert_eq!(
        check_problems(&limits, &address(), &problems, NOW),
        Err(AppErrorKind::BounceSoftError {
            address: address(),
            time: NOW - MINUTE,
            problem: problems[0].clone(),
        })
    );
}

#[test]
fn complaint_violation_carries_the_complaint() {
    let limits = BounceLimits {
        complaint: vec![limit(1, DAY)],
        ..no_limits()
    };
    let problems = vec![
        problem(ProblemType::Complaint, NOW - 3 * HOUR),
        problem(ProblemType::Complaint, NOW - 2 * HOUR),
    ];
    assert_eq!(
        check_problems(&limits, &address(), &problems, NOW),
        Err(AppErrorKind::ComplaintError {
            address: address(),
            time: NOW - 2 * HOUR,
            problem: problems[1].clone(),
        })
    );
}

#[test]
fn category_without_limits_is_never_violated() {
    let limits = BounceLimits {
        hard: vec![limit(0, DAY)],
        ..no_limits()
    };
    let problems: Vec<DeliveryProblem> = (0..300)
        .map(|age| problem(ProblemType::SoftBounce, NOW - age))
        .collect();
    assert_eq!(check_problems(&limits, &address(), &problems, NOW), Ok(()));
}

#[test]
fn counts_of_different_categories_are_independent() {
    let limits = BounceLimits {
        hard: vec![limit(1, DAY)],
        soft: vec![limit(1, DAY)],
        complaint: vec![limit(1, DAY)],
    };
    let problems = vec![
        problem(ProblemType::HardBounce, NOW - 3 * MINUTE),
        problem(ProblemType::SoftBounce, NOW - 2 * MINUTE),
        problem(ProblemType::Complaint, NOW - MINUTE),
    ];
    assert_eq!(check_problems(&limits, &address(), &problems, NOW), Ok(()));
}

#[test]
fn first_violation_in_store_order_is_reported() {
    let limits = BounceLimits {
        hard: vec![limit(1, DAY)],
        soft: vec![limit(0, DAY)],
        complaint: vec![],
    };
    let problems = vec![
        problem(ProblemType::HardBounce, NOW - 4 * MINUTE),
        problem(ProblemType::SoftBounce, NOW - 3 * MINUTE),
        problem(ProblemType::HardBounce, NOW - 2 * MINUTE),
    ];
    assert_eq!(
        check_problems(&limits, &address(), &problems, NOW),
        Err(AppErrorKind::BounceSoftError {
            address: address(),
            time: NOW - 3 * MINUTE,
            problem: problems[1].clone(),
        })
    );
}

#[test]
fn older_problems_listed_first_count_against_a_recent_one() {
    let limits = BounceLimits {
        hard: vec![limit(1, DAY)],
        ..no_limits()
    };
    let oldest_first = vec![
        problem(ProblemType::HardBounce, NOW - 2 * DAY),
        problem(ProblemType::HardBounce, NOW - HOUR),
    ];
    assert_eq!(
        check_problems(&limits, &address(), &oldest_first, NOW),
        Err(AppErrorKind::BounceHardError {
            address: address(),
            time: NOW - HOUR,
            problem: oldest_first[1].clone(),
        })
    );
    let newest_first = vec![
        problem(ProblemType::HardBounce, NOW - HOUR),
        problem(ProblemType::HardBounce, NOW - 2 * DAY),
    ];
    assert_eq!(
        check_problems(&limits, &address(), &newest_first, NOW),
        Ok(())
    );
}

#[test]
fn more_than_a_byte_of_problems_is_counted_exactly() {
    let limits = BounceLimits {
        hard: vec![limit(255, DAY)],
        ..no_limits()
    };
    let mut problems: Vec<DeliveryProblem> = (0..255)
        .map(|age| problem(ProblemType::HardBounce, NOW - age))
        .collect();
    assert_eq!(check_problems(&limits, &address(), &problems, NOW), Ok(()));
    problems.push(problem(ProblemType::HardBounce, NOW - 7));
    assert_eq!(
        check_problems(&limits, &address(), &problems, NOW),
        Err(AppErrorKind::BounceHardError {
            address: address(),
            time: NOW - 7,
            problem: problems[255].clone(),
        })
    );
}

#[test]
fn error_carries_the_checked_address_and_the_stored_problem() {
    let limits = BounceLimits {
        hard: vec![limit(0, DAY)],
        ..no_limits()
    };
    let stored = DeliveryProblem {
        address: EmailAddress::new("Addr@Example.com".to_string()),
        problem_type: ProblemType::HardBounce,
        problem_subtype: ProblemSubtype::NoEmail,
        created_at: NOW - 5,
    };
    let result = check_problems(&limits, &address(), &[stored.clone()], NOW);
    assert_eq!(
        result,
        Err(AppErrorKind::BounceHardError {
            address: address(),
            time: NOW - 5,
            problem: stored,
        })
    );
}
