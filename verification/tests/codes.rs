use delivery_problems::notification::{BounceSubtype, BounceType, ComplaintFeedbackType};
use delivery_problems::problem::{DecodeError, ProblemSubtype, ProblemType};

fn all_subtypes() -> Vec<ProblemSubtype> {
    vec![
        ProblemSubtype::Unmapped,
        ProblemSubtype::Undetermined,
        ProblemSubtype::General,
        ProblemSubtype::NoEmail,
        ProblemSubtype::Suppressed,
        ProblemSubtype::MailboxFull,
        ProblemSubtype::MessageTooLarge,
        ProblemSubtype::ContentRejected,
        ProblemSubtype::AttachmentRejected,
        ProblemSubtype::Abuse,
        ProblemSubtype::AuthFailure,
        ProblemSubtype::Fraud,
        ProblemSubtype::NotSpam,
        ProblemSubtype::Other,
        ProblemSubtype::Virus,
    ]
}

#[test]
fn problem_type_codes_are_stable() {
    assert_eq!(ProblemType::HardBounce.serialize(), 1);
    assert_eq!(ProblemType::SoftBounce.serialize(), 2);
    assert_eq!(ProblemType::Complaint.serialize(), 3);
}

#[test]
fn problem_type_decodes_each_code() {
    assert_eq!(ProblemType::deserialize(1), Ok(ProblemType::HardBounce));
    assert_eq!(ProblemType::deserialize(2), Ok(ProblemType::SoftBounce));
    assert_eq!(ProblemType::deserialize(3), Ok(ProblemType::Complaint));
}

#[test]
fn problem_type_round_trips() {
    for problem_type in [
        ProblemType::HardBounce,
        ProblemType::SoftBounce,
        ProblemType::Complaint,
    ] {
        assert_eq!(
            ProblemType::deserialize(problem_type.serialize()),
            Ok(problem_type)
        );
    }
}

#[test]
fn problem_type_decodes_legacy_zero_as_soft_bounce() {
    assert_eq!(ProblemType::deserialize(0), Ok(ProblemType::SoftBounce));
    assert!(ProblemType::is_legacy_code(0));
}

#[test]
fn only_zero_is_a_legacy_code() {
    for value in 1..=255u8 {
        assert!(!ProblemType::is_legacy_code(value));
    }
}

#[test]
fn problem_type_rejects_unknown_codes() {
    for value in 4..=255u8 {
        assert_eq!(
            ProblemType::deserialize(value),
            Err(DecodeError::InvalidProblemType(value))
        );
    }
}

#[test]
fn problem_subtype_codes_are_stable() {
    let subtypes = all_subtypes();
    assert_eq!(subtypes.len(), 15);
    for (code, subtype) in subtypes.iter().enumerate() {
        assert_eq!(usize::from(subtype.serialize()), code);
    }
    assert_eq!(ProblemSubtype::Unmapped.serialize(), 0);
    assert_eq!(ProblemSubtype::AttachmentRejected.serialize(), 8);
    assert_eq!(ProblemSubtype::Abuse.serialize(), 9);
    assert_eq!(ProblemSubtype::Virus.serialize(), 14);
}

#[test]
fn problem_subtype_decodes_each_code() {
    let subtypes = all_subtypes();
    for value in 0..=14u8 {
        assert_eq!(
            ProblemSubtype::deserialize(value),
            Ok(subtypes[usize::from(value)])
        );
    }
}

#[test]
fn problem_subtype_round_trips() {
    for subtype in all_subtypes() {
        assert_eq!(ProblemSubtype::deserialize(subtype.serialize()), Ok(subtype));
    }
}

#[test]
fn problem_subtype_rejects_unknown_codes() {
    for value in 15..=255u8 {
        assert_eq!(
            ProblemSubtype::deserialize(value),
            Err(DecodeError::InvalidProblemSubtype(value))
        );
    }
}

#[test]
fn bounce_types_map_to_problem_types() {
    assert_eq!(
        ProblemType::from(BounceType::Permanent),
        ProblemType::HardBounce
    );
    assert_eq!(
        ProblemType::from(BounceType::Transient),
        ProblemType::SoftBounce
    );
    assert_eq!(
        ProblemType::from(BounceType::Undetermined),
        ProblemType::SoftBounce
    );
}

#[test]
fn bounce_subtypes_map_to_codes_one_to_eight() {
    let causes = [
        (BounceSubtype::Undetermined, ProblemSubtype::Undetermined, 1u8),
        (BounceSubtype::General, ProblemSubtype::General, 2),
        (BounceSubtype::NoEmail, ProblemSubtype::NoEmail, 3),
        (BounceSubtype::Suppressed, ProblemSubtype::Suppressed, 4),
        (BounceSubtype::MailboxFull, ProblemSubtype::MailboxFull, 5),
        (BounceSubtype::MessageTooLarge, ProblemSubtype::MessageTooLarge, 6),
        (BounceSubtype::ContentRejected, ProblemSubtype::ContentRejected, 7),
        (
            BounceSubtype::AttachmentRejected,
            ProblemSubtype::AttachmentRejected,
            8,
        ),
    ];
    for (cause, subtype, code) in causes {
        assert_eq!(ProblemSubtype::from(cause), subtype);
        assert_eq!(ProblemSubtype::from(cause).serialize(), code);
    }
}

#[test]
fn complaint_feedback_maps_to_codes_nine_to_fourteen() {
    let kinds = [
        (ComplaintFeedbackType::Abuse, ProblemSubtype::Abuse, 9u8),
        (ComplaintFeedbackType::AuthFailure, ProblemSubtype::AuthFailure, 10),
        (ComplaintFeedbackType::Fraud, ProblemSubtype::Fraud, 11),
        (ComplaintFeedbackType::NotSpam, ProblemSubtype::NotSpam, 12),
        (ComplaintFeedbackType::Other, ProblemSubtype::Other, 13),
        (ComplaintFeedbackType::Virus, ProblemSubtype::Virus, 14),
    ];
    for (kind, subtype, code) in kinds {
        assert_eq!(ProblemSubtype::from(kind), subtype);
        assert_eq!(ProblemSubtype::from(kind).serialize(), code);
    }
}
