//! Delivery problems and their stable storage codes.

use crate::email_address::EmailAddress;
use crate::notification::{BounceSubtype, BounceType, ComplaintFeedbackType};
use vstd::prelude::*;
use vstd::std_specs::convert::FromSpecImpl;

verus! {

/// A storage code that names no problem type or subtype.
#[derive(Clone, Copy, Debug, PartialEq, Eq, Structural)]
pub enum DecodeError {
    /// The code is not one of a problem type.
    InvalidProblemType(u8),
    /// The code is not one of a problem subtype.
    InvalidProblemSubtype(u8),
}

/// The type of a delivery problem: a hard (permanent) bounce, a soft
/// (transient) bounce, or a complaint such as a user marking an email as spam.
#[derive(Clone, Copy, Debug, Hash, PartialEq, Eq, Structural)]
pub enum ProblemType {
    HardBounce,
    SoftBounce,
    Complaint,
}

impl ProblemType {
    /// The code under which the type is stored.
    pub open spec fn code(self) -> u8 {
        match self {
            ProblemType::HardBounce => 1,
            ProblemType::SoftBounce => 2,
            ProblemType::Complaint => 3,
        }
    }

    /// The type that a stored code stands for. Code 0 is what older stores
    /// wrote for a type they did not recognise; it reads as a soft bounce.
    pub open spec fn decode(value: u8) -> Result<ProblemType, DecodeError> {
        match value {
            0 => Ok(ProblemType::SoftBounce),
            1 => Ok(ProblemType::HardBounce),
            2 => Ok(ProblemType::SoftBounce),
            3 => Ok(ProblemType::Complaint),
            _ => Err(DecodeError::InvalidProblemType(value)),
        }
    }

    /// The type under which a bounce is stored. A permanent bounce is a hard
    /// bounce. A transient bounce is a soft bounce, and so is one whose kind
    /// the provider could not determine.
    pub open spec fn of_bounce(bounce_type: BounceType) -> ProblemType {
        match bounce_type {
            BounceType::Undetermined => ProblemType::SoftBounce,
            BounceType::Permanent => ProblemType::HardBounce,
            BounceType::Transient => ProblemType::SoftBounce,
        }
    }

    /// Whether a stored code is the legacy value 0, which decodes to
    /// a soft bounce without being the code of one.
    pub open spec fn legacy_code(value: u8) -> bool {
        value == 0
    }

    /// Encodes the type for storage.
    pub fn serialize(&self) -> (value: u8)
        ensures
            value == self.code(),
            1 <= value <= 3,
    {
        match self {
            ProblemType::HardBounce => 1,
            ProblemType::SoftBounce => 2,
            ProblemType::Complaint => 3,
        }
    }

    /// Decodes a stored code. Fails exactly on the codes above 3.
    pub fn deserialize(value: u8) -> (result: Result<ProblemType, DecodeError>)
        ensures
            result == ProblemType::decode(value),
            value == 0 ==> result == Ok::<ProblemType, DecodeError>(ProblemType::SoftBounce),
            value > 3 <==> result is Err,
            result is Err ==> result == Err::<ProblemType, DecodeError>(
                DecodeError::InvalidProblemType(value),
            ),
    {
        match value {
            // Older stores fall back to zero for a type they do not
            // recognise. Callers learn of it from `is_legacy_code`.
            0 => Ok(ProblemType::SoftBounce),
            1 => Ok(ProblemType::HardBounce),
            2 => Ok(ProblemType::SoftBounce),
            3 => Ok(ProblemType::Complaint),
            _ => Err(DecodeError::InvalidProblemType(value)),
        }
    }

    /// Tells whether decoding `value` takes the legacy fallback, so that
    /// the caller can record that an upstream system still writes it.
    pub fn is_legacy_code(value: u8) -> (legacy: bool)
        ensures
            legacy == ProblemType::legacy_code(value),
            legacy ==> ProblemType::decode(value) == Ok::<ProblemType, DecodeError>(
                ProblemType::SoftBounce,
            ),
    {
        value == 0
    }
}

/// The problem subtype: the underlying cause of a bounce or complaint.
#[derive(Clone, Copy, Debug, PartialEq, Eq, Structural)]
pub enum ProblemSubtype {
    /// No information: the store did not recognise the cause.
    Unmapped,
    // Causes of bounces.
    Undetermined,
    General,
    NoEmail,
    Suppressed,
    MailboxFull,
    MessageTooLarge,
    ContentRejected,
    AttachmentRejected,
    // Kinds of complaint feedback.
    Abuse,
    AuthFailure,
    Fraud,
    NotSpam,
    Other,
    Virus,
}

impl ProblemSubtype {
    /// The code under which the subtype is stored.
    pub open spec fn code(self) -> u8 {
        match self {
            ProblemSubtype::Unmapped => 0,
            ProblemSubtype::Undetermined => 1,
            ProblemSubtype::General => 2,
            ProblemSubtype::NoEmail => 3,
            ProblemSubtype::Suppressed => 4,
            ProblemSubtype::MailboxFull => 5,
            ProblemSubtype::MessageTooLarge => 6,
            ProblemSubtype::ContentRejected => 7,
            ProblemSubtype::AttachmentRejected => 8,
            ProblemSubtype::Abuse => 9,
            ProblemSubtype::AuthFailure => 10,
            ProblemSubtype::Fraud => 11,
            ProblemSubtype::NotSpam => 12,
            ProblemSubtype::Other => 13,
            ProblemSubtype::Virus => 14,
        }
    }

    /// The subtype that a stored code stands for.
    pub open spec fn decode(value: u8) -> Result<ProblemSubtype, DecodeError> {
        match value {
            0 => Ok(ProblemSubtype::Unmapped),
            1 => Ok(ProblemSubtype::Undetermined),
            2 => Ok(ProblemSubtype::General),
            3 => Ok(ProblemSubtype::NoEmail),
            4 => Ok(ProblemSubtype::Suppressed),
            5 => Ok(ProblemSubtype::MailboxFull),
            6 => Ok(ProblemSubtype::MessageTooLarge),
            7 => Ok(ProblemSubtype::ContentRejected),
            8 => Ok(ProblemSubtype::AttachmentRejected),
            9 => Ok(ProblemSubtype::Abuse),
            10 => Ok(ProblemSubtype::AuthFailure),
            11 => Ok(ProblemSubtype::Fraud),
            12 => Ok(ProblemSubtype::NotSpam),
            13 => Ok(ProblemSubtype::Other),
            14 => Ok(ProblemSubtype::Virus),
            _ => Err(DecodeError::InvalidProblemSubtype(value)),
        }
    }

    /// The subtype under which the cause of a bounce is stored: the one of
    /// the same name.
    pub open spec fn of_bounce(bounce_subtype: BounceSubtype) -> ProblemSubtype {
        match bounce_subtype {
            BounceSubtype::Undetermined => ProblemSubtype::Undetermined,
            BounceSubtype::General => ProblemSubtype::General,
            BounceSubtype::NoEmail => ProblemSubtype::NoEmail,
            BounceSubtype::Suppressed => ProblemSubtype::Suppressed,
            BounceSubtype::MailboxFull => ProblemSubtype::MailboxFull,
            BounceSubtype::MessageTooLarge => ProblemSubtype::MessageTooLarge,
            BounceSubtype::ContentRejected => ProblemSubtype::ContentRejected,
            BounceSubtype::AttachmentRejected => ProblemSubtype::AttachmentRejected,
        }
    }

    /// The subtype under which a kind of complaint feedback is stored: the
    /// one of the same name.
    pub open spec fn of_complaint(complaint_type: ComplaintFeedbackType) -> ProblemSubtype {
        match complaint_type {
            ComplaintFeedbackType::Abuse => ProblemSubtype::Abuse,
            ComplaintFeedbackType::AuthFailure => ProblemSubtype::AuthFailure,
            ComplaintFeedbackType::Fraud => ProblemSubtype::Fraud,
            ComplaintFeedbackType::NotSpam => ProblemSubtype::NotSpam,
            ComplaintFeedbackType::Other => ProblemSubtype::Other,
            ComplaintFeedbackType::Virus => ProblemSubtype::Virus,
        }
    }

    /// Whether the subtype is a cause of a bounce (codes 1 to 8).
    pub open spec fn is_bounce_cause(self) -> bool {
        1 <= self.code() <= 8
    }

    /// Whether the subtype is a kind of complaint feedback (codes 9 to 14).
    pub open spec fn is_complaint_feedback(self) -> bool {
        9 <= self.code() <= 14
    }

    /// Encodes the subtype for storage.
    pub fn serialize(&self) -> (value: u8)
        ensures
            value == self.code(),
            value <= 14,
    {
        match self {
            ProblemSubtype::Unmapped => 0,
            ProblemSubtype::Undetermined => 1,
            ProblemSubtype::General => 2,
            ProblemSubtype::NoEmail => 3,
            ProblemSubtype::Suppressed => 4,
            ProblemSubtype::MailboxFull => 5,
            ProblemSubtype::MessageTooLarge => 6,
            ProblemSubtype::ContentRejected => 7,
            ProblemSubtype::AttachmentRejected => 8,
            ProblemSubtype::Abuse => 9,
            ProblemSubtype::AuthFailure => 10,
            ProblemSubtype::Fraud => 11,
            ProblemSubtype::NotSpam => 12,
            ProblemSubtype::Other => 13,
            ProblemSubtype::Virus => 14,
        }
    }

    /// Decodes a stored code. Fails exactly on the codes above 14.
    pub fn deserialize(value: u8) -> (result: Result<ProblemSubtype, DecodeError>)
        ensures
            result == ProblemSubtype::decode(value),
            value > 14 <==> result is Err,
            result is Err ==> result == Err::<ProblemSubtype, DecodeError>(
                DecodeError::InvalidProblemSubtype(value),
            ),
            result matches Ok(subtype) ==> subtype.code() == value,
    {
        match value {
            0 => Ok(ProblemSubtype::Unmapped),
            1 => Ok(ProblemSubtype::Undetermined),
            2 => Ok(ProblemSubtype::General),
            3 => Ok(ProblemSubtype::NoEmail),
            4 => Ok(ProblemSubtype::Suppressed),
            5 => Ok(ProblemSubtype::MailboxFull),
            6 => Ok(ProblemSubtype::MessageTooLarge),
            7 => Ok(ProblemSubtype::ContentRejected),
            8 => Ok(ProblemSubtype::AttachmentRejected),
            9 => Ok(ProblemSubtype::Abuse),
            10 => Ok(ProblemSubtype::AuthFailure),
            11 => Ok(ProblemSubtype::Fraud),
            12 => Ok(ProblemSubtype::NotSpam),
            13 => Ok(ProblemSubtype::Other),
            14 => Ok(ProblemSubtype::Virus),
            _ => Err(DecodeError::InvalidProblemSubtype(value)),
        }
    }
}

/// Encoding a problem type and decoding the code gives the type back.
pub proof fn lemma_problem_type_round_trip(problem_type: ProblemType)
    ensures
        ProblemType::decode(problem_type.code()) == Ok::<ProblemType, DecodeError>(problem_type),
        1 <= problem_type.code() <= 3,
{
}

/// Encoding a problem subtype and decoding the code gives the subtype back.
pub proof fn lemma_problem_subtype_round_trip(problem_subtype: ProblemSubtype)
    ensures
        ProblemSubtype::decode(problem_subtype.code()) == Ok::<ProblemSubtype, DecodeError>(
            problem_subtype,
        ),
        problem_subtype.code() <= 14,
{
}

/// Which codes decode: 0 to 3 for a problem type, of which 0 reads as
/// a soft bounce, and 0 to 14 for a subtype. Every other code is an error
/// that names the code. A code that decodes is the code of what it decodes
/// to, but for the legacy 0 of a problem type.
pub proof fn lemma_decodable_codes(value: u8)
    ensures
        ProblemType::decode(0) == Ok::<ProblemType, DecodeError>(ProblemType::SoftBounce),
        value <= 3 <==> ProblemType::decode(value) is Ok,
        value > 3 ==> ProblemType::decode(value) == Err::<ProblemType, DecodeError>(
            DecodeError::InvalidProblemType(value),
        ),
        ProblemType::decode(value) matches Ok(problem_type) ==> problem_type.code() == value
            || ProblemType::legacy_code(value),
        value <= 14 <==> ProblemSubtype::decode(value) is Ok,
        value > 14 ==> ProblemSubtype::decode(value) == Err::<ProblemSubtype, DecodeError>(
            DecodeError::InvalidProblemSubtype(value),
        ),
        ProblemSubtype::decode(value) matches Ok(problem_subtype) ==> problem_subtype.code()
            == value,
{
}

impl From<BounceType> for ProblemType {
    fn from(bounce_type: BounceType) -> (problem_type: ProblemType)
        ensures
            problem_type == ProblemType::of_bounce(bounce_type),
    {
        match bounce_type {
            BounceType::Undetermined => ProblemType::SoftBounce,
            BounceType::Permanent => ProblemType::HardBounce,
            BounceType::Transient => ProblemType::SoftBounce,
        }
    }
}

impl FromSpecImpl<BounceType> for ProblemType {
    open spec fn obeys_from_spec() -> bool {
        true
    }

    open spec fn from_spec(bounce_type: BounceType) -> ProblemType {
        ProblemType::of_bounce(bounce_type)
    }
}

impl From<BounceSubtype> for ProblemSubtype {
    fn from(bounce_subtype: BounceSubtype) -> (problem_subtype: ProblemSubtype)
        ensures
            problem_subtype == ProblemSubtype::of_bounce(bounce_subtype),
            problem_subtype.is_bounce_cause(),
    {
        match bounce_subtype {
            BounceSubtype::Undetermined => ProblemSubtype::Undetermined,
            BounceSubtype::General => ProblemSubtype::General,
            BounceSubtype::NoEmail => ProblemSubtype::NoEmail,
            BounceSubtype::Suppressed => ProblemSubtype::Suppressed,
            BounceSubtype::MailboxFull => ProblemSubtype::MailboxFull,
            BounceSubtype::MessageTooLarge => ProblemSubtype::MessageTooLarge,
            BounceSubtype::ContentRejected => ProblemSubtype::ContentRejected,
            BounceSubtype::AttachmentRejected => ProblemSubtype::AttachmentRejected,
        }
    }
}

impl FromSpecImpl<BounceSubtype> for ProblemSubtype {
    open spec fn obeys_from_spec() -> bool {
        true
    }

    open spec fn from_spec(bounce_subtype: BounceSubtype) -> ProblemSubtype {
        ProblemSubtype::of_bounce(bounce_subtype)
    }
}

impl From<ComplaintFeedbackType> for ProblemSubtype {
    fn from(complaint_type: ComplaintFeedbackType) -> (problem_subtype: ProblemSubtype)
        ensures
            problem_subtype == ProblemSubtype::of_complaint(complaint_type),
            problem_subtype.is_complaint_feedback(),
    {
        match complaint_type {
            ComplaintFeedbackType::Abuse => ProblemSubtype::Abuse,
            ComplaintFeedbackType::AuthFailure => ProblemSubtype::AuthFailure,
            ComplaintFeedbackType::Fraud => ProblemSubtype::Fraud,
            ComplaintFeedbackType::NotSpam => ProblemSubtype::NotSpam,
            ComplaintFeedbackType::Other => ProblemSubtype::Other,
            ComplaintFeedbackType::Virus => ProblemSubtype::Virus,
        }
    }
}

impl FromSpecImpl<ComplaintFeedbackType> for ProblemSubtype {
    open spec fn obeys_from_spec() -> bool {
        true
    }

    open spec fn from_spec(complaint_type: ComplaintFeedbackType) -> ProblemSubtype {
        ProblemSubtype::of_complaint(complaint_type)
    }
}

/// One delivery problem of an address: a bounced email or a complaint.
///
/// A record is a value: the store creates it, and nothing changes it
/// afterwards.
#[derive(Debug, PartialEq, Eq)]
pub struct DeliveryProblem {
    pub address: EmailAddress,
    pub problem_type: ProblemType,
    pub problem_subtype: ProblemSubtype,
    /// When the problem was recorded, in milliseconds since the epoch.
    pub created_at: u64,
}

impl Clone for DeliveryProblem {
    fn clone(&self) -> (copy: DeliveryProblem)
        ensures
            copy == *self,
    {
        DeliveryProblem {
            address: self.address.clone(),
            problem_type: self.problem_type,
            problem_subtype: self.problem_subtype,
            created_at: self.created_at,
        }
    }
}

} // verus!
