//! How an inbound provider notification classifies a bounce or a complaint.

use vstd::prelude::*;

verus! {

/// Whether a bounce is permanent, transient, or of a kind that the provider
/// could not determine.
#[derive(Clone, Copy, Debug, PartialEq, Eq, Structural)]
pub enum BounceType {
    Undetermined,
    Permanent,
    Transient,
}

/// The cause that the provider gives for a bounce.
#[derive(Clone, Copy, Debug, PartialEq, Eq, Structural)]
pub enum BounceSubtype {
    Undetermined,
    General,
    NoEmail,
    Suppressed,
    MailboxFull,
    MessageTooLarge,
    ContentRejected,
    AttachmentRejected,
}

/// The kind of feedback that a complaint carries.
#[derive(Clone, Copy, Debug, PartialEq, Eq, Structural)]
pub enum ComplaintFeedbackType {
    Abuse,
    AuthFailure,
    Fraud,
    NotSpam,
    Other,
    Virus,
}

} // verus!
