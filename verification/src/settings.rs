//! The limits that the registry is configured with.

use vstd::prelude::*;

verus! {

/// A length of time in milliseconds.
#[derive(Clone, Copy, Debug, PartialEq, Eq, Structural)]
pub struct Duration(pub u64);

/// One threshold: more than `limit` problems, the latest of them no older
/// than `period`, block an address.
#[derive(Clone, Copy, Debug, PartialEq, Eq, Structural)]
pub struct BounceLimit {
    pub period: Duration,
    pub limit: u8,
}

/// The thresholds for each category of delivery problem, in the order in
/// which they are evaluated.
#[derive(Debug, PartialEq, Eq)]
pub struct BounceLimits {
    pub hard: Vec<BounceLimit>,
    pub soft: Vec<BounceLimit>,
    pub complaint: Vec<BounceLimit>,
}

/// The three lists of thresholds as sequences.
pub struct BounceLimitsView {
    pub hard: Seq<BounceLimit>,
    pub soft: Seq<BounceLimit>,
    pub complaint: Seq<BounceLimit>,
}

impl View for BounceLimits {
    type V = BounceLimitsView;

    open spec fn view(&self) -> BounceLimitsView {
        BounceLimitsView { hard: self.hard@, soft: self.soft@, complaint: self.complaint@ }
    }
}

impl Clone for BounceLimits {
    fn clone(&self) -> (copy: BounceLimits)
        ensures
            copy@ == self@,
    {
        BounceLimits {
            hard: self.hard.clone(),
            soft: self.soft.clone(),
            complaint: self.complaint.clone(),
        }
    }
}

/// The part of the application's configuration that the registry reads.
#[derive(Debug, PartialEq, Eq)]
pub struct Settings {
    pub bouncelimits: BounceLimits,
}

} // verus!
