//! CONSEQUENCE → REASSESSMENT: reassessment is new history, never a silent
//! rewrite of an earlier decision.

use crate::text::is_blank;
use crate::time::Timestamp;
use vstd::prelude::*;

verus! {

/// A consequence of an execution, with its evidence basis.
#[derive(Debug, Clone, PartialEq, Eq)]
pub struct ConsequenceReceipt {
    pub consequence_id: u128,
    pub execution_id: u128,
    pub observed_at: Timestamp,
    pub summary: String,
    pub evidence: Vec<u128>,
    pub contradictions: Vec<String>,
}

impl ConsequenceReceipt {
    /// Reviewable only with a non-empty summary and a non-empty evidence basis.
    pub fn is_reviewable(&self) -> (reviewable: bool)
        ensures
            reviewable == (self.summary@.len() > 0 && self.evidence@.len() > 0),
    {
        !is_blank(&self.summary) && self.evidence.len() > 0
    }
}

#[derive(Debug, Clone, Copy, PartialEq, Eq, Structural)]
pub enum ReassessmentTrigger {
    NewEvidence,
    Contradiction,
    Consequence,
    AuthorityChange,
    Revocation,
    Expiration,
    Supersession,
}

#[derive(Debug, Clone, PartialEq, Eq)]
pub struct Reassessment {
    pub reassessment_id: u128,
    pub question_id: u128,
    pub trigger: ReassessmentTrigger,
    pub evidence: Vec<u128>,
    pub rationale: String,
}

impl Reassessment {
    /// Every trigger requires a new decision cycle.
    pub fn requires_new_decision(&self) -> (required: bool)
        ensures
            required,
    {
        match self.trigger {
            ReassessmentTrigger::NewEvidence
            | ReassessmentTrigger::Contradiction
            | ReassessmentTrigger::Consequence
            | ReassessmentTrigger::AuthorityChange
            | ReassessmentTrigger::Revocation
            | ReassessmentTrigger::Expiration
            | ReassessmentTrigger::Supersession => true,
        }
    }
}

} // verus!
