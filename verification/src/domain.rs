//! Constitutional domain objects: question, evidence, epistemic state,
//! threshold, decision, authority and authorization.
//!
//! Identifiers are 128-bit UUID values.

use crate::text::{contains_text, copy_texts};
use vstd::prelude::*;

verus! {

/// Identifies a question.
#[derive(Debug, Clone, Copy, PartialEq, Eq, Hash, Structural)]
pub struct QuestionId(pub u128);

/// Identifies an evidence item.
#[derive(Debug, Clone, Copy, PartialEq, Eq, Hash, Structural)]
pub struct EvidenceId(pub u128);

/// Identifies a decision.
#[derive(Debug, Clone, Copy, PartialEq, Eq, Hash, Structural)]
pub struct DecisionId(pub u128);

/// Identifies an authorization.
#[derive(Debug, Clone, Copy, PartialEq, Eq, Hash, Structural)]
pub struct AuthorizationId(pub u128);

/// Identifies an authority.
#[derive(Debug, Clone, Copy, PartialEq, Eq, Hash, Structural)]
pub struct AuthorityId(pub u128);

impl QuestionId {
    pub fn new(value: u128) -> (id: Self)
        ensures
            id.0 == value,
    {
        QuestionId(value)
    }

    pub fn value(self) -> (value: u128)
        ensures
            value == self.0,
    {
        self.0
    }
}

impl EvidenceId {
    pub fn new(value: u128) -> (id: Self)
        ensures
            id.0 == value,
    {
        EvidenceId(value)
    }

    pub fn value(self) -> (value: u128)
        ensures
            value == self.0,
    {
        self.0
    }
}

impl DecisionId {
    pub fn new(value: u128) -> (id: Self)
        ensures
            id.0 == value,
    {
        DecisionId(value)
    }

    pub fn value(self) -> (value: u128)
        ensures
            value == self.0,
    {
        self.0
    }
}

impl AuthorizationId {
    pub fn new(value: u128) -> (id: Self)
        ensures
            id.0 == value,
    {
        AuthorizationId(value)
    }

    pub fn value(self) -> (value: u128)
        ensures
            value == self.0,
    {
        self.0
    }
}

impl AuthorityId {
    pub fn new(value: u128) -> (id: Self)
        ensures
            id.0 == value,
    {
        AuthorityId(value)
    }

    pub fn value(self) -> (value: u128)
        ensures
            value == self.0,
    {
        self.0
    }
}

/// A question: its subject and the contextual frame it is asked in.
#[derive(Debug, Clone, PartialEq, Eq)]
pub struct Question {
    pub id: QuestionId,
    pub subject: String,
    pub context: String,
}

impl Question {
    pub fn new(id: QuestionId, subject: String, context: String) -> (question: Self)
        ensures
            question == (Question { id, subject, context }),
    {
        Question { id, subject, context }
    }
}

/// An exact copy of a question.
pub fn copy_question(question: &Question) -> (copy: Question)
    ensures
        copy == *question,
{
    Question { id: question.id, subject: question.subject.clone(), context: question.context.clone() }
}

/// How much is known about an evidence item.
#[derive(Debug, Clone, Copy, PartialEq, Eq, Structural)]
pub enum EpistemicStatus {
    Known,
    Unknown,
    Disputed,
}

/// An evidence item recorded for a question.
#[derive(Debug, Clone, PartialEq, Eq)]
pub struct Evidence {
    pub id: EvidenceId,
    pub question_id: QuestionId,
    pub source: String,
    pub origin: String,
    pub content_digest: String,
    pub relevance: String,
    pub limitations: Vec<String>,
    pub status: EpistemicStatus,
}

impl Evidence {
    /// Only explicitly known evidence may support a decision: unknown and
    /// disputed evidence is never promoted to usable evidence.
    pub fn is_usable(&self) -> (usable: bool)
        ensures
            usable == (self.status == EpistemicStatus::Known),
    {
        self.status == EpistemicStatus::Known
    }
}

/// The epistemic state of a question: known, unknown and disputed material
/// kept apart, with assumptions, contradictions and limitations explicit.
#[derive(Debug, Clone, PartialEq, Eq)]
pub struct EpistemicState {
    pub question_id: QuestionId,
    pub known: Vec<String>,
    pub unknown: Vec<String>,
    pub disputed: Vec<String>,
    pub assumptions: Vec<String>,
    pub contradictions: Vec<String>,
    pub limitations: Vec<String>,
}

/// Whether the decision threshold of a question is met.
#[derive(Debug, Clone, Copy, PartialEq, Eq, Structural)]
pub enum ThresholdState {
    NotEvaluated,
    Satisfied,
    Unsatisfied,
    Indeterminate,
}

/// The threshold assessment of a question and the evidence it rests on.
#[derive(Debug, Clone, PartialEq, Eq)]
pub struct ThresholdAssessment {
    pub question_id: QuestionId,
    pub state: ThresholdState,
    pub basis: Vec<EvidenceId>,
    pub rationale: String,
}

#[derive(Debug, Clone, Copy, PartialEq, Eq, Structural)]
pub enum DecisionVerdict {
    Allow,
    Deny,
    Defer,
    Escalate,
    Unknown,
}

/// The scope of an authority, an authorization or an execution request.
#[derive(Debug, Clone, PartialEq, Eq)]
pub struct Scope {
    pub target: String,
    pub operations: Vec<String>,
    pub territory: String,
    pub purpose: String,
}

pub ghost struct ScopeView {
    pub target: Seq<char>,
    pub operations: Seq<Seq<char>>,
    pub territory: Seq<char>,
    pub purpose: Seq<char>,
}

impl View for Scope {
    type V = ScopeView;

    open spec fn view(&self) -> ScopeView {
        ScopeView {
            target: self.target@,
            operations: self.operations.deep_view(),
            territory: self.territory@,
            purpose: self.purpose@,
        }
    }
}

/// `inner` lies within `outer`: the same target, territory and purpose, and
/// every operation of `inner` is an operation of `outer`.
pub open spec fn scope_within(inner: ScopeView, outer: ScopeView) -> bool {
    &&& inner.target == outer.target
    &&& inner.territory == outer.territory
    &&& inner.purpose == outer.purpose
    &&& forall|i: int| 0 <= i < inner.operations.len() ==> outer.operations.contains(#[trigger] inner.operations[i])
}

impl Scope {
    /// Whether `other` is contained in this scope.
    pub fn contains(&self, other: &Scope) -> (contained: bool)
        ensures
            contained == scope_within(other@, self@),
    {
        if self.target != other.target || self.territory != other.territory || self.purpose != other.purpose {
            return false;
        }
        let mut i: usize = 0;
        while i < other.operations.len()
            invariant
                0 <= i <= other.operations.len(),
                forall|j: int| 0 <= j < i ==> self@.operations.contains(#[trigger] other@.operations[j]),
            decreases other.operations.len() - i,
        {
            if !contains_text(&self.operations, &other.operations[i]) {
                assert(!self@.operations.contains(other@.operations[i as int]));
                return false;
            }
            i = i + 1;
        }
        true
    }
}

/// A copy of a scope with the same view.
pub fn copy_scope(scope: &Scope) -> (copy: Scope)
    ensures
        copy@ == scope@,
{
    Scope {
        target: scope.target.clone(),
        operations: copy_texts(&scope.operations),
        territory: scope.territory.clone(),
        purpose: scope.purpose.clone(),
    }
}

#[derive(Debug, Clone, PartialEq, Eq)]
pub struct Decision {
    pub id: DecisionId,
    pub question_id: QuestionId,
    pub verdict: DecisionVerdict,
}

impl Decision {
    pub fn can_authorize(&self) -> (allowed: bool)
        ensures
            allowed == (self.verdict == DecisionVerdict::Allow),
    {
        self.verdict == DecisionVerdict::Allow
    }

    pub fn is_allow(&self) -> (allow: bool)
        ensures
            allow == (self.verdict == DecisionVerdict::Allow),
    {
        self.verdict == DecisionVerdict::Allow
    }
}

#[derive(Debug, Clone, Copy, PartialEq, Eq, Structural)]
pub enum AuthorityStatus {
    Active,
    Suspended,
    Revoked,
    Expired,
}

/// A governing authority and the scope it governs.
#[derive(Debug, Clone, PartialEq, Eq)]
pub struct Authority {
    pub id: AuthorityId,
    pub scope: Scope,
    pub status: AuthorityStatus,
}

#[derive(Debug, Clone, Copy, PartialEq, Eq, Structural)]
pub enum AuthorizationStatus {
    Active,
    Suspended,
    Revoked,
    Expired,
    Superseded,
}

/// An authorization, bound to the decision and the authority it was issued
/// under.
#[derive(Debug, Clone, PartialEq, Eq)]
pub struct Authorization {
    pub id: AuthorizationId,
    pub decision_id: DecisionId,
    pub authority_id: AuthorityId,
    pub scope: Scope,
    pub status: AuthorizationStatus,
}

pub ghost struct AuthorizationView {
    pub id: AuthorizationId,
    pub decision_id: DecisionId,
    pub authority_id: AuthorityId,
    pub scope: ScopeView,
    pub status: AuthorizationStatus,
}

impl View for Authorization {
    type V = AuthorizationView;

    open spec fn view(&self) -> AuthorizationView {
        AuthorizationView {
            id: self.id,
            decision_id: self.decision_id,
            authority_id: self.authority_id,
            scope: self.scope@,
            status: self.status,
        }
    }
}

impl Authorization {
    /// The same authorization with its status set to `Revoked`; all
    /// identities and the scope are kept.
    pub fn revoked(&self) -> (revoked: Authorization)
        ensures
            revoked@ == (AuthorizationView { status: AuthorizationStatus::Revoked, ..self@ }),
    {
        Authorization {
            id: self.id,
            decision_id: self.decision_id,
            authority_id: self.authority_id,
            scope: copy_scope(&self.scope),
            status: AuthorizationStatus::Revoked,
        }
    }
}

} // verus!
