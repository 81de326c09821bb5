//! THRESHOLD → DECISION.

use crate::assessment::{
    assess, epistemic_state_matches, evidence_about, AssessmentError,
};
use crate::domain::{
    copy_question, Decision, DecisionId, DecisionVerdict, EpistemicState, EpistemicStatus,
    Evidence, EvidenceId, Question, ThresholdAssessment, ThresholdState,
};
use vstd::prelude::*;

verus! {

#[derive(Debug, Clone, PartialEq, Eq)]
pub enum DecisionEvaluationError {
    Assessment(AssessmentError),
    ThresholdNotSatisfied,
    QuestionMismatch,
    MissingThresholdEvidence,
    UnusableEvidence,
}

#[derive(Debug, Clone, PartialEq, Eq)]
pub struct DecisionEvaluation {
    pub decision: Decision,
    pub question: Question,
    pub epistemic_state: EpistemicState,
    pub threshold: ThresholdAssessment,
}

/// `index` is the first position of an evidence item with identity `id`.
pub open spec fn first_with_id(evidence: Seq<Evidence>, id: EvidenceId, index: int) -> bool {
    &&& 0 <= index < evidence.len()
    &&& evidence[index].id == id
    &&& forall|j: int| 0 <= j < index ==> (#[trigger] evidence[j]).id != id
}

/// What the first evidence item named `id` says about a basis entry: it is
/// missing, it is unusable, or (`None`) it supports the decision.
pub open spec fn basis_entry_error(evidence: Seq<Evidence>, id: EvidenceId) -> Option<DecisionEvaluationError> {
    if forall|i: int| 0 <= i < evidence.len() ==> (#[trigger] evidence[i]).id != id {
        Some(DecisionEvaluationError::MissingThresholdEvidence)
    } else {
        let index = choose|index: int| first_with_id(evidence, id, index);
        if evidence[index].status == EpistemicStatus::Known {
            None
        } else {
            Some(DecisionEvaluationError::UnusableEvidence)
        }
    }
}

/// The error of the first basis entry, from position `from` on, that does
/// not support the decision; `None` when all of them do.
pub open spec fn basis_error_from(evidence: Seq<Evidence>, basis: Seq<EvidenceId>, from: int) -> Option<DecisionEvaluationError>
    decreases basis.len() - from,
{
    if from < 0 || from >= basis.len() {
        None
    } else {
        match basis_entry_error(evidence, basis[from]) {
            Some(e) => Some(e),
            None => basis_error_from(evidence, basis, from + 1),
        }
    }
}

/// Why no decision may be made, in the order the checks apply; `None` when
/// a decision is owed.
pub open spec fn decision_error(question: Question, evidence: Seq<Evidence>, threshold: ThresholdAssessment) -> Option<DecisionEvaluationError> {
    if threshold.question_id != question.id {
        Some(DecisionEvaluationError::QuestionMismatch)
    } else if evidence.len() == 0 {
        Some(DecisionEvaluationError::MissingThresholdEvidence)
    } else if !evidence_about(evidence, question.id) {
        Some(DecisionEvaluationError::Assessment(AssessmentError::QuestionMismatch))
    } else if threshold.state != ThresholdState::Satisfied {
        Some(DecisionEvaluationError::ThresholdNotSatisfied)
    } else if threshold.basis@.len() == 0 {
        Some(DecisionEvaluationError::MissingThresholdEvidence)
    } else {
        basis_error_from(evidence, threshold.basis@, 0)
    }
}

proof fn lemma_first_with_id_unique(evidence: Seq<Evidence>, id: EvidenceId, a: int, b: int)
    requires
        first_with_id(evidence, id, a),
        first_with_id(evidence, id, b),
    ensures
        a == b,
{
    if a < b {
        assert(evidence[a].id != id);
    } else if b < a {
        assert(evidence[b].id != id);
    }
}

/// Checks one basis entry against the evidence.
fn check_basis_entry(evidence: &[Evidence], id: EvidenceId) -> (error: Option<DecisionEvaluationError>)
    ensures
        error == basis_entry_error(evidence@, id),
{
    let mut i: usize = 0;
    while i < evidence.len()
        invariant
            0 <= i <= evidence@.len(),
            forall|j: int| 0 <= j < i ==> (#[trigger] evidence@[j]).id != id,
        decreases evidence.len() - i,
    {
        if evidence[i].id == id {
            proof {
                assert(first_with_id(evidence@, id, i as int));
                let chosen = choose|index: int| first_with_id(evidence@, id, index);
                lemma_first_with_id_unique(evidence@, id, chosen, i as int);
            }
            if !evidence[i].is_usable() {
                return Some(DecisionEvaluationError::UnusableEvidence);
            }
            return None;
        }
        i = i + 1;
    }
    Some(DecisionEvaluationError::MissingThresholdEvidence)
}

/// Produces an `Allow` decision only when the threshold is explicitly
/// satisfied and every evidence item named by its basis exists, belongs to
/// the question and is usable. A decision is not an authorization.
///
/// An empty evidence set fails as missing threshold evidence.
pub fn evaluate(question: Question, evidence: &[Evidence], threshold: ThresholdAssessment, decision_id: DecisionId) -> (result: Result<DecisionEvaluation, DecisionEvaluationError>)
    ensures
        decision_error(question, evidence@, threshold) matches Some(e) ==> result == Err::<DecisionEvaluation, DecisionEvaluationError>(e),
        decision_error(question, evidence@, threshold) is None ==> (result matches Ok(evaluation) && {
            &&& evaluation.decision == (Decision { id: decision_id, question_id: question.id, verdict: DecisionVerdict::Allow })
            &&& evaluation.question == question
            &&& epistemic_state_matches(evaluation.epistemic_state, question.id, evidence@)
            &&& evaluation.threshold == threshold
        }),
        ({
            &&& threshold.question_id == question.id
            &&& evidence@.len() > 0
            &&& forall|i: int| 0 <= i < evidence@.len() ==> (#[trigger] evidence@[i]).question_id == question.id
            &&& threshold.state == ThresholdState::Satisfied
            &&& threshold.basis@.len() > 0
            &&& basis_first_known(evidence@, threshold.basis@)
        }) ==> (result matches Ok(evaluation)
            && evaluation.decision == (Decision { id: decision_id, question_id: question.id, verdict: DecisionVerdict::Allow })),
{
    let ghost owed: bool = {
        &&& threshold.question_id == question.id
        &&& evidence@.len() > 0
        &&& forall|i: int| 0 <= i < evidence@.len() ==> (#[trigger] evidence@[i]).question_id == question.id
        &&& threshold.state == ThresholdState::Satisfied
        &&& threshold.basis@.len() > 0
        &&& basis_first_known(evidence@, threshold.basis@)
    };
    proof {
        if owed {
            decision_owed_when_basis_known(question, evidence@, threshold);
        }
    }
    if threshold.question_id != question.id {
        return Err(DecisionEvaluationError::QuestionMismatch);
    }

    // Without any evidence no threshold basis can be present.
    if evidence.len() == 0 {
        return Err(DecisionEvaluationError::MissingThresholdEvidence);
    }

    let assessed = match assess(copy_question(&question), evidence, threshold) {
        Ok(assessed) => assessed,
        Err(e) => return Err(DecisionEvaluationError::Assessment(e)),
    };

    if assessed.threshold.state != ThresholdState::Satisfied {
        return Err(DecisionEvaluationError::ThresholdNotSatisfied);
    }

    if assessed.threshold.basis.len() == 0 {
        return Err(DecisionEvaluationError::MissingThresholdEvidence);
    }

    let mut k: usize = 0;
    while k < assessed.threshold.basis.len()
        invariant
            0 <= k <= assessed.threshold.basis@.len(),
            assessed.threshold == threshold,
            decision_error(question, evidence@, threshold) == basis_error_from(evidence@, threshold.basis@, k as int),
            ({
                &&& threshold.question_id == question.id
                &&& evidence@.len() > 0
                &&& forall|i: int| 0 <= i < evidence@.len() ==> (#[trigger] evidence@[i]).question_id == question.id
                &&& threshold.state == ThresholdState::Satisfied
                &&& threshold.basis@.len() > 0
                &&& basis_first_known(evidence@, threshold.basis@)
            }) ==> decision_error(question, evidence@, threshold) is None,
        decreases assessed.threshold.basis.len() - k,
    {
        match check_basis_entry(evidence, assessed.threshold.basis[k]) {
            Some(e) => {
                return Err(e);
            },
            None => {},
        }
        k = k + 1;
    }

    let decision = Decision { id: decision_id, question_id: question.id, verdict: DecisionVerdict::Allow };

    Ok(DecisionEvaluation {
        decision,
        question,
        epistemic_state: assessed.epistemic_state,
        threshold: assessed.threshold,
    })
}

/// A decision rests only on known evidence of its own question: when a
/// decision is owed, every identity in the threshold basis names an evidence
/// item of the question whose status is `Known`.
pub proof fn decision_rests_on_known_evidence(question: Question, evidence: Seq<Evidence>, threshold: ThresholdAssessment, k: int)
    requires
        decision_error(question, evidence, threshold) is None,
        0 <= k < threshold.basis@.len(),
    ensures
        threshold.state == ThresholdState::Satisfied,
        exists|i: int| 0 <= i < evidence.len() && {
            &&& (#[trigger] evidence[i]).id == threshold.basis@[k]
            &&& evidence[i].question_id == question.id
            &&& evidence[i].status == EpistemicStatus::Known
        },
{
    lemma_basis_all_supported(evidence, threshold.basis@, 0, k);
    let id = threshold.basis@[k];
    let some = choose|i: int| 0 <= i < evidence.len() && (#[trigger] evidence[i]).id == id;
    lemma_first_with_id_exists(evidence, id, some);
    let index = choose|index: int| first_with_id(evidence, id, index);
    assert(evidence[index].id == id);
    assert(evidence[index].question_id == question.id);
}

proof fn lemma_first_with_id_exists(evidence: Seq<Evidence>, id: EvidenceId, i: int)
    requires
        0 <= i < evidence.len(),
        evidence[i].id == id,
    ensures
        exists|index: int| first_with_id(evidence, id, index),
    decreases i,
{
    if forall|j: int| 0 <= j < i ==> (#[trigger] evidence[j]).id != id {
        assert(first_with_id(evidence, id, i));
    } else {
        let j = choose|j: int| 0 <= j < i && (#[trigger] evidence[j]).id == id;
        lemma_first_with_id_exists(evidence, id, j);
    }
}

proof fn lemma_basis_all_supported(evidence: Seq<Evidence>, basis: Seq<EvidenceId>, from: int, k: int)
    requires
        basis_error_from(evidence, basis, from) is None,
        0 <= from <= k < basis.len(),
    ensures
        basis_entry_error(evidence, basis[k]) is None,
    decreases k - from,
{
    if from < k {
        lemma_basis_all_supported(evidence, basis, from + 1, k);
    }
}

/// Each identity of `basis` names an evidence item, and the first item
/// that it names is `Known`.
#[verifier::opaque]
pub open spec fn basis_first_known(evidence: Seq<Evidence>, basis: Seq<EvidenceId>) -> bool {
    forall|k: int| 0 <= k < basis.len() ==> exists|i: int| {
        &&& 0 <= i < evidence.len()
        &&& (#[trigger] evidence[i]).id == #[trigger] basis[k]
        &&& evidence[i].status == EpistemicStatus::Known
        &&& forall|j: int| 0 <= j < i ==> (#[trigger] evidence[j]).id != basis[k]
    }
}

/// A decision is owed, whatever the status of the evidence that the basis
/// does not name, when the threshold and every evidence item belong to the
/// question, there is evidence, the threshold is satisfied on a non-empty
/// basis, and each basis identity first occurs in the evidence on a `Known`
/// item.
pub proof fn decision_owed_when_basis_known(question: Question, evidence: Seq<Evidence>, threshold: ThresholdAssessment)
    requires
        threshold.question_id == question.id,
        evidence.len() > 0,
        forall|i: int| 0 <= i < evidence.len() ==> (#[trigger] evidence[i]).question_id == question.id,
        threshold.state == ThresholdState::Satisfied,
        threshold.basis@.len() > 0,
        basis_first_known(evidence, threshold.basis@),
    ensures
        decision_error(question, evidence, threshold) is None,
{
    let basis = threshold.basis@;
    reveal(basis_first_known);
    assert forall|k: int| 0 <= k < basis.len() implies (#[trigger] basis_entry_error(evidence, basis[k])) is None by {
        let id = basis[k];
        let i = choose|i: int| {
            &&& 0 <= i < evidence.len()
            &&& (#[trigger] evidence[i]).id == #[trigger] basis[k]
            &&& evidence[i].status == EpistemicStatus::Known
            &&& forall|j: int| 0 <= j < i ==> (#[trigger] evidence[j]).id != basis[k]
        };
        assert(first_with_id(evidence, id, i));
        assert(!(forall|m: int| 0 <= m < evidence.len() ==> (#[trigger] evidence[m]).id != id));
        let index = choose|index: int| first_with_id(evidence, id, index);
        lemma_first_with_id_unique(evidence, id, index, i);
    }
    lemma_basis_all_supported_from(evidence, basis, 0);
}

proof fn lemma_basis_all_supported_from(evidence: Seq<Evidence>, basis: Seq<EvidenceId>, from: int)
    requires
        0 <= from <= basis.len(),
        forall|k: int| 0 <= k < basis.len() ==> (#[trigger] basis_entry_error(evidence, basis[k])) is None,
    ensures
        basis_error_from(evidence, basis, from) is None,
    decreases basis.len() - from,
{
    if from < basis.len() {
        assert(basis_entry_error(evidence, basis[from]) is None);
        lemma_basis_all_supported_from(evidence, basis, from + 1);
    }
}

} // verus!
