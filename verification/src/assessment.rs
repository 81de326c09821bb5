//! QUESTION → EVIDENCE → EPISTEMIC STATE → THRESHOLD.

use crate::domain::{
    EpistemicState, EpistemicStatus, Evidence, Question, QuestionId,
    ThresholdAssessment, ThresholdState,
};
use crate::text::copy_texts;
use vstd::prelude::*;

verus! {

#[derive(Debug, Clone, PartialEq, Eq)]
pub enum AssessmentError {
    QuestionMismatch,
    NoEvidence,
}

/// An assessment binds a question, its epistemic state and its threshold.
#[derive(Debug, Clone, PartialEq, Eq)]
pub struct EvidenceAssessment {
    pub question: Question,
    pub epistemic_state: EpistemicState,
    pub threshold: ThresholdAssessment,
}

/// Every evidence item belongs to the question `question_id`.
pub open spec fn evidence_about(evidence: Seq<Evidence>, question_id: QuestionId) -> bool {
    forall|i: int| 0 <= i < evidence.len() ==> (#[trigger] evidence[i]).question_id == question_id
}

/// The relevance texts of the evidence items with the given status, in order.
pub open spec fn relevance_with_status(evidence: Seq<Evidence>, status: EpistemicStatus) -> Seq<Seq<char>>
    decreases evidence.len(),
{
    if evidence.len() == 0 {
        Seq::empty()
    } else {
        let earlier = relevance_with_status(evidence.drop_last(), status);
        if evidence.last().status == status {
            earlier.push(evidence.last().relevance@)
        } else {
            earlier
        }
    }
}

/// All limitations of all evidence items, item after item.
pub open spec fn all_limitations(evidence: Seq<Evidence>) -> Seq<Seq<char>>
    decreases evidence.len(),
{
    if evidence.len() == 0 {
        Seq::empty()
    } else {
        all_limitations(evidence.drop_last()) + evidence.last().limitations.deep_view()
    }
}

/// A threshold that is not explicitly `Satisfied` becomes `Indeterminate`
/// for the question (fail-closed); a satisfied one is kept as it is.
pub open spec fn normalized_threshold(threshold: ThresholdAssessment, question_id: QuestionId) -> ThresholdAssessment {
    if threshold.state == ThresholdState::Satisfied {
        threshold
    } else {
        ThresholdAssessment {
            question_id,
            state: ThresholdState::Indeterminate,
            basis: threshold.basis,
            rationale: threshold.rationale,
        }
    }
}

/// The assessment is accepted: the threshold and every evidence item belong
/// to the question, and there is evidence.
pub open spec fn assessment_accepted(question: Question, evidence: Seq<Evidence>, threshold: ThresholdAssessment) -> bool {
    &&& threshold.question_id == question.id
    &&& evidence_about(evidence, question.id)
    &&& evidence.len() > 0
}

/// The epistemic state that an accepted assessment records.
pub open spec fn epistemic_state_matches(state: EpistemicState, question_id: QuestionId, evidence: Seq<Evidence>) -> bool {
    &&& state.question_id == question_id
    &&& state.known.deep_view() == relevance_with_status(evidence, EpistemicStatus::Known)
    &&& state.unknown@.len() == 0
    &&& state.disputed.deep_view() == relevance_with_status(evidence, EpistemicStatus::Disputed)
    &&& state.assumptions@.len() == 0
    &&& state.contradictions@.len() == 0
    &&& state.limitations.deep_view() == all_limitations(evidence)
}

/// The relevance texts of the items with `status`, as a new list.
fn collect_relevance(evidence: &[Evidence], status: EpistemicStatus) -> (texts: Vec<String>)
    ensures
        texts.deep_view() == relevance_with_status(evidence@, status),
{
    let mut texts: Vec<String> = Vec::new();
    let mut i: usize = 0;
    while i < evidence.len()
        invariant
            0 <= i <= evidence@.len(),
            texts.deep_view() == relevance_with_status(evidence@.take(i as int), status),
        decreases evidence.len() - i,
    {
        let ghost before = texts.deep_view();
        assert(evidence@.take(i + 1).drop_last() == evidence@.take(i as int));
        if evidence[i].status == status {
            texts.push(evidence[i].relevance.clone());
            assert(texts.deep_view() =~= before.push(evidence@[i as int].relevance@));
        }
        i = i + 1;
    }
    assert(evidence@.take(evidence@.len() as int) == evidence@);
    texts
}

/// The limitations of all items, as a new list.
fn collect_limitations(evidence: &[Evidence]) -> (texts: Vec<String>)
    ensures
        texts.deep_view() == all_limitations(evidence@),
        texts.deep_view() == evidence@.map_values(|item: Evidence| item.limitations.deep_view()).flatten(),
{
    proof {
        limitations_concatenate_every_item(evidence@);
    }
    let mut texts: Vec<String> = Vec::new();
    let mut i: usize = 0;
    while i < evidence.len()
        invariant
            0 <= i <= evidence@.len(),
            texts.deep_view() == all_limitations(evidence@.take(i as int)),
        decreases evidence.len() - i,
    {
        assert(evidence@.take(i + 1).drop_last() == evidence@.take(i as int));
        let ghost before = texts.deep_view();
        let mut more = copy_texts(&evidence[i].limitations);
        let ghost added = more.deep_view();
        texts.append(&mut more);
        assert(texts.deep_view() =~= before + added);
        i = i + 1;
    }
    assert(evidence@.take(evidence@.len() as int) == evidence@);
    texts
}

/// Binds the evidence to the question and derives the epistemic state.
///
/// Cross-question evidence (or a threshold of another question) is
/// rejected, as is an empty evidence set; a threshold that is not explicitly
/// `Satisfied` is normalized to `Indeterminate`.
pub fn assess(question: Question, evidence: &[Evidence], threshold: ThresholdAssessment) -> (result: Result<EvidenceAssessment, AssessmentError>)
    ensures
        !(threshold.question_id == question.id && evidence_about(evidence@, question.id))
            ==> result == Err::<EvidenceAssessment, AssessmentError>(AssessmentError::QuestionMismatch),
        threshold.question_id == question.id && evidence_about(evidence@, question.id) && evidence@.len() == 0
            ==> result == Err::<EvidenceAssessment, AssessmentError>(AssessmentError::NoEvidence),
        assessment_accepted(question, evidence@, threshold) ==> (result matches Ok(a) && {
            &&& a.question == question
            &&& epistemic_state_matches(a.epistemic_state, question.id, evidence@)
            &&& a.threshold == normalized_threshold(threshold, question.id)
        }),
        assessment_accepted(question, evidence@, threshold) ==> (result matches Ok(a)
            && a.epistemic_state.limitations.deep_view()
                == evidence@.map_values(|item: Evidence| item.limitations.deep_view()).flatten()),
        assessment_accepted(question, evidence@, threshold) ==> (result matches Ok(a)
            && a.epistemic_state.known.deep_view()
                == evidence@.filter(|item: Evidence| item.status == EpistemicStatus::Known).map_values(|item: Evidence| item.relevance@)
            && a.epistemic_state.disputed.deep_view()
                == evidence@.filter(|item: Evidence| item.status == EpistemicStatus::Disputed).map_values(|item: Evidence| item.relevance@)),
{
    proof {
        limitations_concatenate_every_item(evidence@);
        relevance_lists_follow_status(evidence@, EpistemicStatus::Known);
        relevance_lists_follow_status(evidence@, EpistemicStatus::Disputed);
    }
    if threshold.question_id != question.id {
        return Err(AssessmentError::QuestionMismatch);
    }
    let mut i: usize = 0;
    while i < evidence.len()
        invariant
            0 <= i <= evidence@.len(),
            forall|j: int| 0 <= j < i ==> (#[trigger] evidence@[j]).question_id == question.id,
        decreases evidence.len() - i,
    {
        if evidence[i].question_id != question.id {
            return Err(AssessmentError::QuestionMismatch);
        }
        i = i + 1;
    }

    if evidence.len() == 0 {
        return Err(AssessmentError::NoEvidence);
    }

    let epistemic_state = EpistemicState {
        question_id: question.id,
        known: collect_relevance(evidence, EpistemicStatus::Known),
        unknown: Vec::new(),
        disputed: collect_relevance(evidence, EpistemicStatus::Disputed),
        assumptions: Vec::new(),
        contradictions: Vec::new(),
        limitations: collect_limitations(evidence),
    };

    let threshold = if threshold.state == ThresholdState::Satisfied {
        threshold
    } else {
        ThresholdAssessment {
            question_id: question.id,
            state: ThresholdState::Indeterminate,
            basis: threshold.basis,
            rationale: threshold.rationale,
        }
    };

    Ok(EvidenceAssessment { question, epistemic_state, threshold })
}

/// The relevance texts recorded for a status are those of exactly the
/// evidence items with that status, in evidence order.
pub proof fn relevance_lists_follow_status(evidence: Seq<Evidence>, status: EpistemicStatus)
    ensures
        relevance_with_status(evidence, status)
            == evidence.filter(|item: Evidence| item.status == status).map_values(|item: Evidence| item.relevance@),
    decreases evidence.len(),
{
    let pred = |item: Evidence| item.status == status;
    let f = |item: Evidence| item.relevance@;
    reveal(Seq::filter);
    if evidence.len() > 0 {
        let earlier = evidence.drop_last();
        relevance_lists_follow_status(earlier, status);
        if pred(evidence.last()) {
            earlier.filter(pred).lemma_push_map_commute(f, evidence.last());
        }
    } else {
        assert(evidence.filter(pred).map_values(f) =~= Seq::<Seq<char>>::empty());
    }
}

/// The limitations of an assessment are those of every evidence item,
/// whatever its status, concatenated in evidence order.
pub proof fn limitations_concatenate_every_item(evidence: Seq<Evidence>)
    ensures
        all_limitations(evidence) == evidence.map_values(|item: Evidence| item.limitations.deep_view()).flatten(),
    decreases evidence.len(),
{
    let f = |item: Evidence| item.limitations.deep_view();
    if evidence.len() > 0 {
        let earlier = evidence.drop_last();
        limitations_concatenate_every_item(earlier);
        assert(earlier.push(evidence.last()) == evidence);
        earlier.lemma_push_map_commute(f, evidence.last());
        earlier.map_values(f).lemma_flatten_push(f(evidence.last()));
    } else {
        assert(evidence.map_values(f) =~= Seq::<Seq<Seq<char>>>::empty());
    }
}

} // verus!
