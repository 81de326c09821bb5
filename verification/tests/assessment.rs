use palaco_la::assessment::{assess, AssessmentError};
use palaco_la::domain::{
    EpistemicStatus, Evidence, EvidenceId, Question, QuestionId, ThresholdAssessment, ThresholdState,
};
use uuid::Uuid;

fn question() -> Question {
    Question::new(
        QuestionId::new(Uuid::new_v4().as_u128()),
        "test subject".to_owned(),
        "test context".to_owned(),
    )
}

fn evidence(question_id: QuestionId) -> Evidence {
    Evidence {
        id: EvidenceId::new(Uuid::new_v4().as_u128()),
        question_id,
        source: "test-source".to_owned(),
        origin: "test-origin".to_owned(),
        content_digest: "digest".to_owned(),
        relevance: "relevant".to_owned(),
        limitations: vec!["limited".to_owned()],
        status: EpistemicStatus::Known,
    }
}

#[test]
fn assessment_requires_same_question() {
    let q = question();
    let other = QuestionId::new(Uuid::new_v4().as_u128());
    let threshold = ThresholdAssessment {
        question_id: q.id,
        state: ThresholdState::Satisfied,
        basis: vec![EvidenceId::new(Uuid::new_v4().as_u128())],
        rationale: "basis".to_owned(),
    };

    assert_eq!(assess(q, &[evidence(other)], threshold), Err(AssessmentError::QuestionMismatch));
}

#[test]
fn satisfied_threshold_is_preserved() {
    let q = question();
    let evidence = evidence(q.id);
    let threshold = ThresholdAssessment {
        question_id: q.id,
        state: ThresholdState::Satisfied,
        basis: vec![evidence.id],
        rationale: "basis".to_owned(),
    };

    let assessment = assess(q, &[evidence], threshold);
    assert!(matches!(assessment.map(|value| value.threshold.state), Ok(ThresholdState::Satisfied)));
}

#[test]
fn non_satisfied_threshold_fails_closed_to_indeterminate() {
    let q = question();
    let evidence = evidence(q.id);
    let threshold = ThresholdAssessment {
        question_id: q.id,
        state: ThresholdState::NotEvaluated,
        basis: vec![evidence.id],
        rationale: "not evaluated".to_owned(),
    };

    let assessment = assess(q, &[evidence], threshold);
    assert!(matches!(assessment.map(|value| value.threshold.state), Ok(ThresholdState::Indeterminate)));
}

#[test]
fn empty_evidence_is_rejected() {
    let q = question();
    let threshold = ThresholdAssessment {
        question_id: q.id,
        state: ThresholdState::Satisfied,
        basis: Vec::new(),
        rationale: "none".to_owned(),
    };
    assert_eq!(assess(q, &[], threshold), Err(AssessmentError::NoEvidence));
}

#[test]
fn threshold_of_another_question_is_rejected() {
    let q = question();
    let e = evidence(q.id);
    let threshold = ThresholdAssessment {
        question_id: QuestionId::new(q.id.value() ^ 1),
        state: ThresholdState::Satisfied,
        basis: vec![e.id],
        rationale: "other".to_owned(),
    };
    assert_eq!(assess(q, &[e], threshold), Err(AssessmentError::QuestionMismatch));
}

#[test]
fn epistemic_state_separates_known_and_disputed_material() {
    let q = question();
    let mut known = evidence(q.id);
    known.relevance = "first".to_owned();
    let mut disputed = evidence(q.id);
    disputed.relevance = "second".to_owned();
    disputed.status = EpistemicStatus::Disputed;
    disputed.limitations = vec!["partial".to_owned(), "dated".to_owned()];
    let mut unknown = evidence(q.id);
    unknown.relevance = "third".to_owned();
    unknown.status = EpistemicStatus::Unknown;
    unknown.limitations = Vec::new();
    let threshold = ThresholdAssessment {
        question_id: q.id,
        state: ThresholdState::Unsatisfied,
        basis: vec![known.id],
        rationale: "kept".to_owned(),
    };

    let assessment = match assess(q.clone(), &[known, disputed, unknown], threshold) {
        Ok(value) => value,
        Err(error) => panic!("assessment failed: {error:?}"),
    };
    assert_eq!(assessment.question, q);
    assert_eq!(assessment.epistemic_state.question_id, q.id);
    assert_eq!(assessment.epistemic_state.known, vec!["first".to_owned()]);
    assert_eq!(assessment.epistemic_state.disputed, vec!["second".to_owned()]);
    assert!(assessment.epistemic_state.unknown.is_empty());
    assert_eq!(
        assessment.epistemic_state.limitations,
        vec!["limited".to_owned(), "partial".to_owned(), "dated".to_owned()]
    );
    assert_eq!(assessment.threshold.state, ThresholdState::Indeterminate);
    assert_eq!(assessment.threshold.rationale, "kept");
    assert_eq!(assessment.threshold.question_id, q.id);
}
