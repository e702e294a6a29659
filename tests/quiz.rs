use iced_tutorial::{button_quiz, error_display_quiz, http_quiz, validation_quiz, Verdict};

#[test]
fn validation_quiz_verdicts() {
    let q = validation_quiz();
    assert_eq!(q.question, "Where should validation of a text input happen?");
    assert_eq!(q.verdict(None), Verdict::Unanswered);
    match q.verdict(Some(2)) {
        Verdict::Answered { text, correct } => {
            assert!(correct);
            assert!(text.starts_with("Correct!"));
        }
        _ => panic!("expected feedback"),
    }
    match q.verdict(Some(0)) {
        Verdict::Answered { correct, .. } => assert!(!correct),
        _ => panic!("expected feedback"),
    }
    assert_eq!(q.verdict(Some(9)), Verdict::Unmatched);
}

#[test]
fn other_quizzes_mark_their_answers() {
    let b = button_quiz();
    assert!(matches!(b.verdict(Some(0)), Verdict::Answered { correct: true, .. }));
    assert!(matches!(b.verdict(Some(1)), Verdict::Answered { correct: true, .. }));
    assert!(matches!(b.verdict(Some(2)), Verdict::Answered { correct: false, .. }));
    let h = http_quiz();
    assert!(matches!(h.verdict(Some(2)), Verdict::Answered { correct: true, .. }));
    assert!(matches!(h.verdict(Some(3)), Verdict::Answered { correct: false, .. }));
    let e = error_display_quiz();
    assert!(matches!(e.verdict(Some(0)), Verdict::Answered { correct: true, .. }));
    assert_eq!(e.options.len(), 3);
}
