use vstd::prelude::*;

verus! {

/// One answer button of a quiz.
#[derive(Clone, Copy, Debug, PartialEq, Eq)]
pub struct QuizOption {
    pub label: &'static str,
    pub answer: u8,
}

/// Feedback shown for one answer.
#[derive(Clone, Copy, Debug, PartialEq, Eq)]
pub struct FeedbackEntry {
    pub answer: u8,
    pub text: &'static str,
    pub correct: bool,
}

/// A multiple-choice question with its answer buttons and a feedback table.
pub struct Quiz {
    pub question: &'static str,
    pub options: Vec<QuizOption>,
    pub feedback: Vec<FeedbackEntry>,
}

/// What the quiz shows under its buttons.
#[derive(Clone, Copy, Debug, PartialEq, Eq)]
pub enum Verdict {
    /// No answer yet: a prompt to pick one.
    Unanswered,
    /// The feedback entry for the chosen answer.
    Answered { text: &'static str, correct: bool },
    /// An answer that the table has no entry for: nothing is shown.
    Unmatched,
}

/// The first entry, at or after position `i` of `fs`, for answer `a`.
pub open spec fn entry_for(fs: Seq<FeedbackEntry>, a: u8, i: int) -> Option<FeedbackEntry>
    decreases fs.len() - i,
{
    if i < 0 || i >= fs.len() {
        None
    } else if fs[i].answer == a {
        Some(fs[i])
    } else {
        entry_for(fs, a, i + 1)
    }
}

/// Whether answer `a` is marked correct by the table `fs`.
pub open spec fn is_correct(fs: Seq<FeedbackEntry>, a: u8) -> bool {
    entry_for(fs, a, 0) matches Some(e) && e.correct
}

impl Quiz {
    /// What the quiz shows for `answer`.
    pub open spec fn verdict_of(&self, answer: Option<u8>) -> Verdict {
        match answer {
            None => Verdict::Unanswered,
            Some(a) => match entry_for(self.feedback@, a, 0) {
                Some(e) => Verdict::Answered { text: e.text, correct: e.correct },
                None => Verdict::Unmatched,
            },
        }
    }

    /// What the quiz shows for `answer`: a prompt when there is none, else
    /// the first feedback entry for it, if any.
    pub fn verdict(&self, answer: Option<u8>) -> (r: Verdict)
        ensures
            r == self.verdict_of(answer),
    {
        match answer {
            None => Verdict::Unanswered,
            Some(a) => {
                let n = self.feedback.len();
                let mut i: usize = 0;
                while i < n
                    invariant
                        answer == Some(a),
                        n == self.feedback@.len(),
                        i <= n,
                        entry_for(self.feedback@, a, 0) == entry_for(self.feedback@, a, i as int),
                    decreases n - i,
                {
                    let e = self.feedback[i];
                    if e.answer == a {
                        return Verdict::Answered { text: e.text, correct: e.correct };
                    }
                    i = i + 1;
                }
                Verdict::Unmatched
            },
        }
    }
}

/// The quiz on where input validation belongs; only the Update answer is
/// correct.
pub fn validation_quiz() -> (q: Quiz)
    ensures
        q.options@.len() == 4,
        forall|a: u8| is_correct(q.feedback@, a) <==> a == 2,
{
    let q = Quiz {
        question: "Where should validation of a text input happen?",
        options: vec![
            QuizOption { label: "A) In the View", answer: 0 },
            QuizOption { label: "B) In the Message", answer: 1 },
            QuizOption { label: "C) In the Update", answer: 2 },
            QuizOption { label: "D) In the Model", answer: 3 },
        ],
        feedback: vec![
            FeedbackEntry {
                answer: 2,
                text: "Correct! The Update function processes input and validates data before updating the Model.",
                correct: true,
            },
            FeedbackEntry {
                answer: 0,
                text: "Not quite. The View only renders UI from state \u{2014} it shouldn't contain logic.",
                correct: false,
            },
            FeedbackEntry {
                answer: 1,
                text: "Not quite. Messages are just data describing what happened \u{2014} they don't contain logic.",
                correct: false,
            },
            FeedbackEntry {
                answer: 3,
                text: "Not quite. The Model only holds state, not logic.",
                correct: false,
            },
        ],
    };
    assert(forall|a: u8| is_correct(q.feedback@, a) <==> a == 2) by {
        reveal_with_fuel(entry_for, 5);
    }
    q
}

/// The quiz on where an HTTP request belongs; only the Task answer is
/// correct.
pub fn http_quiz() -> (q: Quiz)
    ensures
        q.options@.len() == 4,
        forall|a: u8| is_correct(q.feedback@, a) <==> a == 2,
{
    let q = Quiz {
        question: "Where should you make an HTTP request?",
        options: vec![
            QuizOption { label: "A) In the View", answer: 0 },
            QuizOption { label: "B) In the Message", answer: 1 },
            QuizOption { label: "C) In a Task returned from Update", answer: 2 },
            QuizOption { label: "D) In the Model", answer: 3 },
        ],
        feedback: vec![
            FeedbackEntry {
                answer: 2,
                text: "Correct! HTTP requests are async operations, so they belong in a Task returned from Update.",
                correct: true,
            },
            FeedbackEntry {
                answer: 0,
                text: "Not quite. The View only renders UI \u{2014} it can't perform side effects.",
                correct: false,
            },
            FeedbackEntry {
                answer: 1,
                text: "Not quite. Messages are just data \u{2014} they describe events, not perform actions.",
                correct: false,
            },
            FeedbackEntry {
                answer: 3,
                text: "Not quite. The Model only holds state \u{2014} it doesn't perform operations.",
                correct: false,
            },
        ],
    };
    assert(forall|a: u8| is_correct(q.feedback@, a) <==> a == 2) by {
        reveal_with_fuel(entry_for, 5);
    }
    q
}

/// The quiz on disabling a button; both the View answer and the Update
/// answer are correct.
pub fn button_quiz() -> (q: Quiz)
    ensures
        q.options@.len() == 3,
        forall|a: u8| is_correct(q.feedback@, a) <==> (a == 0 || a == 1),
{
    let q = Quiz {
        question: "How do you disable a button when a field is empty?",
        options: vec![
            QuizOption { label: "A) View checks the condition with conditional on_press", answer: 0 },
            QuizOption { label: "B) Update sets a flag in the Model, View reads it", answer: 1 },
            QuizOption { label: "C) Send a DisableButton message", answer: 2 },
        ],
        feedback: vec![
            FeedbackEntry {
                answer: 0,
                text: "Correct! For simple conditions, the View can check directly with conditional on_press.",
                correct: true,
            },
            FeedbackEntry {
                answer: 1,
                text: "Correct! For complex logic, Update can set a flag in the Model that the View reads.",
                correct: true,
            },
            FeedbackEntry {
                answer: 2,
                text: "Not quite. Messages don't control UI state \u{2014} they describe events.",
                correct: false,
            },
        ],
    };
    assert(forall|a: u8| is_correct(q.feedback@, a) <==> (a == 0 || a == 1)) by {
        reveal_with_fuel(entry_for, 4);
    }
    q
}

/// The quiz on showing validation errors; only the answer that stores the
/// error in the Model is correct.
pub fn error_display_quiz() -> (q: Quiz)
    ensures
        q.options@.len() == 3,
        forall|a: u8| is_correct(q.feedback@, a) <==> a == 0,
{
    let q = Quiz {
        question: "How does input validation with error display work?",
        options: vec![
            QuizOption { label: "A) Update validates, stores error in Model, View displays it", answer: 0 },
            QuizOption { label: "B) View validates and shows error directly", answer: 1 },
            QuizOption { label: "C) Update validates and shows error directly", answer: 2 },
        ],
        feedback: vec![
            FeedbackEntry {
                answer: 0,
                text: "Correct! Update validates and stores errors in the Model. The View reads those errors and displays them. Messages carry the input data.",
                correct: true,
            },
            FeedbackEntry {
                answer: 1,
                text: "Not quite. The View shouldn't contain validation logic \u{2014} it only renders based on Model state.",
                correct: false,
            },
            FeedbackEntry {
                answer: 2,
                text: "Not quite. While Update does the validation, the error must be stored in the Model for the View to display it.",
                correct: false,
            },
        ],
    };
    assert(forall|a: u8| is_correct(q.feedback@, a) <==> a == 0) by {
        reveal_with_fuel(entry_for, 4);
    }
    q
}

} // verus!
