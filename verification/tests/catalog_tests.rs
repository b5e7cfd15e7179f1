use simple_stresscheck::{OuterQuestion, Question, Score, SimpleStress, Theme};

fn question(id: u32) -> Question {
    Question {
        id,
        text: format!("question {}", id),
        reverse: false,
        scores: vec![
            Score { score: 1, text: String::from("never") },
            Score { score: 2, text: String::from("sometimes") },
            Score { score: 3, text: String::from("often") },
            Score { score: 4, text: String::from("always") },
        ],
    }
}

fn outer(title: Option<&str>, ids: std::ops::RangeInclusive<u32>) -> OuterQuestion {
    OuterQuestion {
        title: title.map(String::from),
        questions: ids.map(question).collect(),
    }
}

/// A catalog with the survey's 57 questions, ids 1..=57 in order, spread
/// over several themes and sub-blocks.
fn catalog() -> SimpleStress {
    SimpleStress {
        simple_stress: vec![
            Theme {
                theme: String::from("about your work"),
                questions: vec![outer(None, 1..=17)],
            },
            Theme {
                theme: String::from("about the last month"),
                questions: vec![outer(None, 18..=46)],
            },
            Theme {
                theme: String::from("about the people around you"),
                questions: vec![outer(Some("support"), 47..=54), outer(None, 55..=55)],
            },
            Theme {
                theme: String::from("satisfaction"),
                questions: vec![outer(None, 56..=57)],
            },
        ],
    }
}

#[test]
fn test_get() {
    assert_eq!(Some(1), catalog().get(0).map(|q| q.id));
    assert_eq!(Some(57), catalog().get(56).map(|q| q.id));
    assert_eq!(None, catalog().get(57).map(|q| q.id));
}

#[test]
fn test_question() {
    assert_eq!(Some(1), catalog().question(1).map(|q| q.id));
    assert_eq!(Some(57), catalog().question(57).map(|q| q.id));
    assert_eq!(None, catalog().question(58).map(|q| q.id));
}

#[test]
fn test_questions() {
    let questions = catalog().questions();
    assert_eq!(questions.len(), 57);
    assert_eq!(questions.get(0).map(|q| q.id), Some(1));
    assert_eq!(questions.get(56).map(|q| q.id), Some(57));
    assert_eq!(questions.get(57).map(|q| q.id), None);
}

#[test]
fn test_questions_in_order() {
    let questions = catalog().questions();
    for (index, q) in questions.iter().enumerate() {
        assert_eq!(q.id as usize, index + 1);
    }
}

#[test]
fn test_get_keeps_fields() {
    let q = catalog().get(4).unwrap();
    assert_eq!(q.id, 5);
    assert_eq!(q.text, "question 5");
    assert!(!q.reverse);
    assert_eq!(q.scores.len(), 4);
    assert_eq!(q.scores[0].score, 1);
    assert_eq!(q.scores[0].text, "never");
    assert_eq!(q.scores[3].score, 4);
    assert_eq!(q.scores[3].text, "always");
}

#[test]
fn test_question_missing_id() {
    assert!(catalog().question(0).is_none());
}
