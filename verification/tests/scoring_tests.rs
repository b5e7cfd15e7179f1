use simple_stresscheck::reverse_if;
use simple_stresscheck::{AnswerStore, Error, Stress, SumupScore};

#[test]
fn test_reverse_if() {
    assert_eq!(reverse_if((1, 1)), 4);
    assert_eq!(reverse_if((2, 2)), 3);
    assert_eq!(reverse_if((3, 3)), 2);
    assert_eq!(reverse_if((4, 4)), 1);
    assert_eq!(reverse_if((7, 1)), 4);
    assert_eq!(reverse_if((8, 3)), 3);
    assert_eq!(reverse_if((10, 4)), 4);
    assert_eq!(reverse_if((11, 1)), 4);
    assert_eq!(reverse_if((12, 2)), 3);
    assert_eq!(reverse_if((13, 3)), 2);
    assert_eq!(reverse_if((14, 4)), 4);
    assert_eq!(reverse_if((15, 1)), 4);
    assert_eq!(reverse_if((17, 1)), 1);
    assert_eq!(reverse_if((18, 2)), 3);
    assert_eq!(reverse_if((19, 3)), 2);
    assert_eq!(reverse_if((20, 4)), 1);
    assert_eq!(reverse_if((21, 1)), 1);
    assert_eq!(reverse_if((57, 2)), 2);
}

/// Exhaustive check of the reverse adjustment over every question number and
/// every valid answer: `5 - v` on {1..=7, 11..=13, 15, 18..=20}, `v`
/// everywhere else.
#[test]
fn test_reverse_if_exhaustive() {
    for n in 1usize..=57 {
        let reversed = (1..=7).contains(&n) || (11..=13).contains(&n) || n == 15
            || (18..=20).contains(&n);
        for v in 1u8..=4 {
            let expected = if reversed { 5 - v } else { v };
            assert_eq!(reverse_if((n, v)), expected);
        }
    }
}

#[test]
fn test_answer_store_low() {
    let mut store = AnswerStore::default();
    for _ in 0..57 {
        assert!(store.push(1).is_ok());
    }
    let score = store.to_sumup_score().unwrap();
    assert_eq!(score.sum_a, 50);
    assert_eq!(score.sum_b, 38);
    assert_eq!(score.sum_c, 9);
}

#[test]
fn test_answer_store_high() {
    let mut store = AnswerStore::default();
    for _ in 0..57 {
        assert!(store.push(4).is_ok());
    }
    let score = store.to_sumup_score().unwrap();
    assert_eq!(score.sum_a, 35);
    assert_eq!(score.sum_b, 107);
    assert_eq!(score.sum_c, 4 * 9);
}

/// The all-answers-equal sum-up scenarios carried through to the stress
/// outcome: all 1s is below every threshold, all 4s trips the B >= 77 rule.
#[test]
fn test_sumup_outcome_uniform_answers() {
    let mut low = AnswerStore::default();
    let mut high = AnswerStore::default();
    for _ in 0..57 {
        low.push(1).unwrap();
        high.push(4).unwrap();
    }
    let low_score = low.to_sumup_score().unwrap();
    assert_eq!(low_score.scores(), (50, 38, 9));
    assert!(!low_score.has_stress());
    let high_score = high.to_sumup_score().unwrap();
    assert_eq!(high_score.scores(), (35, 107, 36));
    assert!(high_score.has_stress());
}

#[test]
fn test_answer_not_fullfilled() {
    let mut store = AnswerStore::default();
    for _ in 0..56 {
        assert!(store.push(1).is_ok());
    }
    assert!(store.to_sumup_score().is_err());
}

#[test]
fn test_answer_exceeded() {
    let mut store = AnswerStore::default();
    for _ in 0..57 {
        assert!(store.push(1).is_ok());
    }
    assert!(store.push(1).is_err());
}

#[test]
fn test_insert() {
    let mut store = AnswerStore::default();
    assert!(store.insert(0, 1).is_err());
    assert!(store.insert(1, 1).is_ok());
    assert!(store.insert(57, 1).is_ok());
    assert!(store.insert(58, 1).is_err());
    assert!(store.insert(10, 5).is_err());
}

/// `push` rejects every answer outside 1..=4 with `IllegalAnswer` and the
/// 58th append with `IllegalQuestion`; `insert` rejects question number 0
/// and numbers above 57 with `IllegalQuestion` and answers outside 1..=4
/// with `IllegalAnswer`.
#[test]
fn test_rejections_by_variant() {
    let mut store = AnswerStore::default();
    assert_eq!(store.push(0), Err(Error::IllegalAnswer));
    assert_eq!(store.push(5), Err(Error::IllegalAnswer));
    assert_eq!(store.push(255), Err(Error::IllegalAnswer));
    for _ in 0..57 {
        store.push(2).unwrap();
    }
    assert_eq!(store.push(2), Err(Error::IllegalQuestion));

    let mut store = AnswerStore::default();
    assert_eq!(store.insert(0, 2), Err(Error::IllegalQuestion));
    assert_eq!(store.insert(58, 2), Err(Error::IllegalQuestion));
    assert_eq!(store.insert(12, 0), Err(Error::IllegalAnswer));
    assert_eq!(store.insert(12, 5), Err(Error::IllegalAnswer));
}

/// Both aggregations fail with `NotFulfilled` while any slot is unset,
/// whichever slot it is and however the others were written.
#[test]
fn test_not_fulfilled_any_gap() {
    // Every slot but the 31st written by insert.
    let mut store = AnswerStore::default();
    for no in 1..=57u8 {
        if no != 31 {
            store.insert(no, 2).unwrap();
        }
    }
    assert_eq!(store.to_sumup_score().unwrap_err(), Error::NotFulfilled);
    assert_eq!(store.to_conversion_score().unwrap_err(), Error::NotFulfilled);
    // Filling the gap unblocks both.
    store.insert(31, 2).unwrap();
    assert!(store.to_sumup_score().is_ok());
    assert!(store.to_conversion_score().is_ok());
    // An empty store fails too.
    let empty = AnswerStore::default();
    assert_eq!(empty.to_sumup_score().unwrap_err(), Error::NotFulfilled);
    assert_eq!(empty.to_conversion_score().unwrap_err(), Error::NotFulfilled);
}

#[test]
fn test_sumup_score_stress() {
    let score = SumupScore { sum_a: 17, sum_b: 76, sum_c: 9 };
    assert!(!score.has_stress());

    let score = SumupScore { sum_a: 17, sum_b: 77, sum_c: 9 };
    assert!(score.has_stress());

    let score = SumupScore { sum_a: 46, sum_b: 62, sum_c: 30 };
    assert!(!score.has_stress());

    let score = SumupScore { sum_a: 46, sum_b: 63, sum_c: 30 };
    assert!(score.has_stress());

    let score = SumupScore { sum_a: 45, sum_b: 63, sum_c: 30 };
    assert!(!score.has_stress());
}

/// Repeated scoring of an unchanged store is deterministic: both methods
/// return identical results on every call.
#[test]
fn test_scoring_round_trip() {
    let mut store = AnswerStore::default();
    let answers: Vec<u8> = (0..57).map(|i| (i % 4) as u8 + 1).collect();
    for &a in &answers {
        store.push(a).unwrap();
    }
    let first_sumup = store.to_sumup_score().unwrap();
    let second_sumup = store.to_sumup_score().unwrap();
    assert_eq!(first_sumup, second_sumup);
    assert_eq!(first_sumup.scores(), second_sumup.scores());
    assert_eq!(first_sumup.has_stress(), second_sumup.has_stress());
    let first_conv = store.to_conversion_score().unwrap();
    let second_conv = store.to_conversion_score().unwrap();
    assert_eq!(first_conv, second_conv);
    assert_eq!(first_conv.scores(), second_conv.scores());
    assert_eq!(first_conv.has_stress(), second_conv.has_stress());
}
