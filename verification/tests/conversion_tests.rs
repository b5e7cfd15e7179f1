use simple_stresscheck::{AnswerStore, ConversionScore, Stress};

#[test]
fn test_conversion_score() {
    let mut store = AnswerStore::default();
    for _ in 0..57 {
        assert!(store.push(1).is_ok());
    }
    let store = store.to_conversion_score().unwrap();

    // 22
    assert_eq!(store.mental_work_stress_volume, 1);
    assert_eq!(store.mental_work_stress_quality, 1);
    assert_eq!(store.aware_physical_stress, 1);
    assert_eq!(store.work_people_stress, 2);
    assert_eq!(store.work_env_stress, 1);
    assert_eq!(store.work_control, 5);
    assert_eq!(store.skill_apply, 1);
    assert_eq!(store.work_apply, 5);
    assert_eq!(store.decent_work, 5);

    // 26
    assert_eq!(store.vitality, 1);
    assert_eq!(store.iraira, 5);
    assert_eq!(store.tired, 5);
    assert_eq!(store.anxious, 5);
    assert_eq!(store.depressed, 5);
    assert_eq!(store.physical_complaint, 5);

    // 15
    assert_eq!(store.boss_support, 5);
    assert_eq!(store.colleague_support, 5);
    assert_eq!(store.colleague_support, 5);

    assert_eq!(store.scores(), (22, 26, 15));

    assert!(!store.has_stress());
}

#[test]
fn test_conversion_score_answer_not_fullfilled() {
    let mut store = AnswerStore::default();
    assert!(store.push(1).is_ok());
    assert!(store.to_conversion_score().is_err());
}

fn uniform_conversion(point: u8) -> ConversionScore {
    ConversionScore {
        mental_work_stress_volume: point,
        mental_work_stress_quality: point,
        aware_physical_stress: point,
        work_people_stress: point,
        work_env_stress: point,
        work_control: point,
        skill_apply: point,
        work_apply: point,
        decent_work: point,
        vitality: point,
        iraira: point,
        tired: point,
        anxious: point,
        depressed: point,
        physical_complaint: point,
        boss_support: point,
        colleague_support: point,
        family_support: point,
    }
}

/// Conversion-rule thresholds: high stress at B <= 12, or at A + C <= 26
/// together with B <= 17.
#[test]
fn test_conversion_score_stress_thresholds() {
    // All points 2: A = 18, B = 12, C = 6; B <= 12 trips the first rule.
    let score = uniform_conversion(2);
    assert_eq!(score.scores(), (18, 12, 6));
    assert!(score.has_stress());

    // B just above 12 with A + C just above 26: neither rule trips.
    let mut score = uniform_conversion(2);
    score.vitality = 3;
    score.mental_work_stress_volume = 5;
    score.boss_support = 5;
    assert_eq!(score.scores(), (21, 13, 9));
    assert!(!score.has_stress());

    // B = 13 with A + C = 26: the second rule trips.
    let mut score = uniform_conversion(2);
    score.vitality = 3;
    score.boss_support = 4;
    assert_eq!(score.scores(), (18, 13, 8));
    assert!(score.has_stress());

    // B = 18 with A + C = 26: B is above 17, so the second rule does not.
    let mut score = uniform_conversion(2);
    score.vitality = 5;
    score.tired = 4;
    score.iraira = 3;
    score.boss_support = 4;
    assert_eq!(score.scores(), (18, 18, 8));
    assert!(!score.has_stress());
}

/// Conversion scoring of answers that hit table boundaries away from the
/// all-equal cases: all answers 4 except the support block left at 1.
#[test]
fn test_conversion_score_mixed_answers() {
    let mut store = AnswerStore::default();
    for no in 1..=57u8 {
        let answer = if (47..=55).contains(&no) { 1 } else { 4 };
        store.insert(no, answer).unwrap();
    }
    let score = store.to_conversion_score().unwrap();
    // Raw sums: volume/quality 15-12=3 -> 5; aware 5-4=1 -> 4; people
    // 10-8+4=6 -> 3; env 1 -> 4; control 3 -> 1; skill 4 -> 4; work_apply
    // 5-4=1 -> 1; decent 1 -> 1; vitality 12 -> 5; iraira 12 -> 1; tired
    // 12 -> 1; anxious 12 -> 1; depressed 24 -> 1; physical 44 -> 1;
    // supports 15-3=12 -> 5 each.
    assert_eq!(score.mental_work_stress_volume, 5);
    assert_eq!(score.mental_work_stress_quality, 5);
    assert_eq!(score.aware_physical_stress, 4);
    assert_eq!(score.work_people_stress, 3);
    assert_eq!(score.work_env_stress, 4);
    assert_eq!(score.work_control, 1);
    assert_eq!(score.skill_apply, 4);
    assert_eq!(score.work_apply, 1);
    assert_eq!(score.decent_work, 1);
    assert_eq!(score.vitality, 5);
    assert_eq!(score.iraira, 1);
    assert_eq!(score.tired, 1);
    assert_eq!(score.anxious, 1);
    assert_eq!(score.depressed, 1);
    assert_eq!(score.physical_complaint, 1);
    assert_eq!(score.boss_support, 5);
    assert_eq!(score.colleague_support, 5);
    assert_eq!(score.family_support, 5);
    assert_eq!(score.scores(), (28, 10, 15));
    // B = 10 <= 12: high stress.
    assert!(score.has_stress());
}
