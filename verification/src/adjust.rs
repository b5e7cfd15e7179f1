use vstd::prelude::*;

verus! {

/// The fixed set of reverse-scored question numbers: for these questions a
/// lower raw answer means higher stress, so the 1..=4 scale is inverted
/// before sum-up aggregation. The set is part of the regulatory standard and
/// is written out as a closed enumeration, not derived from a rule.
pub open spec fn is_reverse_scored(question_no: int) -> bool {
    (1 <= question_no <= 7) || (11 <= question_no <= 13) || question_no == 15 || (18
        <= question_no <= 20)
}

/// The reverse-scoring adjustment: `5 - v` on reverse-scored questions, the
/// raw answer unchanged everywhere else.
pub open spec fn spec_adjust(question_no: int, answer: int) -> int {
    if is_reverse_scored(question_no) {
        5 - answer
    } else {
        answer
    }
}

/// Applies the reverse-scoring adjustment to one `(question number, raw
/// answer)` pair.
pub fn reverse_if(score: (usize, u8)) -> (r: u8)
    requires
        1 <= score.1 <= 4,
    ensures
        r as int == spec_adjust(score.0 as int, score.1 as int),
        1 <= r <= 4,
{
    let (id, value) = score;
    if 1 <= id && id <= 7 {
        5 - value
    } else if 11 <= id && id <= 13 {
        5 - value
    } else if id == 15 {
        5 - value
    } else if 18 <= id && id <= 20 {
        5 - value
    } else {
        value
    }
}

/// For every question number `n` and every valid raw answer `v` in 1..=4,
/// the adjustment yields `5 - v` exactly when `n` lies in the fixed set
/// {1..=7, 11..=13, 15, 18..=20}, and yields `v` unchanged otherwise; either
/// way the adjusted value stays in 1..=4.
pub proof fn lemma_reverse_adjustment(question_no: int, answer: int)
    requires
        1 <= answer <= 4,
    ensures
        spec_adjust(question_no, answer) == (5 - answer) <==> is_reverse_scored(question_no),
        spec_adjust(question_no, answer) == answer <==> !is_reverse_scored(question_no),
        is_reverse_scored(question_no) <==> ((1 <= question_no <= 7) || (11 <= question_no <= 13)
            || question_no == 15 || (18 <= question_no <= 20)),
        1 <= spec_adjust(question_no, answer) <= 4,
{
}

} // verus!
