use vstd::prelude::*;

use crate::adjust::{reverse_if, spec_adjust};
use crate::error::Error;
use crate::store::{AnswerStore, QUESTION_COUNT};
use crate::stress::Stress;

verus! {

/// Sum of the reverse-adjusted answers over the 0-based index window
/// `[lo, hi)`; position `i` holds the answer to question `i + 1`.
pub open spec fn sum_adjusted(s: Seq<u8>, lo: int, hi: int) -> int
    decreases hi - lo,
{
    if lo >= hi {
        0
    } else {
        spec_adjust(lo + 1, s[lo] as int) + sum_adjusted(s, lo + 1, hi)
    }
}

/// Each window element contributes an adjusted value in 1..=4, so the window
/// sum lies between the window width and four times the window width.
pub proof fn lemma_sum_adjusted_bounds(s: Seq<u8>, lo: int, hi: int)
    requires
        0 <= lo <= hi <= s.len(),
        forall|i: int| lo <= i < hi ==> 1 <= #[trigger] s[i] <= 4,
    ensures
        hi - lo <= sum_adjusted(s, lo, hi) <= 4 * (hi - lo),
    decreases hi - lo,
{
    if lo < hi {
        lemma_sum_adjusted_bounds(s, lo + 1, hi);
    }
}

/// Extending the window by one element on the right adds that element's
/// adjusted value to the sum.
pub proof fn lemma_sum_adjusted_extend(s: Seq<u8>, lo: int, hi: int)
    requires
        0 <= lo <= hi < s.len(),
    ensures
        sum_adjusted(s, lo, hi + 1) == sum_adjusted(s, lo, hi) + spec_adjust(hi + 1, s[hi] as int),
    decreases hi - lo,
{
    if lo >= hi {
        assert(sum_adjusted(s, lo, hi + 1) == spec_adjust(lo + 1, s[lo] as int) + sum_adjusted(
            s,
            lo + 1,
            hi + 1,
        ));
        assert(sum_adjusted(s, lo + 1, hi + 1) == 0);
    } else {
        lemma_sum_adjusted_extend(s, lo + 1, hi);
        assert(sum_adjusted(s, lo, hi + 1) == spec_adjust(lo + 1, s[lo] as int) + sum_adjusted(
            s,
            lo + 1,
            hi + 1,
        ));
        assert(sum_adjusted(s, lo, hi) == spec_adjust(lo + 1, s[lo] as int) + sum_adjusted(
            s,
            lo + 1,
            hi,
        ));
    }
}

/// Domain sum A: reverse-adjusted answers to questions 1..=17.
pub open spec fn spec_sum_a(s: Seq<u8>) -> int {
    sum_adjusted(s, 0, 17)
}

/// Domain sum B: reverse-adjusted answers to questions 18..=46.
pub open spec fn spec_sum_b(s: Seq<u8>) -> int {
    sum_adjusted(s, 17, 46)
}

/// Domain sum C: reverse-adjusted answers to questions 47..=55 (the last
/// two questions of the survey are not counted in any domain).
pub open spec fn spec_sum_c(s: Seq<u8>) -> int {
    sum_adjusted(s, 46, 55)
}

/// Result of the sum-up aggregation method: the three domain sums of
/// reverse-adjusted raw answers.
#[derive(Debug, Clone, Copy, PartialEq, Eq, Structural)]
pub struct SumupScore {
    pub sum_a: u8,
    pub sum_b: u8,
    pub sum_c: u8,
}

/// The sums a fully populated store can produce under the sum-up method:
/// 17, 29 and 9 answers respectively, each contributing 1..=4.
pub open spec fn sumup_inv(score: SumupScore) -> bool {
    &&& 17 <= score.sum_a <= 68
    &&& 29 <= score.sum_b <= 116
    &&& 9 <= score.sum_c <= 36
}

/// The sum-up result determined by a store's contents: each domain sum
/// equals the adjusted-answer sum over its fixed index window.
pub open spec fn sumup_matches(s: Seq<u8>, score: SumupScore) -> bool {
    &&& score.sum_a as int == spec_sum_a(s)
    &&& score.sum_b as int == spec_sum_b(s)
    &&& score.sum_c as int == spec_sum_c(s)
}

impl Stress for SumupScore {
    open spec fn inv(&self) -> bool {
        sumup_inv(*self)
    }

    open spec fn spec_scores(&self) -> (int, int, int) {
        (self.sum_a as int, self.sum_b as int, self.sum_c as int)
    }

    /// High stress under the sum-up rule: B >= 77, or A + C >= 76 together
    /// with B >= 63.
    open spec fn spec_has_stress(&self) -> bool {
        self.sum_b >= 77 || (self.sum_a + self.sum_c >= 76 && self.sum_b >= 63)
    }

    fn scores(&self) -> (r: (u8, u8, u8)) {
        (self.sum_a, self.sum_b, self.sum_c)
    }

    fn has_stress(&self) -> (r: bool) {
        self.sum_b >= 77 || (self.sum_a + self.sum_c >= 76 && self.sum_b >= 63)
    }
}

impl AnswerStore {
    /// Sum-up aggregation: fails with `NotFulfilled` exactly when some slot
    /// is unset; otherwise applies the reverse-scoring adjustment to every
    /// answer and returns the three domain sums over the fixed windows
    /// (questions 1..=17, 18..=46, 47..=55).
    pub fn to_sumup_score(&self) -> (r: Result<SumupScore, Error>)
        requires
            self.wf(),
        ensures
            !self.is_full() ==> r == Err::<SumupScore, Error>(Error::NotFulfilled),
            self.is_full() ==> {
                &&& r is Ok
                &&& sumup_matches(self@, r->Ok_0)
                &&& sumup_inv(r->Ok_0)
            },
    {
        if !self.all_set() {
            return Err(Error::NotFulfilled);
        }
        proof {
            assert forall|i: int| 0 <= i < self@.len() implies 1 <= #[trigger] self@[i] <= 4 by {
                assert(self@[i] != 0);
            }
        }
        let sum_a = self.sum_window(0, 17);
        let sum_b = self.sum_window(17, 46);
        let sum_c = self.sum_window(46, 55);
        Ok(SumupScore { sum_a, sum_b, sum_c })
    }

    /// Sums the reverse-adjusted answers over the 0-based window `[lo, hi)`.
    fn sum_window(&self, lo: usize, hi: usize) -> (sum: u8)
        requires
            self.wf(),
            lo <= hi <= QUESTION_COUNT,
            hi - lo <= 29,
            forall|i: int| 0 <= i < self@.len() ==> 1 <= #[trigger] self@[i] <= 4,
        ensures
            sum as int == sum_adjusted(self@, lo as int, hi as int),
            hi - lo <= sum <= 4 * (hi - lo),
    {
        let mut sum: u8 = 0;
        let mut i: usize = lo;
        while i < hi
            invariant
                self.wf(),
                lo <= i <= hi <= QUESTION_COUNT,
                hi - lo <= 29,
                forall|j: int| 0 <= j < self@.len() ==> 1 <= #[trigger] self@[j] <= 4,
                sum as int == sum_adjusted(self@, lo as int, i as int),
                sum <= 4 * (i - lo),
            decreases hi - i,
        {
            let v = self.value_at(i);
            let adjusted = reverse_if((i + 1, v));
            proof {
                lemma_sum_adjusted_extend(self@, lo as int, i as int);
            }
            sum = sum + adjusted;
            i = i + 1;
        }
        proof {
            lemma_sum_adjusted_bounds(self@, lo as int, hi as int);
        }
        sum
    }
}

/// Sum-up scoring is deterministic: any two results that match stores with
/// the same contents are equal, so repeated calls on an unchanged store
/// return identical scores.
pub proof fn lemma_sumup_deterministic(s1: Seq<u8>, s2: Seq<u8>, r1: SumupScore, r2: SumupScore)
    requires
        s1 == s2,
        sumup_matches(s1, r1),
        sumup_matches(s2, r2),
    ensures
        r1 == r2,
{
}

} // verus!
