use vstd::prelude::*;

use crate::error::Error;

verus! {

/// Number of questions in the survey, and so the fixed capacity of the store.
pub const QUESTION_COUNT: usize = 57;

/// Fixed-capacity container for the 57 survey answers. Each slot holds 0
/// while unset, or an answer in 1..=4 once written. `offset` is the next
/// append position used by `push`; `insert` writes by 1-based question
/// number without touching it.
#[derive(Debug, Clone)]
pub struct AnswerStore {
    values: Vec<u8>,
    offset: usize,
}

impl View for AnswerStore {
    type V = Seq<u8>;

    closed spec fn view(&self) -> Seq<u8> {
        self.values@
    }
}

/// A slot value is either the unset sentinel 0 or an answer in 1..=4.
pub open spec fn valid_slot(v: u8) -> bool {
    v == 0 || (1 <= v <= 4)
}

impl AnswerStore {
    /// Next append position, 0..=57.
    pub closed spec fn offset(&self) -> int {
        self.offset as int
    }

    /// Structural invariant: exactly 57 slots, each unset or in 1..=4, and
    /// the append position never exceeds the capacity.
    pub open spec fn wf(&self) -> bool {
        &&& self@.len() == QUESTION_COUNT
        &&& forall|i: int| 0 <= i < self@.len() ==> valid_slot(#[trigger] self@[i])
        &&& 0 <= self.offset() <= QUESTION_COUNT
    }

    /// Every one of the 57 slots has been set.
    pub open spec fn is_full(&self) -> bool {
        forall|i: int| 0 <= i < self@.len() ==> #[trigger] self@[i] != 0
    }

    /// Appends an answer at the current offset. Rejects an answer outside
    /// 1..=4 with `IllegalAnswer`, and a 58th append with `IllegalQuestion`;
    /// on rejection the store is unchanged.
    pub fn push(&mut self, score: u8) -> (r: Result<(), Error>)
        requires
            old(self).wf(),
        ensures
            final(self).wf(),
            1 <= score <= 4 && old(self).offset() < QUESTION_COUNT ==> {
                &&& r == Ok::<(), Error>(())
                &&& final(self)@ == old(self)@.update(old(self).offset(), score)
                &&& final(self).offset() == old(self).offset() + 1
            },
            !(1 <= score <= 4) ==> r == Err::<(), Error>(Error::IllegalAnswer) && *final(self)
                == *old(self),
            1 <= score <= 4 && old(self).offset() == QUESTION_COUNT ==> r == Err::<(), Error>(
                Error::IllegalQuestion,
            ) && *final(self) == *old(self),
    {
        if 1 <= score && score <= 4 {
            if self.offset < QUESTION_COUNT {
                self.values.set(self.offset, score);
                self.offset = self.offset + 1;
                Ok(())
            } else {
                Err(Error::IllegalQuestion)
            }
        } else {
            Err(Error::IllegalAnswer)
        }
    }

    /// Writes an answer at a 1-based question number, overwriting any
    /// earlier value and leaving the append offset alone. Question number 0
    /// is rejected with `IllegalQuestion` before anything else; then an
    /// answer outside 1..=4 with `IllegalAnswer`; then a question number
    /// above 57 with `IllegalQuestion`.
    pub fn insert(&mut self, question_no: u8, score: u8) -> (r: Result<(), Error>)
        requires
            old(self).wf(),
        ensures
            final(self).wf(),
            question_no == 0 ==> r == Err::<(), Error>(Error::IllegalQuestion) && *final(self)
                == *old(self),
            question_no >= 1 && !(1 <= score <= 4) ==> r == Err::<(), Error>(Error::IllegalAnswer)
                && *final(self) == *old(self),
            question_no > QUESTION_COUNT && 1 <= score <= 4 ==> r == Err::<(), Error>(
                Error::IllegalQuestion,
            ) && *final(self) == *old(self),
            1 <= question_no <= QUESTION_COUNT && 1 <= score <= 4 ==> {
                &&& r == Ok::<(), Error>(())
                &&& final(self)@ == old(self)@.update(question_no - 1, score)
                &&& final(self).offset() == old(self).offset()
            },
    {
        if question_no < 1 {
            return Err(Error::IllegalQuestion);
        }
        if 1 <= score && score <= 4 {
            let index: usize = (question_no - 1) as usize;
            if index < QUESTION_COUNT {
                self.values.set(index, score);
                Ok(())
            } else {
                Err(Error::IllegalQuestion)
            }
        } else {
            Err(Error::IllegalAnswer)
        }
    }

    /// Reads the slot at a 0-based position.
    pub(crate) fn value_at(&self, index: usize) -> (v: u8)
        requires
            self.wf(),
            index < QUESTION_COUNT,
        ensures
            v == self@[index as int],
    {
        self.values[index]
    }

    /// Reports whether every slot has been set, i.e. whether aggregation may
    /// proceed.
    pub(crate) fn all_set(&self) -> (b: bool)
        requires
            self.wf(),
        ensures
            b == self.is_full(),
    {
        let mut i: usize = 0;
        while i < QUESTION_COUNT
            invariant
                self.wf(),
                0 <= i <= QUESTION_COUNT,
                forall|j: int| 0 <= j < i ==> #[trigger] self@[j] != 0,
            decreases QUESTION_COUNT - i,
        {
            if self.values[i] == 0 {
                return false;
            }
            i = i + 1;
        }
        true
    }
}

impl Default for AnswerStore {
    /// A fresh store: all 57 slots unset and the append offset at 0.
    fn default() -> (r: Self)
        ensures
            r.wf(),
            r@.len() == QUESTION_COUNT,
            forall|i: int| 0 <= i < r@.len() ==> #[trigger] r@[i] == 0,
            r.offset() == 0,
    {
        let mut values: Vec<u8> = Vec::new();
        let mut i: usize = 0;
        while i < QUESTION_COUNT
            invariant
                0 <= i <= QUESTION_COUNT,
                values@.len() == i,
                forall|j: int| 0 <= j < i ==> #[trigger] values@[j] == 0,
            decreases QUESTION_COUNT - i,
        {
            values.push(0);
            i = i + 1;
        }
        AnswerStore { values, offset: 0 }
    }
}

} // verus!
