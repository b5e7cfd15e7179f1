use vstd::prelude::*;

verus! {

/// One answer choice of a question: its numeric score and its display label.
#[derive(Debug, Clone)]
pub struct Score {
    pub score: u8,
    pub text: String,
}

/// One survey question: a stable 1-based id, display text, the informational
/// reverse flag (the scoring core's own reverse-adjustment set is
/// authoritative), and the ordered answer choices.
#[derive(Debug, Clone)]
pub struct Question {
    pub id: u32,
    pub text: String,
    pub reverse: bool,
    pub scores: Vec<Score>,
}

/// A sub-block of questions sharing an optional instruction title.
#[derive(Debug)]
pub struct OuterQuestion {
    pub title: Option<String>,
    pub questions: Vec<Question>,
}

/// A survey theme: an instruction text over an ordered list of sub-blocks.
#[derive(Debug)]
pub struct Theme {
    pub theme: String,
    pub questions: Vec<OuterQuestion>,
}

/// Master representation of the 57-question survey catalog, grouped into
/// themes and sub-blocks purely for presentation.
#[derive(Debug)]
pub struct SimpleStress {
    pub simple_stress: Vec<Theme>,
}

/// Observable equality of questions: every field agrees, with the answer
/// choices compared as sequences.
pub open spec fn question_eq(a: Question, b: Question) -> bool {
    &&& a.id == b.id
    &&& a.text == b.text
    &&& a.reverse == b.reverse
    &&& a.scores@ == b.scores@
}

/// `a` lists the same questions as `b`, in the same order.
pub open spec fn questions_match(a: Seq<Question>, b: Seq<Question>) -> bool {
    &&& a.len() == b.len()
    &&& forall|i: int| 0 <= i < a.len() ==> question_eq(#[trigger] a[i], b[i])
}

/// Questions of a sequence of sub-blocks, flattened in order.
pub open spec fn outer_flat(os: Seq<OuterQuestion>) -> Seq<Question>
    decreases os.len(),
{
    if os.len() == 0 {
        Seq::empty()
    } else {
        os.first().questions@ + outer_flat(os.drop_first())
    }
}

/// Questions of a sequence of themes, flattened in order.
pub open spec fn theme_flat(ts: Seq<Theme>) -> Seq<Question>
    decreases ts.len(),
{
    if ts.len() == 0 {
        Seq::empty()
    } else {
        outer_flat(ts.first().questions@) + theme_flat(ts.drop_first())
    }
}

/// Flattening distributes over concatenation of sub-block sequences.
proof fn lemma_outer_flat_app(a: Seq<OuterQuestion>, b: Seq<OuterQuestion>)
    ensures
        outer_flat(a + b) == outer_flat(a) + outer_flat(b),
    decreases a.len(),
{
    if a.len() == 0 {
        assert(a + b =~= b);
        assert(outer_flat(a) + outer_flat(b) =~= outer_flat(b));
    } else {
        lemma_outer_flat_app(a.drop_first(), b);
        assert((a + b).drop_first() =~= a.drop_first() + b);
        assert((a + b).first() == a.first());
        assert(a.first().questions@ + (outer_flat(a.drop_first()) + outer_flat(b)) =~= (
        a.first().questions@ + outer_flat(a.drop_first())) + outer_flat(b));
    }
}

/// Flattening distributes over concatenation of theme sequences.
proof fn lemma_theme_flat_app(a: Seq<Theme>, b: Seq<Theme>)
    ensures
        theme_flat(a + b) == theme_flat(a) + theme_flat(b),
    decreases a.len(),
{
    if a.len() == 0 {
        assert(a + b =~= b);
        assert(theme_flat(a) + theme_flat(b) =~= theme_flat(b));
    } else {
        lemma_theme_flat_app(a.drop_first(), b);
        assert((a + b).drop_first() =~= a.drop_first() + b);
        assert((a + b).first() == a.first());
        assert(outer_flat(a.first().questions@) + (theme_flat(a.drop_first()) + theme_flat(b)) =~= (
        outer_flat(a.first().questions@) + theme_flat(a.drop_first())) + theme_flat(b));
    }
}

/// Taking one more sub-block appends that sub-block's questions.
proof fn lemma_outer_flat_snoc(os: Seq<OuterQuestion>, i: int)
    requires
        0 <= i < os.len(),
    ensures
        outer_flat(os.take(i + 1)) == outer_flat(os.take(i)) + os[i].questions@,
{
    assert(os.take(i + 1) =~= os.take(i) + seq![os[i]]);
    lemma_outer_flat_app(os.take(i), seq![os[i]]);
    assert(seq![os[i]].drop_first() =~= Seq::<OuterQuestion>::empty());
    assert(outer_flat(seq![os[i]]) == os[i].questions@ + outer_flat(seq![os[i]].drop_first()));
    assert(os[i].questions@ + Seq::<Question>::empty() =~= os[i].questions@);
}

/// Taking one more theme appends that theme's flattened questions.
proof fn lemma_theme_flat_snoc(ts: Seq<Theme>, i: int)
    requires
        0 <= i < ts.len(),
    ensures
        theme_flat(ts.take(i + 1)) == theme_flat(ts.take(i)) + outer_flat(ts[i].questions@),
{
    assert(ts.take(i + 1) =~= ts.take(i) + seq![ts[i]]);
    lemma_theme_flat_app(ts.take(i), seq![ts[i]]);
    assert(seq![ts[i]].drop_first() =~= Seq::<Theme>::empty());
    assert(theme_flat(seq![ts[i]]) == outer_flat(ts[i].questions@) + theme_flat(
        seq![ts[i]].drop_first(),
    ));
    assert(outer_flat(ts[i].questions@) + Seq::<Question>::empty() =~= outer_flat(
        ts[i].questions@,
    ));
}

/// Some question in `qs` carries the id.
pub open spec fn has_question(qs: Seq<Question>, id: u32) -> bool {
    exists|i: int| 0 <= i < qs.len() && #[trigger] qs[i].id == id
}

/// Copies a question field by field, so that callers can hand out owned
/// questions from the borrowed catalog.
fn clone_question(q: &Question) -> (r: Question)
    ensures
        question_eq(r, *q),
{
    let mut scores: Vec<Score> = Vec::new();
    let mut i: usize = 0;
    while i < q.scores.len()
        invariant
            0 <= i <= q.scores@.len(),
            scores@ == q.scores@.take(i as int),
        decreases q.scores@.len() - i,
    {
        let s = &q.scores[i];
        scores.push(Score { score: s.score, text: s.text.clone() });
        proof {
            assert(q.scores@[i as int] == Score { score: s.score, text: s.text });
            assert(q.scores@.take(i + 1) =~= q.scores@.take(i as int).push(q.scores@[i as int]));
        }
        i = i + 1;
    }
    proof {
        assert(q.scores@.take(q.scores@.len() as int) =~= q.scores@);
    }
    Question { id: q.id, text: q.text.clone(), reverse: q.reverse, scores }
}

impl SimpleStress {
    /// The ordered catalog of all questions, flattened across themes and
    /// sub-blocks.
    pub open spec fn catalog(&self) -> Seq<Question> {
        theme_flat(self.simple_stress@)
    }

    /// Returns all questions of the catalog in order.
    pub fn questions(&self) -> (r: Vec<Question>)
        ensures
            questions_match(r@, self.catalog()),
    {
        let ghost ss = self.simple_stress@;
        let mut out: Vec<Question> = Vec::new();
        let mut ti: usize = 0;
        while ti < self.simple_stress.len()
            invariant
                0 <= ti <= ss.len(),
                ss == self.simple_stress@,
                questions_match(out@, theme_flat(ss.take(ti as int))),
            decreases ss.len() - ti,
        {
            let theme = &self.simple_stress[ti];
            let mut oi: usize = 0;
            while oi < theme.questions.len()
                invariant
                    0 <= ti < ss.len(),
                    0 <= oi <= theme.questions@.len(),
                    ss == self.simple_stress@,
                    *theme == ss[ti as int],
                    questions_match(
                        out@,
                        theme_flat(ss.take(ti as int)) + outer_flat(
                            theme.questions@.take(oi as int),
                        ),
                    ),
                decreases theme.questions@.len() - oi,
            {
                let outer = &theme.questions[oi];
                let mut qi: usize = 0;
                while qi < outer.questions.len()
                    invariant
                        0 <= ti < ss.len(),
                        0 <= oi < theme.questions@.len(),
                        0 <= qi <= outer.questions@.len(),
                        ss == self.simple_stress@,
                        *theme == ss[ti as int],
                        *outer == theme.questions@[oi as int],
                        questions_match(
                            out@,
                            (theme_flat(ss.take(ti as int)) + outer_flat(
                                theme.questions@.take(oi as int),
                            )) + outer.questions@.take(qi as int),
                        ),
                    decreases outer.questions@.len() - qi,
                {
                    let ghost prefix = theme_flat(ss.take(ti as int)) + outer_flat(
                        theme.questions@.take(oi as int),
                    );
                    let q = clone_question(&outer.questions[qi]);
                    out.push(q);
                    proof {
                        assert(prefix + outer.questions@.take(qi + 1) =~= (prefix
                            + outer.questions@.take(qi as int)).push(
                            outer.questions@[qi as int],
                        ));
                    }
                    qi = qi + 1;
                }
                proof {
                    assert(outer.questions@.take(outer.questions@.len() as int)
                        =~= outer.questions@);
                    lemma_outer_flat_snoc(theme.questions@, oi as int);
                    assert(theme_flat(ss.take(ti as int)) + outer_flat(
                        theme.questions@.take(oi + 1),
                    ) =~= (theme_flat(ss.take(ti as int)) + outer_flat(
                        theme.questions@.take(oi as int),
                    )) + theme.questions@[oi as int].questions@);
                }
                oi = oi + 1;
            }
            proof {
                assert(theme.questions@.take(theme.questions@.len() as int) =~= theme.questions@);
                lemma_theme_flat_snoc(ss, ti as int);
            }
            ti = ti + 1;
        }
        proof {
            assert(ss.take(ss.len() as int) =~= ss);
        }
        out
    }

    /// Returns the question at a 0-based position of the flattened catalog,
    /// or `None` past its end.
    pub fn get(&self, index: usize) -> (r: Option<Question>)
        ensures
            index < self.catalog().len() ==> r is Some && question_eq(
                r->0,
                self.catalog()[index as int],
            ),
            index >= self.catalog().len() ==> r is None,
    {
        let mut all = self.questions();
        if index < all.len() {
            Some(all.remove(index))
        } else {
            None
        }
    }

    /// Returns the first question carrying the given id, or `None` when no
    /// question of the catalog has it.
    pub fn question(&self, id: u32) -> (r: Option<Question>)
        ensures
            r is Some <==> has_question(self.catalog(), id),
            r is Some ==> exists|i: int|
                {
                    &&& 0 <= i < self.catalog().len()
                    &&& (#[trigger] self.catalog()[i]).id == id
                    &&& question_eq(r->0, self.catalog()[i])
                    &&& forall|j: int| 0 <= j < i ==> self.catalog()[j].id != id
                },
    {
        let mut all = self.questions();
        let mut i: usize = 0;
        while i < all.len()
            invariant
                0 <= i <= all@.len(),
                questions_match(all@, self.catalog()),
                forall|j: int| 0 <= j < i ==> self.catalog()[j].id != id,
            decreases all@.len() - i,
        {
            if all[i].id == id {
                let ghost wi = i as int;
                let q = all.remove(i);
                proof {
                    assert(question_eq(q, self.catalog()[wi]));
                }
                return Some(q);
            }
            i = i + 1;
        }
        None
    }
}

} // verus!
