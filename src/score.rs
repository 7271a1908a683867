use vstd::prelude::*;

verus! {

/// `w` raised to `v` if `v` is higher.
pub open spec fn raised(w: int, v: int) -> int {
    if v > w {
        v
    } else {
        w
    }
}

/// The highest of `w` and every value of `vs`.
pub open spec fn highest(w: int, vs: Seq<int>) -> int
    decreases vs.len(),
{
    if vs.len() == 0 {
        w
    } else {
        raised(highest(w, vs.drop_last()), vs.last())
    }
}

/// A watermark is the highest of its start and of every value offered: at
/// least each of them, and equal to one of them.
pub proof fn lemma_highest_is_max(w: int, vs: Seq<int>)
    ensures
        highest(w, vs) >= w,
        forall|i: int| 0 <= i < vs.len() ==> highest(w, vs) >= #[trigger] vs[i],
        highest(w, vs) == w || exists|i: int| 0 <= i < vs.len() && #[trigger] vs[i] == highest(w, vs),
    decreases vs.len(),
{
    if vs.len() > 0 {
        let before = vs.drop_last();
        lemma_highest_is_max(w, before);
        assert forall|i: int| 0 <= i < vs.len() implies highest(w, vs) >= #[trigger] vs[i] by {
            if i < vs.len() - 1 {
                assert(vs[i] == before[i]);
            }
        }
        if highest(w, vs) != w && highest(w, vs) == highest(w, before) {
            let j = choose|j: int| 0 <= j < before.len() && #[trigger] before[j] == highest(w, before);
            assert(vs[j] == before[j]);
        }
    }
}

/// A watermark never goes down: after more values it is at least what it
/// was after fewer.
pub proof fn lemma_highest_non_decreasing(w: int, vs: Seq<int>, i: int, j: int)
    requires
        0 <= i <= j <= vs.len(),
    ensures
        highest(w, vs.subrange(0, i)) <= highest(w, vs.subrange(0, j)),
    decreases j - i,
{
    if i < j {
        lemma_highest_non_decreasing(w, vs, i, j - 1);
        assert(vs.subrange(0, j).drop_last() =~= vs.subrange(0, j - 1));
    }
}

proof fn lemma_highest_push(w: int, vs: Seq<int>, v: int)
    ensures
        highest(w, vs.push(v)) == raised(highest(w, vs), v),
{
    assert(vs.push(v).drop_last() =~= vs);
}

/// A watermark: the highest altitude offered so far, starting from zero.
pub struct PlayerScore {
    max_score: i64,
    offered: Ghost<Seq<int>>,
}

impl PlayerScore {
    pub closed spec fn value(&self) -> int {
        self.max_score as int
    }

    /// Every value offered so far, in order.
    pub closed spec fn offered(&self) -> Seq<int> {
        self.offered@
    }

    /// The value is the highest of zero and of every value offered.
    pub open spec fn wf(&self) -> bool {
        self.value() == highest(0, self.offered())
    }

    pub fn new() -> (r: PlayerScore)
        ensures
            r.wf(),
            r.value() == 0,
            r.offered() == Seq::<int>::empty(),
    {
        PlayerScore { max_score: 0, offered: Ghost(Seq::empty()) }
    }

    /// Raises the watermark to `new_score` if that is higher.
    pub fn set_score(&mut self, new_score: i64)
        requires
            old(self).wf(),
        ensures
            final(self).wf(),
            final(self).offered() == old(self).offered().push(new_score as int),
            final(self).value() == raised(old(self).value(), new_score as int),
    {
        proof {
            lemma_highest_push(0, self.offered@, new_score as int);
        }
        if new_score > self.max_score {
            self.max_score = new_score;
        }
        self.offered = Ghost(self.offered@.push(new_score as int));
    }

    pub fn get_score(&self) -> (r: i64)
        ensures
            r == self.value(),
    {
        self.max_score
    }
}

/// The best score over every run of this process.
pub struct MaxScore {
    pub score: PlayerScore,
}

impl Default for MaxScore {
    fn default() -> (r: MaxScore)
        ensures
            r.score.wf(),
            r.score.value() == 0,
            r.score.offered() == Seq::<int>::empty(),
    {
        MaxScore { score: PlayerScore::new() }
    }
}

} // verus!
