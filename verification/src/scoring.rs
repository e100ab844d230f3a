//! Scoring the rows that the catalog offers for a streamed track, and
//! choosing the best among them.

use vstd::prelude::*;
use vstd::arithmetic::div_mod::{lemma_fundamental_div_mod, lemma_fundamental_div_mod_converse};

verus! {

/// What a candidate row scores against a streamed track.
///
/// `name` is the similarity of the song names, from 0 to 100. `total` is the
/// sum of the scores of the artist pairs and `count` the larger of the two
/// numbers of artists, so that `total / count` is the artist score. The
/// score of the row is the mean of the name score and the artist score; it
/// is kept as these three numbers so that rows are compared exactly. A row
/// without artists on either side has the artist score 0.
#[derive(Debug, Clone, Copy, PartialEq, Eq)]
pub struct RowScore {
    pub name: u8,
    pub total: u128,
    pub count: usize,
}

impl RowScore {
    /// Whether the numbers can be those of a row: no pair scores above 100,
    /// and there are no more pairs than `count`.
    pub open spec fn valid(self) -> bool {
        self.name <= 100 && self.total <= 100 * self.count
    }

    /// The number that the artist score is divided by.
    pub open spec fn parts(self) -> int {
        if self.count == 0 {
            1
        } else {
            self.count as int
        }
    }

    /// Twice the score, multiplied by `parts`: a whole number.
    pub open spec fn weight(self) -> int {
        self.name * self.parts() + self.total
    }

    /// Whether this score is greater than `other`.
    pub open spec fn exceeds(self, other: RowScore) -> bool {
        self.weight() * other.parts() > other.weight() * self.parts()
    }

    /// Whether this score is as great as `other`.
    pub open spec fn ties(self, other: RowScore) -> bool {
        self.weight() * other.parts() == other.weight() * self.parts()
    }

    /// The score rounded down to a whole number: the certainty of a match.
    pub open spec fn floor(self) -> int {
        self.weight() / (2 * self.parts())
    }

    /// The whole part of twice the score.
    pub open spec fn whole(self) -> int {
        self.name + self.total as int / self.parts()
    }

    /// What twice the score has beyond its whole part, multiplied by `parts`.
    pub open spec fn rest(self) -> int {
        self.total as int % self.parts()
    }

    /// Twice the score is its whole part and a rest of less than one.
    pub proof fn lemma_weight(self)
        requires
            self.valid(),
        ensures
            self.weight() == self.whole() * self.parts() + self.rest(),
            0 <= self.rest() < self.parts(),
            0 <= self.whole() <= 200,
            self.floor() == self.whole() / 2,
            0 <= self.floor() <= 100,
    {
        let n = self.parts();
        let t = self.total as int;
        let w = self.whole();
        let r = self.rest();
        lemma_fundamental_div_mod(t, n);
        assert(self.name * n + (n * (t / n) + r) == (self.name + t / n) * n + r) by (nonlinear_arith);
        assert(t / n <= 100) by (nonlinear_arith)
            requires
                0 <= t <= 100 * n,
                n > 0,
        ;
        assert(0 <= t / n) by (nonlinear_arith)
            requires
                0 <= t,
                n > 0,
        ;
        let half = w / 2;
        let odd = w % 2;
        lemma_fundamental_div_mod(w, 2);
        assert(w * n + r == (2 * n) * half + (odd * n + r)) by (nonlinear_arith)
            requires
                w == 2 * half + odd,
        ;
        assert(0 <= odd * n + r < 2 * n) by (nonlinear_arith)
            requires
                0 <= odd <= 1,
                0 <= r < n,
        ;
        lemma_fundamental_div_mod_converse(w * n + r, 2 * n, half, odd * n + r);
    }
}

/// How two scores compare by their whole parts and rests.
pub proof fn lemma_compare(a: RowScore, b: RowScore)
    requires
        a.valid(),
        b.valid(),
    ensures
        a.exceeds(b) <==> a.whole() > b.whole() || (a.whole() == b.whole() && a.rest() * b.parts()
            > b.rest() * a.parts()),
        a.ties(b) <==> a.whole() == b.whole() && a.rest() * b.parts() == b.rest() * a.parts(),
{
    a.lemma_weight();
    b.lemma_weight();
    let (w1, r1, n1) = (a.whole(), a.rest(), a.parts());
    let (w2, r2, n2) = (b.whole(), b.rest(), b.parts());
    assert((w1 * n1 + r1) * n2 == w1 * (n1 * n2) + r1 * n2) by (nonlinear_arith);
    assert((w2 * n2 + r2) * n1 == w2 * (n1 * n2) + r2 * n1) by (nonlinear_arith);
    assert(0 <= r1 * n2 < n1 * n2) by (nonlinear_arith)
        requires
            0 <= r1 < n1,
            n2 > 0,
    ;
    assert(0 <= r2 * n1 < n1 * n2) by (nonlinear_arith)
        requires
            0 <= r2 < n2,
            n1 > 0,
    ;
    let m = n1 * n2;
    if w1 > w2 {
        assert(w1 * m >= w2 * m + m) by (nonlinear_arith)
            requires
                w1 >= w2 + 1,
                m > 0,
        ;
    } else if w1 < w2 {
        assert(w2 * m >= w1 * m + m) by (nonlinear_arith)
            requires
                w2 >= w1 + 1,
                m > 0,
        ;
    }
}

impl RowScore {
    fn split(&self) -> (r: (u128, u128, u128))
        requires
            self.valid(),
        ensures
            r.0 == self.whole(),
            r.1 == self.rest(),
            r.2 == self.parts(),
            r.1 < r.2 <= usize::MAX,
            r.0 <= 200,
    {
        let n: u128 = if self.count == 0 {
            1
        } else {
            self.count as u128
        };
        proof {
            self.lemma_weight();
        }
        (self.name as u128 + self.total / n, self.total % n, n)
    }

    /// Whether this score is greater than `other`.
    pub fn is_above(&self, other: &RowScore) -> (b: bool)
        requires
            self.valid(),
            other.valid(),
        ensures
            b == self.exceeds(*other),
    {
        let (w1, r1, n1) = self.split();
        let (w2, r2, n2) = other.split();
        proof {
            lemma_compare(*self, *other);
            assert(r1 * n2 <= 0xFFFF_FFFF_FFFF_FFFF * 0xFFFF_FFFF_FFFF_FFFF) by (nonlinear_arith)
                requires
                    0 <= r1 <= 0xFFFF_FFFF_FFFF_FFFF,
                    0 <= n2 <= 0xFFFF_FFFF_FFFF_FFFF,
            ;
            assert(r2 * n1 <= 0xFFFF_FFFF_FFFF_FFFF * 0xFFFF_FFFF_FFFF_FFFF) by (nonlinear_arith)
                requires
                    0 <= r2 <= 0xFFFF_FFFF_FFFF_FFFF,
                    0 <= n1 <= 0xFFFF_FFFF_FFFF_FFFF,
            ;
        }
        w1 > w2 || (w1 == w2 && r1 * n2 > r2 * n1)
    }

    /// Whether this score is as great as `other`.
    pub fn is_level(&self, other: &RowScore) -> (b: bool)
        requires
            self.valid(),
            other.valid(),
        ensures
            b == self.ties(*other),
    {
        let (w1, r1, n1) = self.split();
        let (w2, r2, n2) = other.split();
        proof {
            lemma_compare(*self, *other);
            assert(r1 * n2 <= 0xFFFF_FFFF_FFFF_FFFF * 0xFFFF_FFFF_FFFF_FFFF) by (nonlinear_arith)
                requires
                    0 <= r1 <= 0xFFFF_FFFF_FFFF_FFFF,
                    0 <= n2 <= 0xFFFF_FFFF_FFFF_FFFF,
            ;
            assert(r2 * n1 <= 0xFFFF_FFFF_FFFF_FFFF * 0xFFFF_FFFF_FFFF_FFFF) by (nonlinear_arith)
                requires
                    0 <= r2 <= 0xFFFF_FFFF_FFFF_FFFF,
                    0 <= n1 <= 0xFFFF_FFFF_FFFF_FFFF,
            ;
        }
        w1 == w2 && r1 * n2 == r2 * n1
    }

    /// The score rounded down to a whole number, from 0 to 100.
    pub fn certainty(&self) -> (c: i32)
        requires
            self.valid(),
        ensures
            c == self.floor(),
            0 <= c <= 100,
    {
        let (w, _, _) = self.split();
        proof {
            self.lemma_weight();
        }
        (w / 2) as i32
    }
}

/// The place of the greatest of some scores; of equal greatest scores the
/// first one.
pub open spec fn first_best(scores: Seq<RowScore>) -> int
    decreases scores.len(),
{
    if scores.len() <= 1 {
        0
    } else {
        let before = first_best(scores.drop_last());
        if scores.last().exceeds(scores[before]) {
            scores.len() - 1
        } else {
            before
        }
    }
}

/// The place that `first_best` names lies within the scores, and no score
/// exceeds the one that it holds.
pub proof fn lemma_first_best(scores: Seq<RowScore>)
    requires
        scores.len() > 0,
    ensures
        0 <= first_best(scores) < scores.len(),
        forall|i: int|
            0 <= i < scores.len() ==> !(#[trigger] scores[i]).exceeds(scores[first_best(scores)]),
    decreases scores.len(),
{
    if scores.len() > 1 {
        let init = scores.drop_last();
        let last = scores.last();
        lemma_first_best(init);
        let before = first_best(init);
        let best = scores[first_best(scores)];
        assert(init[before] == scores[before]);
        assert forall|i: int| 0 <= i < scores.len() implies !(#[trigger] scores[i]).exceeds(
            best,
        ) by {
            let s = scores[i];
            let old = scores[before];
            if i < init.len() {
                assert(init[i] == s);
                if last.exceeds(old) {
                    lemma_exceeds_chain(s, old, last);
                }
            }
        }
    }
}

/// A score that does not exceed a second score does not exceed a third that
/// exceeds the second.
pub proof fn lemma_exceeds_chain(a: RowScore, b: RowScore, c: RowScore)
    requires
        !a.exceeds(b),
        c.exceeds(b),
    ensures
        !a.exceeds(c),
        !a.ties(c),
{
    let (x, p) = (a.weight(), a.parts());
    let (y, q) = (b.weight(), b.parts());
    let (z, r) = (c.weight(), c.parts());
    // x*q <= y*p and z*q > y*r; then x*r*q <= y*p*r < z*q*p, so x*r < z*p.
    assert(x * q * r <= y * p * r) by (nonlinear_arith)
        requires
            x * q <= y * p,
            r > 0,
    ;
    assert(y * r * p < z * q * p) by (nonlinear_arith)
        requires
            y * r < z * q,
            p > 0,
    ;
    assert(x * r < z * p) by (nonlinear_arith)
        requires
            x * q * r <= y * p * r,
            y * r * p < z * q * p,
            q > 0,
    ;
}

/// The outcome of ranking the rows of a candidate list.
#[derive(Debug, Clone, Copy, PartialEq, Eq)]
pub struct Ranking {
    /// The place of the best row: the first of the rows with the greatest
    /// score. `None` where there is no row.
    pub best: Option<usize>,
    /// The greatest score, rounded down; 0 where there is no row.
    pub certainty: i32,
}

/// Ranks the rows of a candidate list by their scores.
pub fn rank_rows(scores: &Vec<RowScore>) -> (r: Ranking)
    requires
        forall|i: int| 0 <= i < scores@.len() ==> (#[trigger] scores@[i]).valid(),
    ensures
        r.best is None <==> scores@.len() == 0,
        r.best is Some ==> r.best->0 == first_best(scores@) && r.best->0 < scores@.len(),
        r.certainty == if scores@.len() == 0 {
            0
        } else {
            scores@[first_best(scores@)].floor()
        },
        0 <= r.certainty <= 100,
{
    if scores.len() == 0 {
        return Ranking { best: None, certainty: 0 };
    }
    let mut best: usize = 0;
    let mut i: usize = 1;
    proof {
        assert(scores@.take(1).len() == 1);
    }
    while i < scores.len()
        invariant
            1 <= i <= scores@.len(),
            best < i,
            best == first_best(scores@.take(i as int)),
            forall|i: int| 0 <= i < scores@.len() ==> (#[trigger] scores@[i]).valid(),
        decreases scores@.len() - i,
    {
        proof {
            let upto = scores@.take(i as int + 1);
            assert(upto.drop_last() == scores@.take(i as int));
            assert(upto.last() == scores@[i as int]);
            assert(upto[best as int] == scores@[best as int]);
        }
        if scores[i].is_above(&scores[best]) {
            best = i;
        }
        i += 1;
    }
    proof {
        assert(scores@.take(scores@.len() as int) == scores@);
    }
    Ranking { best: Some(best), certainty: scores[best].certainty() }
}

} // verus!
