//! Gain resolution: selecting the active curve segment for a magnitude.
//!
//! A magnitude is carried as an exact rational `num / den` (pixels) so that
//! comparison with a threshold `t_h / 100` needs no rounding: the magnitude
//! lies within the segment exactly when `100 * num <= t_h * den`. The active
//! segment is the first whose threshold is at or above the magnitude, or the
//! last segment when the magnitude exceeds every threshold (extrapolation).

use vstd::prelude::*;

verus! {

use crate::curve::{CurveSegment, CurveTier, tier_wf};

/// Whether magnitude `num / den` lies at or below the threshold `t_h / 100`.
/// The comparison is inclusive: a magnitude exactly at a threshold belongs to
/// that segment.
pub open spec fn within_threshold(num: int, den: int, t_h: int) -> bool {
    100 * num <= t_h * den
}

/// Index of the active segment for magnitude `num / den`: the first segment
/// whose threshold is at or above the magnitude, or the last segment when no
/// threshold is.
pub open spec fn active_index(t: Seq<CurveSegment>, num: int, den: int) -> int
    recommends
        t.len() >= 1,
    decreases t.len(),
{
    if t.len() <= 1 {
        0
    } else if within_threshold(num, den, t[0].threshold_h as int) {
        0
    } else {
        1 + active_index(t.drop_first(), num, den)
    }
}

/// The active index is the unique position that no earlier segment admits the
/// magnitude and that either admits it itself or is the last.
pub proof fn lemma_active_index_unique(t: Seq<CurveSegment>, num: int, den: int, i: int)
    requires
        t.len() >= 1,
        0 <= i < t.len(),
        forall|j: int| 0 <= j < i ==> !within_threshold(num, den, (#[trigger] t[j]).threshold_h as int),
        within_threshold(num, den, t[i].threshold_h as int) || i == t.len() - 1,
    ensures
        active_index(t, num, den) == i,
    decreases t.len(),
{
    if t.len() == 1 {
    } else if within_threshold(num, den, t[0].threshold_h as int) {
        assert(i == 0);
    } else {
        assert(i >= 1) by {
            assert(!within_threshold(num, den, t[0].threshold_h as int));
        }
        let rest = t.drop_first();
        assert forall|j: int| 0 <= j < i - 1 implies !within_threshold(
            num,
            den,
            (#[trigger] rest[j]).threshold_h as int,
        ) by {
            assert(rest[j] == t[j + 1]);
        }
        assert(rest[i - 1] == t[i]);
        lemma_active_index_unique(rest, num, den, i - 1);
    }
}

/// In a well-formed curve, thresholds increase between any two positions, not
/// only adjacent ones.
pub proof fn lemma_thresholds_increase(t: Seq<CurveSegment>, i: int, j: int)
    requires
        tier_wf(t),
        0 <= i < j < t.len(),
    ensures
        t[i].threshold_h < t[j].threshold_h,
    decreases j - i,
{
    if j == i + 1 {
    } else {
        lemma_thresholds_increase(t, i, j - 1);
    }
}

/// Continuity at a threshold: a magnitude exactly equal to the threshold of
/// a segment selects that segment, never the next one.
pub proof fn lemma_resolve_at_threshold(t: Seq<CurveSegment>, num: int, den: int, i: int)
    requires
        tier_wf(t),
        den > 0,
        0 <= i < t.len(),
        100 * num == t[i].threshold_h * den,
    ensures
        active_index(t, num, den) == i,
{
    assert forall|j: int| 0 <= j < i implies !within_threshold(
        num,
        den,
        (#[trigger] t[j]).threshold_h as int,
    ) by {
        lemma_thresholds_increase(t, j, i);
        assert(t[j].threshold_h * den < t[i].threshold_h * den) by (nonlinear_arith)
            requires
                t[j].threshold_h < t[i].threshold_h,
                den > 0,
        ;
    }
    lemma_active_index_unique(t, num, den, i);
}

/// Extrapolation: a magnitude beyond every threshold selects the last
/// segment, whose slope and intercept apply unbounded.
pub proof fn lemma_resolve_beyond_last(t: Seq<CurveSegment>, num: int, den: int)
    requires
        tier_wf(t),
        den > 0,
        !within_threshold(num, den, t[t.len() - 1].threshold_h as int),
    ensures
        active_index(t, num, den) == t.len() - 1,
{
    let last = t.len() - 1;
    assert forall|j: int| 0 <= j < last implies !within_threshold(
        num,
        den,
        (#[trigger] t[j]).threshold_h as int,
    ) by {
        lemma_thresholds_increase(t, j, last);
        assert(t[j].threshold_h * den < t[last].threshold_h * den) by (nonlinear_arith)
            requires
                t[j].threshold_h < t[last].threshold_h,
                den > 0,
        ;
    }
    lemma_active_index_unique(t, num, den, last);
}

impl CurveTier {
    /// Scans the segments in order and returns the index of the active one
    /// for magnitude `num / den` pixels.
    pub fn resolve(&self, num: i128, den: i128) -> (idx: usize)
        requires
            tier_wf(self@),
            0 <= num,
            0 < den,
            100 * num <= i128::MAX,
            20000 * den <= i128::MAX,
        ensures
            idx == active_index(self@, num as int, den as int),
            idx < self@.len(),
    {
        let n = self.segments.len();
        let mut i: usize = 0;
        while i < n - 1
            invariant
                tier_wf(self@),
                n == self@.len(),
                1 <= n <= 4,
                0 <= i < n,
                0 <= num,
                0 < den,
                100 * num <= i128::MAX,
                20000 * den <= i128::MAX,
                forall|j: int|
                    0 <= j < i ==> !within_threshold(
                        num as int,
                        den as int,
                        (#[trigger] self@[j]).threshold_h as int,
                    ),
            decreases n - i,
        {
            let t_h = self.segments[i].threshold_h as i128;
            proof {
                assert(t_h * den <= 20000 * den && 0 < t_h * den) by (nonlinear_arith)
                    requires
                        0 < t_h <= 20000,
                        0 < den,
                ;
            }
            if 100 * num <= t_h * den {
                proof {
                    lemma_active_index_unique(self@, num as int, den as int, i as int);
                }
                return i;
            }
            i = i + 1;
        }
        proof {
            lemma_active_index_unique(self@, num as int, den as int, n - 1);
        }
        n - 1
    }
}

} // verus!
