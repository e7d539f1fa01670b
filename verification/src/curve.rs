//! The acceleration curve tables.
//!
//! A curve is an ordered run of segments with strictly increasing thresholds;
//! a table holds exactly eleven such curves, one per speed tier. Thresholds,
//! slopes and intercepts are stored in hundredths (every tuning value has at
//! most two decimals), so the tables are exact. The last segment of each
//! curve is the overflow segment: its slope and intercept apply to any
//! magnitude beyond the last threshold.
//!
//! The tables are fixed domain data; the constructors pin their full contents
//! and prove the data invariant: per curve, thresholds strictly increase, and
//! across tiers, slopes strictly increase at every segment position.

use vstd::prelude::*;

verus! {

/// One linear piece of an acceleration curve: for magnitudes up to
/// `threshold_h / 100` pixels, the accelerated displacement is
/// `(slope_h / 100) * v + (intercept_h / 100)` pixels at velocity `v`.
#[derive(Clone, Copy, Debug, PartialEq, Eq, Structural)]
pub struct CurveSegment {
    /// Upper magnitude bound of this segment, in hundredths of a pixel.
    pub threshold_h: i64,
    /// Slope, in hundredths.
    pub slope_h: i64,
    /// Intercept, in hundredths of a pixel; never positive in this family.
    pub intercept_h: i64,
}

/// One speed tier's curve: segments ordered by strictly increasing threshold.
pub struct CurveTier {
    pub segments: Vec<CurveSegment>,
}

/// Eleven curve tiers, indexed by speed 1 through 11.
pub struct CurveTable {
    pub tiers: Vec<CurveTier>,
}

impl View for CurveTier {
    type V = Seq<CurveSegment>;

    open spec fn view(&self) -> Seq<CurveSegment> {
        self.segments@
    }
}

impl View for CurveTable {
    type V = Seq<Seq<CurveSegment>>;

    open spec fn view(&self) -> Seq<Seq<CurveSegment>> {
        self.tiers@.map_values(|t: CurveTier| t@)
    }
}

/// Bounds on a single segment's tuning values; wide enough for both families
/// and tight enough to rule out overflow in the accelerator.
pub open spec fn seg_wf(s: CurveSegment) -> bool {
    &&& 0 < s.threshold_h <= 20000
    &&& 0 < s.slope_h <= 2000
    &&& -20000 <= s.intercept_h <= 0
}

/// A well-formed curve: one to four in-bounds segments, thresholds strictly
/// increasing in index order.
pub open spec fn tier_wf(t: Seq<CurveSegment>) -> bool {
    &&& 1 <= t.len() <= 4
    &&& forall|i: int| 0 <= i < t.len() ==> seg_wf(#[trigger] t[i])
    &&& forall|i: int| 0 <= i < t.len() - 1 ==> #[trigger] t[i].threshold_h < t[i + 1].threshold_h
}

/// A well-formed table: eleven well-formed curves of equal length whose
/// slopes strictly increase with the tier index at every segment position.
pub open spec fn table_wf(tb: Seq<Seq<CurveSegment>>) -> bool {
    &&& tb.len() == 11
    &&& forall|k: int| 0 <= k < tb.len() ==> tier_wf(#[trigger] tb[k])
    &&& forall|k: int| 0 <= k < tb.len() ==> (#[trigger] tb[k]).len() == tb[0].len()
    &&& forall|k: int, i: int|
        0 <= k < tb.len() - 1 && 0 <= i < tb[0].len() ==> #[trigger] tb[k][i].slope_h
            < tb[k + 1][i].slope_h
}

/// Abbreviation for a segment literal.
pub open spec fn sg(threshold_h: int, slope_h: int, intercept_h: int) -> CurveSegment {
    CurveSegment {
        threshold_h: threshold_h as i64,
        slope_h: slope_h as i64,
        intercept_h: intercept_h as i64,
    }
}

/// The mouse family: eleven tiers of three segments with integer pixel
/// thresholds 8, 32 and 128.
pub open spec fn mouse_table() -> Seq<Seq<CurveSegment>> {
    seq![
        seq![sg(800, 16, 0), sg(3200, 30, -112), sg(12800, 56, -944)],
        seq![sg(800, 32, 0), sg(3200, 60, -224), sg(12800, 112, -1888)],
        seq![sg(800, 64, 0), sg(3200, 120, -448), sg(12800, 224, -3776)],
        seq![sg(800, 80, 0), sg(3200, 150, -560), sg(12800, 280, -4720)],
        seq![sg(800, 92, 0), sg(3200, 240, -1184), sg(12800, 448, -7840)],
        seq![sg(800, 104, 0), sg(3200, 330, -1808), sg(12800, 616, -10960)],
        seq![sg(800, 110, 0), sg(3200, 375, -2120), sg(12800, 700, -12520)],
        seq![sg(800, 116, 0), sg(3200, 420, -2432), sg(12800, 784, -14080)],
        seq![sg(800, 122, 0), sg(3200, 465, -2744), sg(12800, 868, -15640)],
        seq![sg(800, 128, 0), sg(3200, 510, -3056), sg(12800, 952, -17200)],
        seq![sg(800, 134, 0), sg(3200, 555, -3368), sg(12800, 1036, -18760)],
    ]
}

/// The touchpad family: eleven tiers of four segments with fractional pixel
/// thresholds 1.27, 12.73, 19.09 and 81.46.
pub open spec fn touchpad_table() -> Seq<Seq<CurveSegment>> {
    seq![
        seq![sg(127, 14, 0), sg(1273, 25, -14), sg(1909, 53, -374), sg(8146, 103, -1319)],
        seq![sg(127, 19, 0), sg(1273, 33, -18), sg(1909, 71, -498), sg(8146, 137, -1758)],
        seq![sg(127, 24, 0), sg(1273, 41, -21), sg(1909, 88, -591), sg(8146, 171, -2088)],
        seq![sg(127, 28, 0), sg(1273, 49, -27), sg(1909, 106, -747), sg(8146, 205, -2637)],
        seq![sg(127, 38, 0), sg(1273, 66, -36), sg(1909, 141, -996), sg(8146, 273, -3516)],
        seq![sg(127, 47, 0), sg(1273, 82, -45), sg(1909, 177, -1245), sg(8146, 342, -4395)],
        seq![sg(127, 57, 0), sg(1273, 99, -54), sg(1909, 212, -1494), sg(8146, 410, -5274)],
        seq![sg(127, 71, 0), sg(1273, 124, -68), sg(1909, 265, -1868), sg(8146, 513, -6593)],
        seq![sg(127, 90, 0), sg(1273, 157, -86), sg(1909, 336, -2366), sg(8146, 649, -8351)],
        seq![sg(127, 108, 0), sg(1273, 190, -104), sg(1909, 407, -2864), sg(8146, 786, -10109)],
        seq![sg(127, 127, 0), sg(1273, 223, -122), sg(1909, 477, -3362), sg(8146, 923, -11867)],
    ]
}

/// The mouse table satisfies the data invariant.
#[verifier::rlimit(60)]
pub proof fn lemma_mouse_table_wf()
    ensures
        table_wf(mouse_table()),
{
    assert forall|k: int| 0 <= k < 11 implies tier_wf(#[trigger] mouse_table()[k]) by {
        assert(tier_wf(mouse_table()[0]));
        assert(tier_wf(mouse_table()[1]));
        assert(tier_wf(mouse_table()[2]));
        assert(tier_wf(mouse_table()[3]));
        assert(tier_wf(mouse_table()[4]));
        assert(tier_wf(mouse_table()[5]));
        assert(tier_wf(mouse_table()[6]));
        assert(tier_wf(mouse_table()[7]));
        assert(tier_wf(mouse_table()[8]));
        assert(tier_wf(mouse_table()[9]));
        assert(tier_wf(mouse_table()[10]));
    }
}

/// The touchpad table satisfies the data invariant.
#[verifier::rlimit(60)]
pub proof fn lemma_touchpad_table_wf()
    ensures
        table_wf(touchpad_table()),
{
    assert forall|k: int| 0 <= k < 11 implies tier_wf(#[trigger] touchpad_table()[k]) by {
        assert(tier_wf(touchpad_table()[0]));
        assert(tier_wf(touchpad_table()[1]));
        assert(tier_wf(touchpad_table()[2]));
        assert(tier_wf(touchpad_table()[3]));
        assert(tier_wf(touchpad_table()[4]));
        assert(tier_wf(touchpad_table()[5]));
        assert(tier_wf(touchpad_table()[6]));
        assert(tier_wf(touchpad_table()[7]));
        assert(tier_wf(touchpad_table()[8]));
        assert(tier_wf(touchpad_table()[9]));
        assert(tier_wf(touchpad_table()[10]));
    }
}

/// Builds a segment.
fn segment(threshold_h: i64, slope_h: i64, intercept_h: i64) -> (s: CurveSegment)
    ensures
        s == sg(threshold_h as int, slope_h as int, intercept_h as int),
{
    CurveSegment { threshold_h, slope_h, intercept_h }
}

impl CurveTable {
    /// Builds the mouse table, pinning its exact contents.
    pub fn mouse() -> (t: CurveTable)
        ensures
            t@ == mouse_table(),
            table_wf(t@),
    {
        let mut tiers: Vec<CurveTier> = Vec::new();
        tiers.push(
            CurveTier {
                segments: vec![segment(800, 16, 0), segment(3200, 30, -112), segment(12800, 56, -944)],
            },
        );
        tiers.push(
            CurveTier {
                segments: vec![segment(800, 32, 0), segment(3200, 60, -224), segment(12800, 112, -1888)],
            },
        );
        tiers.push(
            CurveTier {
                segments: vec![segment(800, 64, 0), segment(3200, 120, -448), segment(12800, 224, -3776)],
            },
        );
        tiers.push(
            CurveTier {
                segments: vec![segment(800, 80, 0), segment(3200, 150, -560), segment(12800, 280, -4720)],
            },
        );
        tiers.push(
            CurveTier {
                segments: vec![segment(800, 92, 0), segment(3200, 240, -1184), segment(12800, 448, -7840)],
            },
        );
        tiers.push(
            CurveTier {
                segments: vec![
                    segment(800, 104, 0),
                    segment(3200, 330, -1808),
                    segment(12800, 616, -10960),
                ],
            },
        );
        tiers.push(
            CurveTier {
                segments: vec![
                    segment(800, 110, 0),
                    segment(3200, 375, -2120),
                    segment(12800, 700, -12520),
                ],
            },
        );
        tiers.push(
            CurveTier {
                segments: vec![
                    segment(800, 116, 0),
                    segment(3200, 420, -2432),
                    segment(12800, 784, -14080),
                ],
            },
        );
        tiers.push(
            CurveTier {
                segments: vec![
                    segment(800, 122, 0),
                    segment(3200, 465, -2744),
                    segment(12800, 868, -15640),
                ],
            },
        );
        tiers.push(
            CurveTier {
                segments: vec![
                    segment(800, 128, 0),
                    segment(3200, 510, -3056),
                    segment(12800, 952, -17200),
                ],
            },
        );
        tiers.push(
            CurveTier {
                segments: vec![
                    segment(800, 134, 0),
                    segment(3200, 555, -3368),
                    segment(12800, 1036, -18760),
                ],
            },
        );
        let t = CurveTable { tiers };
        proof {
            assert(t@ =~~= mouse_table());
            lemma_mouse_table_wf();
        }
        t
    }

    /// Builds the touchpad table, pinning its exact contents.
    pub fn touchpad() -> (t: CurveTable)
        ensures
            t@ == touchpad_table(),
            table_wf(t@),
    {
        let mut tiers: Vec<CurveTier> = Vec::new();
        tiers.push(
            CurveTier {
                segments: vec![
                    segment(127, 14, 0),
                    segment(1273, 25, -14),
                    segment(1909, 53, -374),
                    segment(8146, 103, -1319),
                ],
            },
        );
        tiers.push(
            CurveTier {
                segments: vec![
                    segment(127, 19, 0),
                    segment(1273, 33, -18),
                    segment(1909, 71, -498),
                    segment(8146, 137, -1758),
                ],
            },
        );
        tiers.push(
            CurveTier {
                segments: vec![
                    segment(127, 24, 0),
                    segment(1273, 41, -21),
                    segment(1909, 88, -591),
                    segment(8146, 171, -2088),
                ],
            },
        );
        tiers.push(
            CurveTier {
                segments: vec![
                    segment(127, 28, 0),
                    segment(1273, 49, -27),
                    segment(1909, 106, -747),
                    segment(8146, 205, -2637),
                ],
            },
        );
        tiers.push(
            CurveTier {
                segments: vec![
                    segment(127, 38, 0),
                    segment(1273, 66, -36),
                    segment(1909, 141, -996),
                    segment(8146, 273, -3516),
                ],
            },
        );
        tiers.push(
            CurveTier {
                segments: vec![
                    segment(127, 47, 0),
                    segment(1273, 82, -45),
                    segment(1909, 177, -1245),
                    segment(8146, 342, -4395),
                ],
            },
        );
        tiers.push(
            CurveTier {
                segments: vec![
                    segment(127, 57, 0),
                    segment(1273, 99, -54),
                    segment(1909, 212, -1494),
                    segment(8146, 410, -5274),
                ],
            },
        );
        tiers.push(
            CurveTier {
                segments: vec![
                    segment(127, 71, 0),
                    segment(1273, 124, -68),
                    segment(1909, 265, -1868),
                    segment(8146, 513, -6593),
                ],
            },
        );
        tiers.push(
            CurveTier {
                segments: vec![
                    segment(127, 90, 0),
                    segment(1273, 157, -86),
                    segment(1909, 336, -2366),
                    segment(8146, 649, -8351),
                ],
            },
        );
        tiers.push(
            CurveTier {
                segments: vec![
                    segment(127, 108, 0),
                    segment(1273, 190, -104),
                    segment(1909, 407, -2864),
                    segment(8146, 786, -10109),
                ],
            },
        );
        tiers.push(
            CurveTier {
                segments: vec![
                    segment(127, 127, 0),
                    segment(1273, 223, -122),
                    segment(1909, 477, -3362),
                    segment(8146, 923, -11867),
                ],
            },
        );
        let t = CurveTable { tiers };
        proof {
            assert(t@ =~~= touchpad_table());
            lemma_touchpad_table_wf();
        }
        t
    }

    /// Returns the curve for a 1-indexed speed tier. The caller must have
    /// validated `speed`: the table itself performs no bounds checking.
    pub fn tier(&self, speed: i32) -> (t: &CurveTier)
        requires
            self@.len() == 11,
            1 <= speed <= 11,
        ensures
            t@ == self@[speed - 1],
    {
        &self.tiers[(speed - 1) as usize]
    }
}

} // verus!
