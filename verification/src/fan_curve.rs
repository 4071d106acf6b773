//! The fan-curve compiler: from a few anchor points to a table that gives a
//! duty for every temperature from 0 to 255.

use crate::config::{load_error, ConfigError, ResponseTime, TjaeleControlConfig};
use crate::curve_proofs::{
    lemma_above_facts, lemma_anchor_after, lemma_anchors_hold_their_duty, lemma_below_facts,
    lemma_compiled_curve_is_table, lemma_first_anchor, lemma_loaded_anchors,
    lemma_neighbours_rise, lemma_rise, lemma_table_entries,
};
use crate::curve_map::{lookup, try_insert};
use rustc_hash::FxHashMap;
use vstd::prelude::*;

verus! {

/// One anchor of a fan curve.
#[derive(Debug, Clone, Copy, PartialEq, Eq, Structural)]
pub struct FanCurvePoint {
    pub temp: u8,
    pub duty: u8,
}

/// The greatest anchor temperature that is at most `t`, or -1 where there is none.
pub open spec fn anchor_below(m: Map<u8, u8>, t: int) -> int
    decreases t + 1,
{
    if t < 0 {
        -1
    } else if t <= 255 && m.contains_key(t as u8) {
        t
    } else {
        anchor_below(m, t - 1)
    }
}

/// The least anchor temperature that is at least `t`, or 256 where there is none.
pub open spec fn anchor_above(m: Map<u8, u8>, t: int) -> int
    decreases 256 - t,
{
    if t > 255 {
        256
    } else if t >= 0 && m.contains_key(t as u8) {
        t
    } else {
        anchor_above(m, t + 1)
    }
}

/// `n / d`, rounded up.
pub open spec fn ceil_div(n: int, d: int) -> int {
    (n + d - 1) / d
}

/// The duty at `t` on the straight line from the anchor `(lo_t, lo_d)` to the
/// anchor `(hi_t, hi_d)`, with a fractional duty rounded up.
pub open spec fn interpolate(lo_t: int, lo_d: int, hi_t: int, hi_d: int, t: int) -> int {
    lo_d + ceil_div((hi_d - lo_d) * (t - lo_t), hi_t - lo_t)
}

/// The duty that the anchors `m` give to the temperature `t`: flat below the
/// first anchor and above the last one, the anchor's own duty at an anchor,
/// and the rounded-up line between the two neighbouring anchors elsewhere.
pub open spec fn curve_duty(m: Map<u8, u8>, t: int) -> int {
    let lo = anchor_below(m, t);
    let hi = anchor_above(m, t);
    if lo < 0 && hi > 255 {
        0
    } else if lo < 0 {
        m[hi as u8] as int
    } else if hi > 255 {
        m[lo as u8] as int
    } else if lo == hi {
        m[lo as u8] as int
    } else {
        interpolate(lo, m[lo as u8] as int, hi, m[hi as u8] as int, t)
    }
}

/// The table that the anchors `m` compile to.
pub open spec fn compiled_curve(m: Map<u8, u8>) -> Map<u8, u8> {
    Map::new(|t: u8| true, |t: u8| curve_duty(m, t as int) as u8)
}

/// How many anchors lie below the temperature `t`.
pub open spec fn anchors_under(m: Map<u8, u8>, t: int) -> nat
    decreases t,
{
    if t <= 0 {
        0
    } else {
        anchors_under(m, t - 1) + if m.contains_key((t - 1) as u8) {
            1nat
        } else {
            0nat
        }
    }
}

/// How many anchors there are.
pub open spec fn anchor_count(m: Map<u8, u8>) -> nat {
    anchors_under(m, 256)
}

/// Some anchor asks for more than 100 percent.
pub open spec fn has_high_duty(m: Map<u8, u8>) -> bool {
    exists|t: u8| m.contains_key(t) && #[trigger] m[t] > 100
}

/// Some anchor asks for less than a cooler anchor does.
pub open spec fn has_decreasing_pair(m: Map<u8, u8>) -> bool {
    exists|a: u8, b: u8|
        m.contains_key(a) && m.contains_key(b) && a < b && #[trigger] m[a] > #[trigger] m[b]
}

/// The first rule that the anchors break, or `None` where they can be compiled.
pub open spec fn anchor_error(m: Map<u8, u8>) -> Option<ConfigError> {
    if anchor_count(m) < 3 {
        Some(ConfigError::TooFewPoints)
    } else if has_high_duty(m) {
        Some(ConfigError::DutyTooHigh)
    } else if has_decreasing_pair(m) {
        Some(ConfigError::DecreasingDuty)
    } else {
        None
    }
}

/// Some temperature has no entry.
pub open spec fn lacks_entry(m: Map<u8, u8>) -> bool {
    exists|t: u8| !m.contains_key(t)
}

/// Some entry is lower than the entry of a lower temperature.
pub open spec fn falls_somewhere(m: Map<u8, u8>) -> bool {
    exists|a: u8, b: u8| a <= b && #[trigger] m[a] > #[trigger] m[b]
}

/// A complete fan-curve table: an entry for every temperature from 0 to 255,
/// none above 100 percent, and never falling as the temperature rises.
pub open spec fn is_fan_curve_table(m: Map<u8, u8>) -> bool {
    &&& forall|t: u8| m.contains_key(t)
    &&& forall|t: u8| #[trigger] m[t] <= 100
    &&& forall|a: u8, b: u8| a <= b ==> #[trigger] m[a] <= #[trigger] m[b]
}

/// What is wrong with a table, or `None` where it is a fan-curve table.
pub open spec fn table_error(m: Map<u8, u8>) -> Option<ConfigError> {
    if lacks_entry(m) {
        Some(ConfigError::GeneratedCurveIncomplete)
    } else if has_high_duty(m) {
        Some(ConfigError::GeneratedCurveDuty)
    } else if falls_somewhere(m) {
        Some(ConfigError::GeneratedCurveDirection)
    } else {
        None
    }
}

/// The points are the anchors of `m`, lowest temperature first.
pub open spec fn lists_anchors(m: Map<u8, u8>, pts: Seq<FanCurvePoint>) -> bool {
    &&& pts.len() == anchor_count(m)
    &&& forall|i: int|
        0 <= i < pts.len() ==> m.contains_key((#[trigger] pts[i]).temp) && m[pts[i].temp]
            == pts[i].duty
    &&& forall|i: int, j: int|
        0 <= i < j < pts.len() ==> (#[trigger] pts[i]).temp < (#[trigger] pts[j]).temp
    &&& forall|t: u8|
        m.contains_key(t) ==> exists|i: int| 0 <= i < pts.len() && (#[trigger] pts[i]).temp == t
}

/// The anchors that a list of points stands for: a temperature is an anchor
/// where a point of the list has it, with that point's duty.
pub open spec fn anchors_of(points: Seq<(u8, u8)>) -> Map<u8, u8> {
    Map::new(
        |t: u8| exists|i: int| 0 <= i < points.len() && (#[trigger] points[i]).0 == t,
        |t: u8| points[choose|i: int| 0 <= i < points.len() && (#[trigger] points[i]).0 == t].1,
    )
}

/// Some point of the list is warmer than another and asks for a lower duty.
pub open spec fn lists_decreasing(points: Seq<(u8, u8)>) -> bool {
    exists|i: int, j: int|
        0 <= i < points.len() && 0 <= j < points.len() && (#[trigger] points[i]).0 < (
        #[trigger] points[j]).0 && points[i].1 > points[j].1
}

/// The first rule that the settings break, or `None` where they give a
/// configuration with a complete table.
pub open spec fn settings_error(
    response_time: ResponseTime,
    hysteresis: u16,
    points: Seq<(u8, u8)>,
) -> Option<ConfigError> {
    match load_error(response_time, hysteresis, points) {
        Some(e) => Some(e),
        None => if lists_decreasing(points) {
            Some(ConfigError::DecreasingDuty)
        } else {
            None
        },
    }
}

/// The entries of the temperatures below `t`, lowest temperature first.
pub open spec fn entries_under(m: Map<u8, u8>, t: int) -> Seq<(u8, u8)>
    decreases t,
{
    if t <= 0 {
        Seq::empty()
    } else if m.contains_key((t - 1) as u8) {
        entries_under(m, t - 1).push(((t - 1) as u8, m[(t - 1) as u8]))
    } else {
        entries_under(m, t - 1)
    }
}

/// All entries of a curve, lowest temperature first.
pub open spec fn entries(m: Map<u8, u8>) -> Seq<(u8, u8)> {
    entries_under(m, 256)
}

/// The anchors of `m`, lowest temperature first.
fn sorted_anchors(m: &FxHashMap<u8, u8>) -> (pts: Vec<FanCurvePoint>)
    ensures
        lists_anchors(m@, pts@),
{
    let mut pts: Vec<FanCurvePoint> = Vec::new();
    let mut t: u32 = 0;
    while t < 256
        invariant
            t <= 256,
            pts@.len() == anchors_under(m@, t as int),
            forall|i: int|
                0 <= i < pts@.len() ==> m@.contains_key((#[trigger] pts@[i]).temp)
                    && m@[pts@[i].temp] == pts@[i].duty && pts@[i].temp < t,
            forall|i: int, j: int|
                0 <= i < j < pts@.len() ==> (#[trigger] pts@[i]).temp < (#[trigger] pts@[j]).temp,
            forall|k: u8|
                m@.contains_key(k) && k < t ==> exists|i: int|
                    0 <= i < pts@.len() && (#[trigger] pts@[i]).temp == k,
        decreases 256 - t,
    {
        let temp = t as u8;
        let ghost before = pts@;
        match lookup(m, temp) {
            Some(duty) => {
                pts.push(FanCurvePoint { temp, duty });
                proof {
                    assert forall|k: u8| m@.contains_key(k) && k < t + 1 implies exists|i: int|
                        0 <= i < pts@.len() && (#[trigger] pts@[i]).temp == k by {
                        if k == temp {
                            assert(pts@[before.len() as int].temp == k);
                        } else {
                            let i = choose|i: int|
                                0 <= i < before.len() && (#[trigger] before[i]).temp == k;
                            assert(pts@[i].temp == k);
                        }
                    }
                }
            },
            None => {},
        }
        t += 1;
    }
    pts
}

/// Holds the anchors to the rules of a fan curve.
fn check_anchors(pts: &Vec<FanCurvePoint>, Ghost(m): Ghost<Map<u8, u8>>) -> (r: Option<
    ConfigError,
>)
    requires
        lists_anchors(m, pts@),
    ensures
        r == anchor_error(m),
{
    if pts.len() < 3 {
        return Some(ConfigError::TooFewPoints);
    }
    let mut i: usize = 0;
    while i < pts.len()
        invariant
            i <= pts.len(),
            pts.len() >= 3,
            lists_anchors(m, pts@),
            forall|k: int| 0 <= k < i ==> (#[trigger] pts@[k]).duty <= 100,
        decreases pts.len() - i,
    {
        if pts[i].duty > 100 {
            proof {
                assert(m[pts@[i as int].temp] > 100);
            }
            return Some(ConfigError::DutyTooHigh);
        }
        i += 1;
    }
    proof {
        assert forall|t: u8| m.contains_key(t) implies #[trigger] m[t] <= 100 by {
            let k = choose|k: int| 0 <= k < pts@.len() && (#[trigger] pts@[k]).temp == t;
            assert(pts@[k].duty <= 100);
        }
    }
    let mut j: usize = 1;
    while j < pts.len()
        invariant
            1 <= j <= pts.len(),
            pts.len() >= 3,
            lists_anchors(m, pts@),
            !has_high_duty(m),
            forall|a: int, b: int|
                0 <= a <= b < j ==> (#[trigger] pts@[a]).duty <= (#[trigger] pts@[b]).duty,
        decreases pts.len() - j,
    {
        if pts[j - 1].duty > pts[j].duty {
            proof {
                let a = pts@[j - 1].temp;
                let b = pts@[j as int].temp;
                assert(m.contains_key(a) && m.contains_key(b) && a < b && m[a] > m[b]);
            }
            return Some(ConfigError::DecreasingDuty);
        }
        proof {
            assert forall|a: int, b: int| 0 <= a <= b < j + 1 implies (#[trigger] pts@[a]).duty <= (
            #[trigger] pts@[b]).duty by {
                if b == j && a < j {
                    assert(pts@[a].duty <= pts@[j - 1].duty);
                }
            }
        }
        j += 1;
    }
    proof {
        assert forall|a: u8, b: u8|
            m.contains_key(a) && m.contains_key(b) && a < b implies #[trigger] m[a]
            <= #[trigger] m[b] by {
            let i = choose|i: int| 0 <= i < pts@.len() && (#[trigger] pts@[i]).temp == a;
            let k = choose|k: int| 0 <= k < pts@.len() && (#[trigger] pts@[k]).temp == b;
            if i > k {
                assert(pts@[k].temp < pts@[i].temp);
            }
            assert(pts@[i].duty <= pts@[k].duty);
        }
    }
    None
}

/// The duty at `temp` on the line between two neighbouring anchors, rounded up.
fn duty_between(lo: FanCurvePoint, hi: FanCurvePoint, temp: u8) -> (duty: u8)
    requires
        lo.temp < temp < hi.temp,
        lo.duty <= hi.duty,
    ensures
        duty == interpolate(
            lo.temp as int,
            lo.duty as int,
            hi.temp as int,
            hi.duty as int,
            temp as int,
        ),
        lo.duty <= duty <= hi.duty,
{
    let rise: u32 = (hi.duty - lo.duty) as u32;
    let run: u32 = (hi.temp - lo.temp) as u32;
    let step: u32 = (temp - lo.temp) as u32;
    proof {
        lemma_rise(rise as int, step as int, step as int, run as int);
        assert(rise * step <= 255 * 255) by (nonlinear_arith)
            requires
                0 <= rise <= 255,
                0 <= step <= 255,
        ;
    }
    let gain: u32 = (rise * step + run - 1) / run;
    lo.duty + gain as u8
}

impl TjaeleControlConfig {
    /// Whether the fan curve is a complete table.
    pub open spec fn has_table(&self) -> bool {
        is_fan_curve_table(self.fan_curve@)
    }

    /// Compiles the anchors held in `fan_curve` to the complete table. The
    /// anchors are rejected where there are fewer than 3 of them, where one of
    /// them asks for more than 100 percent, or where a warmer one asks for
    /// less than a cooler one; nothing is corrected silently.
    pub fn precompute_fan_curve(self) -> (r: Result<Self, ConfigError>)
        ensures
            match r {
                Ok(cfg) => anchor_error(self.fan_curve@) is None && cfg.response_time
                    == self.response_time && cfg.hysteresis == self.hysteresis && cfg.fan_curve@
                    == compiled_curve(self.fan_curve@) && cfg.has_table(),
                Err(e) => anchor_error(self.fan_curve@) == Some(e),
            },
    {
        let ghost m0 = self.fan_curve@;
        let pts = sorted_anchors(&self.fan_curve);
        match check_anchors(&pts, Ghost(m0)) {
            Some(e) => {
                return Err(e);
            },
            None => {},
        }
        let TjaeleControlConfig { response_time, hysteresis, fan_curve } = self;
        let mut table = fan_curve;
        let mut next: usize = 0;
        let mut t: u32 = 0;
        proof {
            lemma_first_anchor(m0, pts@);
            lemma_anchors_hold_their_duty(m0);
        }
        while t < 256
            invariant
                t <= 256,
                next <= pts.len(),
                pts.len() >= 3,
                lists_anchors(m0, pts@),
                anchor_error(m0) is None,
                t <= 255 ==> anchor_below(m0, t as int - 1) == (if next > 0 {
                    pts@[next - 1].temp as int
                } else {
                    -1
                }),
                t <= 255 ==> anchor_above(m0, t as int) == (if next < pts.len() {
                    pts@[next as int].temp as int
                } else {
                    256
                }),
                forall|k: u8| #[trigger] table@.contains_key(k) <==> (m0.contains_key(k) || k < t),
                forall|k: u8|
                    #[trigger] table@.contains_key(k) ==> table@[k] as int == curve_duty(
                        m0,
                        k as int,
                    ),
            decreases 256 - t,
        {
            let temp = t as u8;
            proof {
                lemma_below_facts(m0, t as int - 1);
                lemma_above_facts(m0, t as int);
            }
            if next < pts.len() && pts[next].temp == temp {
                proof {
                    lemma_anchor_after(m0, pts@, next as int);
                }
                next += 1;
            } else {
                proof {
                    lemma_neighbours_rise(m0, pts@, next as int);
                }
                let duty = if next == 0 {
                    pts[0].duty
                } else if next == pts.len() {
                    pts[next - 1].duty
                } else {
                    duty_between(pts[next - 1], pts[next], temp)
                };
                if !try_insert(&mut table, temp, duty) {
                    return Err(ConfigError::PointOccupied);
                }
            }
            t += 1;
        }
        let cfg = TjaeleControlConfig { response_time, hysteresis, fan_curve: table };
        proof {
            lemma_compiled_curve_is_table(m0);
            assert forall|k: u8| #[trigger] cfg.fan_curve@.contains_key(k) && cfg.fan_curve@[k]
                == compiled_curve(m0)[k] by {
                assert(table@.contains_key(k));
            }
            assert(cfg.fan_curve@ =~= compiled_curve(m0));
        }
        match cfg.validate_fan_curve() {
            Ok(()) => Ok(cfg),
            Err(e) => Err(e),
        }
    }

    /// Walks the whole table once more: it must have an entry for every
    /// temperature, none above 100 percent, and must never fall.
    pub fn validate_fan_curve(&self) -> (r: Result<(), ConfigError>)
        ensures
            r is Ok <==> self.has_table(),
            match r {
                Ok(_) => table_error(self.fan_curve@) is None,
                Err(e) => table_error(self.fan_curve@) == Some(e),
            },
    {
        let mut too_high = false;
        let mut falls = false;
        let mut previous: u8 = 0;
        let mut t: u32 = 0;
        while t < 256
            invariant
                t <= 256,
                forall|k: u8| k < t ==> self.fan_curve@.contains_key(k),
                too_high <==> exists|k: u8| k < t && #[trigger] self.fan_curve@[k] > 100,
                falls <==> exists|a: u8, b: u8|
                    a <= b && b < t && #[trigger] self.fan_curve@[a] > #[trigger] self.fan_curve@[b],
                t > 0 ==> previous == self.fan_curve@[(t - 1) as u8],
            decreases 256 - t,
        {
            let temp = t as u8;
            match lookup(&self.fan_curve, temp) {
                None => {
                    return Err(ConfigError::GeneratedCurveIncomplete);
                },
                Some(duty) => {
                    let ghost m = self.fan_curve@;
                    if duty > 100 {
                        too_high = true;
                    }
                    if t > 0 && previous > duty {
                        proof {
                            assert(m[(t - 1) as u8] > m[temp]);
                        }
                        falls = true;
                    }
                    proof {
                        if !falls {
                            assert forall|a: u8, b: u8| a <= b && b < t + 1 implies #[trigger] m[a]
                                <= #[trigger] m[b] by {
                                if b == temp && a < temp {
                                    assert(m[a] <= m[(t - 1) as u8]);
                                }
                            }
                        }
                    }
                    previous = duty;
                },
            }
            t += 1;
        }
        if too_high {
            Err(ConfigError::GeneratedCurveDuty)
        } else if falls {
            Err(ConfigError::GeneratedCurveDirection)
        } else {
            Ok(())
        }
    }

    /// Checks the settings and compiles the points to the complete table.
    /// Succeeds exactly where the settings break no rule: the hysteresis is
    /// from 1 to 5, the response time at least a quarter of a second, there
    /// are at least 3 points, no duty is above 100 percent, no temperature
    /// occurs twice, and no warmer point asks for less than a cooler one.
    pub fn load(response_time: ResponseTime, hysteresis: u16, points: &Vec<(u8, u8)>) -> (r: Result<
        Self,
        ConfigError,
    >)
        ensures
            match r {
                Ok(cfg) => settings_error(response_time, hysteresis, points@) is None
                    && cfg.response_time == response_time && cfg.hysteresis == hysteresis
                    && cfg.fan_curve@ == compiled_curve(anchors_of(points@)) && cfg.has_table(),
                Err(e) => settings_error(response_time, hysteresis, points@) == Some(e),
            },
    {
        let cfg = match TjaeleControlConfig::new(response_time, hysteresis, points) {
            Ok(cfg) => cfg,
            Err(e) => {
                return Err(e);
            },
        };
        proof {
            lemma_loaded_anchors(cfg.fan_curve@, points@);
        }
        cfg.precompute_fan_curve()
    }

    /// The duty that the curve gives to a temperature, where it has one.
    pub fn duty_at(&self, temp: u8) -> (duty: Option<u8>)
        ensures
            duty == (if self.fan_curve@.contains_key(temp) {
                Some(self.fan_curve@[temp])
            } else {
                None
            }),
            self.has_table() ==> duty is Some && duty.unwrap() <= 100,
    {
        lookup(&self.fan_curve, temp)
    }

    /// The entries of the curve as pairs of temperature and duty, lowest
    /// temperature first. For a complete table these are 256 pairs.
    pub fn curve_points(&self) -> (pairs: Vec<(u8, u8)>)
        ensures
            pairs@ == entries(self.fan_curve@),
            self.has_table() ==> pairs@.len() == 256 && forall|t: int|
                0 <= t < 256 ==> #[trigger] pairs@[t] == (t as u8, self.fan_curve@[t as u8]),
    {
        let mut pairs: Vec<(u8, u8)> = Vec::new();
        let mut t: u32 = 0;
        while t < 256
            invariant
                t <= 256,
                pairs@ == entries_under(self.fan_curve@, t as int),
            decreases 256 - t,
        {
            match lookup(&self.fan_curve, t as u8) {
                Some(duty) => {
                    pairs.push((t as u8, duty));
                },
                None => {},
            }
            t += 1;
        }
        proof {
            if self.has_table() {
                lemma_table_entries(self.fan_curve@, 256);
            }
        }
        pairs
    }
}

} // verus!
