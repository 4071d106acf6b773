//! Proofs about fan curves: what the anchors next to a temperature are, that
//! the rounded-up line between two anchors stays between them, and the laws
//! of the compiled table.

use crate::config::{
    holds_points, lists_duplicate, lists_high_duty, load_error, ConfigError, ResponseTime,
};
use crate::fan_curve::{
    anchor_above, anchor_below, anchor_count, anchor_error, anchors_of, anchors_under, ceil_div,
    compiled_curve, curve_duty, entries_under, has_decreasing_pair, has_high_duty,
    is_fan_curve_table, lists_anchors, lists_decreasing, settings_error, FanCurvePoint,
};
use vstd::arithmetic::div_mod::{lemma_div_is_ordered, lemma_div_multiples_vanish_fancy};
use vstd::prelude::*;

verus! {

/// What `anchor_below` returns is an anchor at or below `t`, or -1, and no
/// anchor lies between it and `t`.
pub(crate) proof fn lemma_below_facts(m: Map<u8, u8>, t: int)
    requires
        -1 <= t <= 255,
    ensures
        -1 <= anchor_below(m, t) <= t,
        anchor_below(m, t) >= 0 ==> m.contains_key(anchor_below(m, t) as u8),
        forall|k: u8| anchor_below(m, t) < k <= t ==> !m.contains_key(k),
    decreases t + 1,
{
    if t >= 0 && !m.contains_key(t as u8) {
        lemma_below_facts(m, t - 1);
    }
}

/// What `anchor_above` returns is an anchor at or above `t`, or 256, and no
/// anchor lies between `t` and it.
pub(crate) proof fn lemma_above_facts(m: Map<u8, u8>, t: int)
    requires
        0 <= t <= 256,
    ensures
        t <= anchor_above(m, t) <= 256,
        anchor_above(m, t) <= 255 ==> m.contains_key(anchor_above(m, t) as u8),
        forall|k: u8| t <= k < anchor_above(m, t) ==> !m.contains_key(k),
    decreases 256 - t,
{
    if t <= 255 && !m.contains_key(t as u8) {
        lemma_above_facts(m, t + 1);
    }
}

/// An anchor at or below `t` with no anchor between it and `t` is what
/// `anchor_below` returns.
pub(crate) proof fn lemma_below_is(m: Map<u8, u8>, t: int, lo: int)
    requires
        -1 <= lo <= t <= 255,
        lo >= 0 ==> m.contains_key(lo as u8),
        forall|k: u8| lo < k <= t ==> !m.contains_key(k),
    ensures
        anchor_below(m, t) == lo,
    decreases t - lo,
{
    if t > lo {
        assert(!m.contains_key(t as u8));
        lemma_below_is(m, t - 1, lo);
    }
}

/// An anchor at or above `t` with no anchor between `t` and it is what
/// `anchor_above` returns.
pub(crate) proof fn lemma_above_is(m: Map<u8, u8>, t: int, hi: int)
    requires
        0 <= t <= hi <= 256,
        hi <= 255 ==> m.contains_key(hi as u8),
        forall|k: u8| t <= k < hi ==> !m.contains_key(k),
    ensures
        anchor_above(m, t) == hi,
    decreases hi - t,
{
    if t < hi {
        assert(!m.contains_key(t as u8));
        lemma_above_is(m, t + 1, hi);
    }
}

/// The rounded-up rise along a segment is never negative, never falls as the
/// temperature rises, and never exceeds the whole rise of the segment.
pub(crate) proof fn lemma_rise(dd: int, x: int, y: int, dt: int)
    requires
        0 <= dd,
        0 <= x <= y <= dt,
        0 < dt,
    ensures
        0 <= ceil_div(dd * x, dt) <= ceil_div(dd * y, dt) <= dd,
        ceil_div(dd * 0, dt) == 0,
        ceil_div(dd * dt, dt) == dd,
{
    assert(0 <= dd * x <= dd * y <= dd * dt) by (nonlinear_arith)
        requires
            0 <= dd,
            0 <= x <= y <= dt,
    ;
    assert(dd * 0 == 0);
    lemma_div_multiples_vanish_fancy(0, dt - 1, dt);
    assert(dt * 0 == 0);
    lemma_div_multiples_vanish_fancy(dd, dt - 1, dt);
    assert(dt * dd == dd * dt) by (nonlinear_arith);
    lemma_div_is_ordered(0 + dt - 1, dd * x + dt - 1, dt);
    lemma_div_is_ordered(dd * x + dt - 1, dd * y + dt - 1, dt);
    lemma_div_is_ordered(dd * y + dt - 1, dd * dt + dt - 1, dt);
}

/// The curve stays between the duties of the anchors next to a temperature,
/// and so between 0 and 100 percent.
pub(crate) proof fn lemma_curve_bounds(m: Map<u8, u8>, t: int)
    requires
        0 <= t <= 255,
        !has_high_duty(m),
        !has_decreasing_pair(m),
    ensures
        0 <= curve_duty(m, t) <= 100,
        anchor_below(m, t) >= 0 ==> m[anchor_below(m, t) as u8] <= curve_duty(m, t),
        anchor_above(m, t) <= 255 ==> curve_duty(m, t) <= m[anchor_above(m, t) as u8],
{
    lemma_below_facts(m, t);
    lemma_above_facts(m, t);
    let lo = anchor_below(m, t);
    let hi = anchor_above(m, t);
    if lo >= 0 {
        assert(m[lo as u8] <= 100);
    }
    if hi <= 255 {
        assert(m[hi as u8] <= 100);
    }
    if lo >= 0 && hi <= 255 && lo != hi {
        assert(m[lo as u8] <= m[hi as u8]);
        lemma_rise(m[hi as u8] - m[lo as u8], t - lo, t - lo, hi - lo);
    }
}

/// The curve does not fall from one temperature to the next.
pub(crate) proof fn lemma_curve_step(m: Map<u8, u8>, t: int)
    requires
        0 <= t < 255,
        !has_high_duty(m),
        !has_decreasing_pair(m),
    ensures
        curve_duty(m, t) <= curve_duty(m, t + 1),
{
    lemma_below_facts(m, t);
    lemma_above_facts(m, t);
    lemma_below_facts(m, t + 1);
    lemma_above_facts(m, t + 1);
    lemma_curve_bounds(m, t);
    lemma_curve_bounds(m, t + 1);
    let lo = anchor_below(m, t);
    let hi = anchor_above(m, t);
    if m.contains_key((t + 1) as u8) {
        if m.contains_key(t as u8) {
            assert(m[t as u8] <= m[(t + 1) as u8]);
        }
    } else if !m.contains_key(t as u8) {
        assert(anchor_below(m, t + 1) == lo);
        assert(anchor_above(m, t + 1) == hi);
        if lo >= 0 && hi <= 255 {
            assert(m[lo as u8] <= m[hi as u8]);
            lemma_rise(m[hi as u8] - m[lo as u8], t - lo, t + 1 - lo, hi - lo);
        }
    }
}

/// The curve does not fall between any two temperatures.
pub(crate) proof fn lemma_curve_monotone(m: Map<u8, u8>, a: int, b: int)
    requires
        0 <= a <= b <= 255,
        !has_high_duty(m),
        !has_decreasing_pair(m),
    ensures
        curve_duty(m, a) <= curve_duty(m, b),
    decreases b - a,
{
    if a < b {
        lemma_curve_monotone(m, a, b - 1);
        lemma_curve_step(m, b - 1);
    }
}

/// At an anchor the curve gives the anchor's own duty.
pub(crate) proof fn lemma_anchor_duty(m: Map<u8, u8>, t: u8)
    requires
        m.contains_key(t),
    ensures
        curve_duty(m, t as int) == m[t],
{
}

/// Before any temperature is filled in, every anchor already has the duty
/// that the curve gives it.
pub(crate) proof fn lemma_anchors_hold_their_duty(m: Map<u8, u8>)
    ensures
        forall|k: u8| m.contains_key(k) ==> #[trigger] m[k] as int == curve_duty(m, k as int),
{
    assert forall|k: u8| m.contains_key(k) implies #[trigger] m[k] as int == curve_duty(
        m,
        k as int,
    ) by {
        lemma_anchor_duty(m, k);
    }
}

/// No anchor lies below the first listed one.
pub(crate) proof fn lemma_first_anchor(m: Map<u8, u8>, pts: Seq<FanCurvePoint>)
    requires
        lists_anchors(m, pts),
        pts.len() > 0,
    ensures
        anchor_below(m, pts[0].temp as int - 1) == -1,
        anchor_above(m, 0) == pts[0].temp as int,
{
    let first = pts[0].temp as int;
    lemma_below_facts(m, first - 1);
    let lo = anchor_below(m, first - 1);
    if lo >= 0 {
        let k = choose|k: int| 0 <= k < pts.len() && (#[trigger] pts[k]).temp == lo as u8;
        assert(pts[0].temp <= pts[k].temp);
    }
    lemma_above_is(m, 0, first);
}

/// The anchor that follows the listed anchor `next` is the next listed one,
/// and after the last listed anchor there is none.
pub(crate) proof fn lemma_anchor_after(m: Map<u8, u8>, pts: Seq<FanCurvePoint>, next: int)
    requires
        lists_anchors(m, pts),
        0 <= next < pts.len(),
    ensures
        m.contains_key(pts[next].temp),
        anchor_below(m, pts[next].temp as int) == pts[next].temp,
        pts[next].temp < 255 ==> anchor_above(m, pts[next].temp as int + 1) == (if next + 1
            < pts.len() {
            pts[next + 1].temp as int
        } else {
            256
        }),
{
    let t = pts[next].temp as int;
    assert(m.contains_key(pts[next].temp));
    if t < 255 {
        let hi: int = if next + 1 < pts.len() {
            pts[next + 1].temp as int
        } else {
            256
        };
        assert forall|k: u8| t + 1 <= k < hi implies !m.contains_key(k) by {
            if m.contains_key(k) {
                let i = choose|i: int| 0 <= i < pts.len() && (#[trigger] pts[i]).temp == k;
                if i <= next {
                    assert(pts[i].temp <= pts[next].temp);
                } else if next + 1 < pts.len() {
                    assert(pts[next + 1].temp <= pts[i].temp);
                }
            }
        }
        if next + 1 < pts.len() {
            assert(pts[next].temp < pts[next + 1].temp);
        }
        lemma_above_is(m, t + 1, hi);
    }
}

/// Of two listed anchors that follow each other, the second is warmer and,
/// where no pair of anchors decreases, asks for no less.
pub(crate) proof fn lemma_neighbours_rise(m: Map<u8, u8>, pts: Seq<FanCurvePoint>, next: int)
    requires
        lists_anchors(m, pts),
        !has_decreasing_pair(m),
        0 <= next <= pts.len(),
    ensures
        0 < next < pts.len() ==> pts[next - 1].temp < pts[next].temp && pts[next - 1].duty
            <= pts[next].duty,
{
    if 0 < next < pts.len() {
        assert(pts[next - 1].temp < pts[next].temp);
        assert(m[pts[next - 1].temp] <= m[pts[next].temp]);
    }
}

/// Anchors that pass the checks compile to a complete table: it has an entry
/// for each of the 256 temperatures, no entry above 100 percent, and it never
/// falls as the temperature rises.
pub proof fn lemma_compiled_curve_is_table(m: Map<u8, u8>)
    requires
        anchor_error(m) is None,
    ensures
        is_fan_curve_table(compiled_curve(m)),
{
    let c = compiled_curve(m);
    assert forall|t: u8| #[trigger] c[t] <= 100 by {
        lemma_curve_bounds(m, t as int);
    }
    assert forall|a: u8, b: u8| a <= b implies #[trigger] c[a] <= #[trigger] c[b] by {
        lemma_curve_bounds(m, a as int);
        lemma_curve_bounds(m, b as int);
        lemma_curve_monotone(m, a as int, b as int);
    }
}

/// Anchors among which a warmer one asks for a lower duty than a cooler one
/// are never compiled: they are rejected, and where nothing else is wrong
/// with them, as a decreasing duty.
pub proof fn lemma_decreasing_pair_is_rejected(m: Map<u8, u8>, cooler: u8, warmer: u8)
    requires
        m.contains_key(cooler),
        m.contains_key(warmer),
        cooler < warmer,
        m[cooler] > m[warmer],
    ensures
        anchor_error(m) is Some,
        anchor_count(m) >= 3 && !has_high_duty(m) ==> anchor_error(m) == Some(
            ConfigError::DecreasingDuty,
        ),
{
    assert(has_decreasing_pair(m));
}

/// Counting anchors up to a higher temperature never gives fewer.
pub(crate) proof fn lemma_anchors_under_grows(m: Map<u8, u8>, a: int, b: int)
    requires
        0 <= a <= b,
    ensures
        anchors_under(m, a) <= anchors_under(m, b),
    decreases b - a,
{
    if a < b {
        lemma_anchors_under_grows(m, a, b - 1);
    }
}

/// Three anchors in rising order make the count at least 3.
pub(crate) proof fn lemma_three_rising_anchors(m: Map<u8, u8>, a: u8, b: u8, c: u8)
    requires
        m.contains_key(a),
        m.contains_key(b),
        m.contains_key(c),
        a < b < c,
    ensures
        anchor_count(m) >= 3,
{
    assert(anchors_under(m, a + 1) >= 1);
    lemma_anchors_under_grows(m, a + 1, b as int);
    assert(anchors_under(m, b + 1) >= 2);
    lemma_anchors_under_grows(m, b + 1, c as int);
    assert(anchors_under(m, c + 1) >= 3);
    lemma_anchors_under_grows(m, c + 1, 256);
}

/// Three different anchors make the count at least 3.
pub(crate) proof fn lemma_three_anchors(m: Map<u8, u8>, a: u8, b: u8, c: u8)
    requires
        m.contains_key(a),
        m.contains_key(b),
        m.contains_key(c),
        a != b,
        b != c,
        a != c,
    ensures
        anchor_count(m) >= 3,
{
    if a < b && b < c {
        lemma_three_rising_anchors(m, a, b, c);
    } else if a < c && c < b {
        lemma_three_rising_anchors(m, a, c, b);
    } else if b < a && a < c {
        lemma_three_rising_anchors(m, b, a, c);
    } else if b < c && c < a {
        lemma_three_rising_anchors(m, b, c, a);
    } else if c < a && a < b {
        lemma_three_rising_anchors(m, c, a, b);
    } else {
        lemma_three_rising_anchors(m, c, b, a);
    }
}

/// A map that holds exactly the points of a list that passed the checks is
/// the anchors of that list, and it breaks a rule of the compiler only where
/// the list itself has a decreasing pair.
pub(crate) proof fn lemma_loaded_anchors(m: Map<u8, u8>, points: Seq<(u8, u8)>)
    requires
        holds_points(m, points, points.len() as int),
        points.len() >= 3,
        !lists_high_duty(points),
        !lists_duplicate(points),
    ensures
        m == anchors_of(points),
        anchor_error(m) == (if lists_decreasing(points) {
            Some(ConfigError::DecreasingDuty)
        } else {
            None
        }),
{
    let a = anchors_of(points);
    assert forall|t: u8| m.contains_key(t) == a.contains_key(t) by {
        if a.contains_key(t) {
            let i = choose|i: int| 0 <= i < points.len() && (#[trigger] points[i]).0 == t;
            assert(m.contains_key(points[i].0));
        }
    }
    assert forall|t: u8| m.contains_key(t) implies m[t] == a[t] by {
        let i = choose|i: int| 0 <= i < points.len() && (#[trigger] points[i]).0 == t;
        assert(m[points[i].0] == points[i].1);
    }
    assert(m =~= a);
    assert(points[0].0 != points[1].0 && points[1].0 != points[2].0 && points[0].0 != points[2].0);
    lemma_three_anchors(m, points[0].0, points[1].0, points[2].0);
    assert(!has_high_duty(m)) by {
        if has_high_duty(m) {
            let t = choose|t: u8| m.contains_key(t) && #[trigger] m[t] > 100;
            let i = choose|i: int| 0 <= i < points.len() && (#[trigger] points[i]).0 == t;
            assert(points[i].1 > 100);
        }
    }
    if lists_decreasing(points) {
        let (i, j) = choose|i: int, j: int|
            0 <= i < points.len() && 0 <= j < points.len() && (#[trigger] points[i]).0 < (
            #[trigger] points[j]).0 && points[i].1 > points[j].1;
        assert(m.contains_key(points[i].0) && m.contains_key(points[j].0));
        assert(m[points[i].0] > m[points[j].0]);
        assert(has_decreasing_pair(m));
    }
    if has_decreasing_pair(m) {
        let (x, y) = choose|x: u8, y: u8|
            m.contains_key(x) && m.contains_key(y) && x < y && #[trigger] m[x] > #[trigger] m[y];
        let i = choose|i: int| 0 <= i < points.len() && (#[trigger] points[i]).0 == x;
        let j = choose|j: int| 0 <= j < points.len() && (#[trigger] points[j]).0 == y;
        assert(points[i].0 < points[j].0 && points[i].1 > points[j].1);
        assert(lists_decreasing(points));
    }
}

/// Points that pass the checks compile to a complete table, in whatever
/// order they are listed: at least 3 of them, no duty above 100 percent, no
/// temperature twice, and no warmer point that asks for less than a cooler one.
pub proof fn lemma_valid_points_compile_to_table(points: Seq<(u8, u8)>)
    requires
        points.len() >= 3,
        !lists_high_duty(points),
        !lists_duplicate(points),
        !lists_decreasing(points),
    ensures
        is_fan_curve_table(compiled_curve(anchors_of(points))),
{
    let m = anchors_of(points);
    assert forall|i: int| 0 <= i < points.len() implies m.contains_key((#[trigger] points[i]).0)
        && m[points[i].0] == points[i].1 by {
        let t = points[i].0;
        let j = choose|j: int| 0 <= j < points.len() && (#[trigger] points[j]).0 == t;
        if i < j {
            assert(points[i].0 == points[j].0);
        } else if j < i {
            assert(points[j].0 == points[i].0);
        }
    }
    lemma_loaded_anchors(m, points);
    lemma_compiled_curve_is_table(m);
}

/// Points among which a warmer one asks for a lower duty than a cooler one
/// are rejected, whatever the other settings are.
pub proof fn lemma_decreasing_points_are_rejected(
    response_time: ResponseTime,
    hysteresis: u16,
    points: Seq<(u8, u8)>,
    cooler: int,
    warmer: int,
)
    requires
        0 <= cooler < points.len(),
        0 <= warmer < points.len(),
        points[cooler].0 < points[warmer].0,
        points[cooler].1 > points[warmer].1,
    ensures
        settings_error(response_time, hysteresis, points) is Some,
        load_error(response_time, hysteresis, points) is None ==> settings_error(
            response_time,
            hysteresis,
            points,
        ) == Some(ConfigError::DecreasingDuty),
{
    assert(lists_decreasing(points));
}

/// A complete table has 256 entries, and the entry at place `t` is the one
/// of the temperature `t`.
pub proof fn lemma_table_entries(m: Map<u8, u8>, t: int)
    requires
        is_fan_curve_table(m),
        0 <= t <= 256,
    ensures
        entries_under(m, t).len() == t,
        forall|i: int| 0 <= i < t ==> #[trigger] entries_under(m, t)[i] == (i as u8, m[i as u8]),
    decreases t,
{
    if t > 0 {
        lemma_table_entries(m, t - 1);
        assert(m.contains_key((t - 1) as u8));
    }
}

} // verus!
