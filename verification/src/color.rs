//! The clear colour and its update rules.

use vstd::arithmetic::div_mod::{lemma_fundamental_div_mod, lemma_fundamental_div_mod_converse};
use vstd::prelude::*;

verus! {

/// Channel units that make up full intensity (the value 1.0). One unit is
/// 5e-16 of full intensity, finer than a double resolves near one half.
pub const FULL: i128 = 2_000_000_000_000_000;

/// Channel units that blue drifts in a nanosecond: half of full intensity
/// per second.
pub const UNITS_PER_NANO: i128 = 1_000_000;

/// Nanoseconds in which blue drifts by full intensity: two seconds.
pub const SWEEP_NANOS: u64 = 2_000_000_000;

/// Position units that make up a pixel: cursor positions are given in
/// steps of 1e-12 pixel.
pub const SUBPIXEL: i64 = 1_000_000_000_000;

/// Channel units that one position unit is worth in a window one pixel wide:
/// `FULL / SUBPIXEL`.
pub const UNITS_PER_SUBPIXEL: i128 = 2_000;

/// The largest error that counts as none: 1e-12 of full intensity, in
/// channel units.
pub const TOLERANCE: i128 = 2_000;

/// An RGBA colour in channel units.
#[derive(Clone, Copy, Debug, PartialEq, Eq, Structural)]
pub struct ClearColor {
    pub red: i128,
    pub green: i128,
    pub blue: i128,
    pub alpha: i128,
}

/// The current clear colour together with the direction blue is drifting in.
#[derive(Clone, Copy, Debug, PartialEq, Eq, Structural)]
pub struct ColorState {
    pub color: ClearColor,
    /// `true` while blue is increasing.
    pub blue_direction: bool,
}

/// Blue after drifting for `nanos` nanoseconds: up when `rising`, down
/// otherwise. The value is not clamped.
pub open spec fn blue_after(blue: int, rising: bool, nanos: int) -> int {
    if rising {
        blue + nanos * UNITS_PER_NANO
    } else {
        blue - nanos * UNITS_PER_NANO
    }
}

/// The direction that follows once blue has reached `blue`: decreasing at or
/// above full intensity, increasing at or below zero, unchanged in between.
pub open spec fn direction_after(blue: int, rising: bool) -> bool {
    if blue >= FULL {
        false
    } else if blue <= 0 {
        true
    } else {
        rising
    }
}

/// A position relative to an extent of `extent` pixels, in channel units and
/// rounded down: `position / (extent * SUBPIXEL)` of full intensity.
pub open spec fn normalized_spec(position: int, extent: int) -> int
    recommends
        extent > 0,
{
    (position * UNITS_PER_SUBPIXEL) / extent
}

/// The relative position of a cursor coordinate within a window dimension.
/// A dimension of zero has no relative positions.
pub fn normalized(position: i64, extent: u32) -> (r: Option<i128>)
    ensures
        r.is_some() <==> extent > 0,
        r matches Some(v) ==> v == normalized_spec(position as int, extent as int),
{
    if extent == 0 {
        return None;
    }
    let d: i128 = extent as i128;
    let scaled: i128 = (position as i128) * UNITS_PER_SUBPIXEL;
    if scaled >= 0 {
        let q: i128 = scaled / d;
        Some(q)
    } else {
        let m: i128 = -scaled;
        let q: i128 = m / d;
        let rem: i128 = m % d;
        proof {
            lemma_fundamental_div_mod(m as int, d as int);
        }
        if rem == 0 {
            proof {
                assert(scaled == (-q) * d + 0) by (nonlinear_arith)
                    requires
                        m == d * q + rem,
                        rem == 0,
                        scaled == -m,
                ;
                lemma_fundamental_div_mod_converse(scaled as int, d as int, -q as int, 0);
            }
            Some(-q)
        } else {
            proof {
                assert(scaled == (-q - 1) * d + (d - rem)) by (nonlinear_arith)
                    requires
                        m == d * q + rem,
                        scaled == -m,
                ;
                lemma_fundamental_div_mod_converse(
                    scaled as int,
                    d as int,
                    -q - 1 as int,
                    d - rem as int,
                );
            }
            Some(-q - 1)
        }
    }
}

impl ColorState {
    /// Black and fully transparent, with blue set to increase.
    pub open spec fn initial() -> ColorState {
        ColorState {
            color: ClearColor { red: 0, green: 0, blue: 0, alpha: 0 },
            blue_direction: true,
        }
    }

    /// A state never drifts further away from a bound it has already passed:
    /// blue is below full intensity while increasing and above zero while
    /// decreasing.
    pub open spec fn wf(self) -> bool {
        &&& self.blue_direction ==> self.color.blue < FULL
        &&& !self.blue_direction ==> self.color.blue > 0
    }

    /// Blue can drift for `nanos` nanoseconds without leaving the range of
    /// a channel. Every well-formed state can, for any time span that
    /// `advance_blue` takes.
    pub open spec fn can_advance(self, nanos: int) -> bool {
        i128::MIN <= blue_after(self.color.blue as int, self.blue_direction, nanos) <= i128::MAX
    }

    /// The state that `advance_blue` leaves after `nanos` nanoseconds.
    pub open spec fn advanced(self, nanos: int) -> ColorState
        recommends
            self.can_advance(nanos),
    {
        let blue = blue_after(self.color.blue as int, self.blue_direction, nanos);
        ColorState {
            color: ClearColor { blue: blue as i128, ..self.color },
            blue_direction: direction_after(blue, self.blue_direction),
        }
    }

    /// The state that `update_from_cursor` leaves.
    pub open spec fn with_cursor(self, norm_x: i128, norm_y: i128) -> ColorState {
        ColorState {
            color: ClearColor { red: norm_x, green: norm_y, blue: self.color.blue, alpha: FULL },
            blue_direction: self.blue_direction,
        }
    }

    /// Black and fully transparent, with blue set to increase.
    pub fn new() -> (s: ColorState)
        ensures
            s == ColorState::initial(),
            s.wf(),
    {
        ColorState { color: ClearColor { red: 0, green: 0, blue: 0, alpha: 0 }, blue_direction: true }
    }

    /// Tells whether the state is well formed.
    pub fn is_well_formed(&self) -> (b: bool)
        ensures
            b == self.wf(),
    {
        if self.blue_direction {
            self.color.blue < FULL
        } else {
            self.color.blue > 0
        }
    }

    /// Sets red and green to the cursor's position relative to the window and
    /// makes the colour opaque. Blue and its direction stay as they are.
    /// Positions outside the window are taken as they come.
    pub fn update_from_cursor(&mut self, norm_x: i128, norm_y: i128)
        ensures
            *final(self) == old(self).with_cursor(norm_x, norm_y),
            old(self).wf() ==> final(self).wf(),
    {
        let blue: i128 = self.color.blue;
        self.color = ClearColor { red: norm_x, green: norm_y, blue, alpha: FULL };
    }

    /// Lets blue drift for `delta_nanos` nanoseconds and bounces it off the
    /// bounds: the direction turns once blue has reached or passed a bound,
    /// and blue keeps the overshoot.
    pub fn advance_blue(&mut self, delta_nanos: u64)
        requires
            old(self).can_advance(delta_nanos as int),
        ensures
            *final(self) == old(self).advanced(delta_nanos as int),
            final(self).wf(),
    {
        let delta: i128 = (delta_nanos as i128) * UNITS_PER_NANO;
        if self.blue_direction {
            self.color.blue = self.color.blue + delta;
        } else {
            self.color.blue = self.color.blue - delta;
        }
        if self.color.blue >= FULL {
            self.blue_direction = false;
        } else if self.color.blue <= 0 {
            self.blue_direction = true;
        }
    }
}

/// The state after a run of steps, taken one after the other.
pub open spec fn drifted(s: ColorState, steps: Seq<int>) -> ColorState
    decreases steps.len(),
{
    if steps.len() == 0 {
        s
    } else {
        drifted(s, steps.drop_last()).advanced(steps.last())
    }
}

/// The time that a run of steps takes.
pub open spec fn total(steps: Seq<int>) -> int
    decreases steps.len(),
{
    if steps.len() == 0 {
        0
    } else {
        total(steps.drop_last()) + steps.last()
    }
}

/// Every step is a time span that `advance_blue` takes.
pub open spec fn valid_steps(steps: Seq<int>) -> bool {
    forall|i: int| 0 <= i < steps.len() ==> 0 <= #[trigger] steps[i] <= u64::MAX
}

/// Blue keeps its direction after each step of the run.
pub open spec fn steady(s: ColorState, steps: Seq<int>) -> bool {
    forall|k: int|
        0 <= k <= steps.len() ==> (#[trigger] drifted(s, steps.take(k))).blue_direction
            == s.blue_direction
}

/// Blue rose on each of the first `k` steps, had reached full intensity and
/// turned round after step `k`, and fell on every step after it.
pub open spec fn rises_then_falls(s: ColorState, steps: Seq<int>, k: int) -> bool {
    &&& 0 < k <= steps.len()
    &&& forall|j: int|
        0 <= j < k ==> (#[trigger] drifted(s, steps.take(j))).color.blue < drifted(
            s,
            steps.take(j + 1),
        ).color.blue
    &&& drifted(s, steps.take(k)).color.blue >= FULL
    &&& !drifted(s, steps.take(k)).blue_direction
    &&& forall|j: int|
        k <= j < steps.len() ==> (#[trigger] drifted(s, steps.take(j))).color.blue > drifted(
            s,
            steps.take(j + 1),
        ).color.blue
}

/// Every step takes time.
pub open spec fn positive_steps(steps: Seq<int>) -> bool {
    forall|i: int| 0 <= i < steps.len() ==> #[trigger] steps[i] > 0
}

/// A step moves blue by the time it took, up or down, without clamping,
/// turns the direction at the bounds only, and leaves red, green and alpha
/// alone.
pub proof fn lemma_advance_moves_blue_only(s: ColorState, nanos: int)
    requires
        s.can_advance(nanos),
    ensures
        s.advanced(nanos).color.blue == blue_after(s.color.blue as int, s.blue_direction, nanos),
        s.advanced(nanos).blue_direction == direction_after(
            s.advanced(nanos).color.blue as int,
            s.blue_direction,
        ),
        s.advanced(nanos).color.red == s.color.red,
        s.advanced(nanos).color.green == s.color.green,
        s.advanced(nanos).color.alpha == s.color.alpha,
{
}

/// A well-formed state can drift for any time span that fits 64 bits.
pub proof fn lemma_wf_can_advance(s: ColorState, nanos: int)
    requires
        s.wf(),
        0 <= nanos <= u64::MAX,
    ensures
        s.can_advance(nanos),
{
}

/// Every step leaves a well-formed state, whatever the state before it was.
pub proof fn lemma_advance_gives_wf(s: ColorState, nanos: int)
    requires
        s.can_advance(nanos),
    ensures
        s.advanced(nanos).wf(),
{
}

/// Moving the cursor never touches blue or its direction, sets red and green
/// to the position handed in, and makes the colour opaque.
pub proof fn lemma_cursor_keeps_blue(s: ColorState, norm_x: i128, norm_y: i128)
    ensures
        s.with_cursor(norm_x, norm_y).color.blue == s.color.blue,
        s.with_cursor(norm_x, norm_y).blue_direction == s.blue_direction,
        s.with_cursor(norm_x, norm_y).color.red == norm_x,
        s.with_cursor(norm_x, norm_y).color.green == norm_y,
        s.with_cursor(norm_x, norm_y).color.alpha == FULL,
{
}

/// A relative position is never further from zero than the scaled
/// coordinate it was made from, and lies on the same side.
pub proof fn lemma_normalized_bounded(position: int, extent: int)
    requires
        extent > 0,
    ensures
        position >= 0 ==> 0 <= normalized_spec(position, extent) <= position * UNITS_PER_SUBPIXEL,
        position < 0 ==> position * UNITS_PER_SUBPIXEL <= normalized_spec(position, extent) < 0,
{
    let x = position * UNITS_PER_SUBPIXEL;
    let q = x / extent;
    let r = x % extent;
    lemma_fundamental_div_mod(x, extent);
    assert((x >= 0 ==> 0 <= q <= x) && (x < 0 ==> x <= q < 0)) by (nonlinear_arith)
        requires
            x == extent * q + r,
            0 <= r < extent,
    ;
}

/// A cursor inside the window gets a relative position between zero and full
/// intensity. That position is the quotient of coordinate and dimension to
/// within one channel unit, which is far within the tolerance: the last
/// clause says `|red / FULL - position / (extent * SUBPIXEL)| <= 1e-12`
/// with the divisions multiplied out.
pub proof fn lemma_normalized_in_window(position: int, extent: int)
    requires
        extent > 0,
        0 <= position <= extent * SUBPIXEL,
    ensures
        0 <= normalized_spec(position, extent) <= FULL,
        normalized_spec(position, extent) * extent <= position * UNITS_PER_SUBPIXEL,
        position * UNITS_PER_SUBPIXEL < (normalized_spec(position, extent) + 1) * extent,
        0 <= position * UNITS_PER_SUBPIXEL - normalized_spec(position, extent) * extent
            <= TOLERANCE * extent,
{
    let x = position * UNITS_PER_SUBPIXEL;
    let q = x / extent;
    lemma_fundamental_div_mod(x, extent);
    assert(x == extent * q + x % extent);
    assert(0 <= x % extent < extent);
    assert(q * extent <= x && x < (q + 1) * extent) by (nonlinear_arith)
        requires
            x == extent * q + x % extent,
            0 <= x % extent < extent,
    ;
    assert(x <= FULL * extent);
    assert(0 <= q <= FULL) by (nonlinear_arith)
        requires
            q * extent <= x,
            x < (q + 1) * extent,
            0 <= x <= FULL * extent,
            extent > 0,
    ;
}

/// Rounding a cursor coordinate to the next position unit moves the relative
/// position by no more than the tolerance, in a window of any extent.
pub proof fn lemma_normalized_neighbours(position: int, extent: int)
    requires
        extent > 0,
    ensures
        normalized_spec(position, extent) <= normalized_spec(position + 1, extent),
        normalized_spec(position + 1, extent) <= normalized_spec(position, extent) + TOLERANCE,
{
    let x = position * UNITS_PER_SUBPIXEL;
    let y = (position + 1) * UNITS_PER_SUBPIXEL;
    let q = x / extent;
    let r = y / extent;
    lemma_fundamental_div_mod(x, extent);
    lemma_fundamental_div_mod(y, extent);
    assert(q <= r <= q + 2000) by (nonlinear_arith)
        requires
            x == extent * q + x % extent,
            0 <= x % extent < extent,
            y == extent * r + y % extent,
            0 <= y % extent < extent,
            y == x + 2000,
            extent >= 1,
    ;
}

/// While blue lies within the bounds, a step of at least two seconds always
/// turns the direction round.
pub proof fn lemma_full_sweep_turns(s: ColorState, nanos: int)
    requires
        s.wf(),
        0 <= s.color.blue <= FULL,
        SWEEP_NANOS <= nanos <= u64::MAX,
    ensures
        s.advanced(nanos).blue_direction == !s.blue_direction,
{
}

/// As long as blue keeps its direction, it has moved by the whole time that
/// has passed, however that time was cut into steps.
pub proof fn lemma_steady_drift(s: ColorState, steps: Seq<int>)
    requires
        s.wf(),
        valid_steps(steps),
        steady(s, steps),
    ensures
        drifted(s, steps).wf(),
        drifted(s, steps).blue_direction == s.blue_direction,
        drifted(s, steps).color.blue == blue_after(
            s.color.blue as int,
            s.blue_direction,
            total(steps),
        ),
    decreases steps.len(),
{
    if steps.len() > 0 {
        let init = steps.drop_last();
        assert forall|k: int| 0 <= k <= init.len() implies (#[trigger] drifted(
            s,
            init.take(k),
        )).blue_direction == s.blue_direction by {
            assert(init.take(k) =~= steps.take(k));
        }
        lemma_steady_drift(s, init);
        lemma_wf_can_advance(drifted(s, init), steps.last());
        lemma_advance_gives_wf(drifted(s, init), steps.last());
        assert(steps.take(steps.len() as int) =~= steps);
    }
}

/// A button held for two seconds or longer turns blue round at least once,
/// however the time is cut into steps.
pub proof fn lemma_two_seconds_turn(s: ColorState, steps: Seq<int>)
    requires
        s.wf(),
        0 <= s.color.blue <= FULL,
        valid_steps(steps),
        total(steps) >= SWEEP_NANOS,
    ensures
        !steady(s, steps),
{
    if steady(s, steps) {
        lemma_steady_drift(s, steps);
    }
}

/// One step further in a run: the state after `k + 1` steps is the state
/// after `k` steps, advanced by step `k`.
pub proof fn lemma_drifted_step(s: ColorState, steps: Seq<int>, k: int)
    requires
        0 <= k < steps.len(),
    ensures
        drifted(s, steps.take(k + 1)) == drifted(s, steps.take(k)).advanced(steps[k]),
        total(steps.take(k + 1)) == total(steps.take(k)) + steps[k],
{
    assert(steps.take(k + 1).drop_last() =~= steps.take(k));
    assert(steps.take(k + 1).last() == steps[k]);
}

/// A run of steps leaves a well-formed state well formed.
pub proof fn lemma_drifted_wf(s: ColorState, steps: Seq<int>)
    requires
        s.wf(),
        valid_steps(steps),
    ensures
        drifted(s, steps).wf(),
    decreases steps.len(),
{
    if steps.len() > 0 {
        lemma_drifted_wf(s, steps.drop_last());
        lemma_wf_can_advance(drifted(s, steps.drop_last()), steps.last());
        lemma_advance_gives_wf(drifted(s, steps.drop_last()), steps.last());
    }
}

/// No part of a run takes longer than the whole.
pub proof fn lemma_total_prefix(steps: Seq<int>, k: int)
    requires
        valid_steps(steps),
        0 <= k <= steps.len(),
    ensures
        0 <= total(steps.take(k)) <= total(steps),
    decreases steps.len() - k,
{
    if k == steps.len() {
        assert(steps.take(k) =~= steps);
        lemma_total_nonnegative(steps);
    } else {
        lemma_total_prefix(steps, k + 1);
        lemma_drifted_step(ColorState::initial(), steps, k);
        lemma_total_nonnegative(steps.take(k));
    }
}

/// A run takes no negative time.
pub proof fn lemma_total_nonnegative(steps: Seq<int>)
    requires
        valid_steps(steps),
    ensures
        0 <= total(steps),
    decreases steps.len(),
{
    if steps.len() > 0 {
        lemma_total_nonnegative(steps.drop_last());
    }
}

/// While blue has been increasing before each of the first `n` steps, it
/// rose on each of them, by the time that the step took.
pub proof fn lemma_climb(s: ColorState, steps: Seq<int>, n: int)
    requires
        s.wf(),
        s.blue_direction,
        valid_steps(steps),
        positive_steps(steps),
        0 <= n <= steps.len(),
        forall|j: int| 0 <= j < n ==> (#[trigger] drifted(s, steps.take(j))).blue_direction,
    ensures
        drifted(s, steps.take(n)).color.blue == s.color.blue + total(steps.take(n))
            * UNITS_PER_NANO,
        forall|j: int|
            0 <= j < n ==> (#[trigger] drifted(s, steps.take(j))).color.blue < drifted(
                s,
                steps.take(j + 1),
            ).color.blue,
    decreases n,
{
    if n > 0 {
        lemma_climb(s, steps, n - 1);
        lemma_drifted_step(s, steps, n - 1);
        lemma_drifted_wf(s, steps.take(n - 1));
        lemma_wf_can_advance(drifted(s, steps.take(n - 1)), steps[n - 1]);
        assert(drifted(s, steps.take(n - 1)).blue_direction);
        assert(steps[n - 1] > 0);
    }
}

/// Where the run is long enough for blue to reach full intensity, there is
/// a first step after which blue has turned round.
pub proof fn lemma_first_turn(s: ColorState, steps: Seq<int>, n: int) -> (k: int)
    requires
        s.wf(),
        s.blue_direction,
        valid_steps(steps),
        positive_steps(steps),
        0 <= n <= steps.len(),
        forall|j: int| 0 <= j <= n ==> (#[trigger] drifted(s, steps.take(j))).blue_direction,
        s.color.blue + total(steps) * UNITS_PER_NANO >= FULL,
    ensures
        n < k <= steps.len(),
        forall|j: int| 0 <= j < k ==> (#[trigger] drifted(s, steps.take(j))).blue_direction,
        !drifted(s, steps.take(k)).blue_direction,
    decreases steps.len() - n,
{
    if n == steps.len() {
        lemma_climb(s, steps, n);
        lemma_drifted_wf(s, steps.take(n));
        assert(steps.take(n) =~= steps);
        assert(drifted(s, steps.take(n)).blue_direction);
        assert(false);
        n
    } else if !drifted(s, steps.take(n + 1)).blue_direction {
        n + 1
    } else {
        lemma_first_turn(s, steps, n + 1)
    }
}

/// Once blue has turned round after step `k`, it falls on every further
/// step, as long as the whole run is too short for it to reach zero.
pub proof fn lemma_descent(s: ColorState, steps: Seq<int>, k: int, m: int)
    requires
        s.wf(),
        valid_steps(steps),
        positive_steps(steps),
        0 <= k <= m <= steps.len(),
        !drifted(s, steps.take(k)).blue_direction,
        drifted(s, steps.take(k)).color.blue + total(steps.take(k)) * UNITS_PER_NANO > total(
            steps,
        ) * UNITS_PER_NANO,
    ensures
        !drifted(s, steps.take(m)).blue_direction,
        drifted(s, steps.take(m)).color.blue == drifted(s, steps.take(k)).color.blue - (total(
            steps.take(m),
        ) - total(steps.take(k))) * UNITS_PER_NANO,
        forall|j: int|
            k <= j < m ==> (#[trigger] drifted(s, steps.take(j))).color.blue > drifted(
                s,
                steps.take(j + 1),
            ).color.blue,
    decreases m - k,
{
    if m > k {
        lemma_descent(s, steps, k, m - 1);
        lemma_drifted_step(s, steps, m - 1);
        lemma_drifted_wf(s, steps.take(m - 1));
        lemma_wf_can_advance(drifted(s, steps.take(m - 1)), steps[m - 1]);
        lemma_total_prefix(steps, m);
        assert(steps[m - 1] > 0);
        assert(!drifted(s, steps.take(m - 1)).blue_direction);
    }
}

/// A button held from an increasing blue for long enough to reach full
/// intensity, and not long enough to come back down to zero, makes blue rise
/// step by step to full intensity or beyond, turn round there, and fall step
/// by step from then on, however the time is cut into steps. From black that
/// is any time from two seconds up to four.
pub proof fn lemma_rise_then_fall(s: ColorState, steps: Seq<int>)
    requires
        s.wf(),
        s.blue_direction,
        0 <= s.color.blue,
        valid_steps(steps),
        positive_steps(steps),
        FULL - s.color.blue <= total(steps) * UNITS_PER_NANO < 2 * FULL - s.color.blue,
    ensures
        exists|k: int| rises_then_falls(s, steps, k),
{
    assert(steps.take(0) =~= Seq::<int>::empty());
    assert(drifted(s, steps.take(0)) == s);
    let k = lemma_first_turn(s, steps, 0);
    lemma_climb(s, steps, k);
    lemma_climb(s, steps, k - 1);
    lemma_drifted_step(s, steps, k - 1);
    lemma_drifted_wf(s, steps.take(k - 1));
    lemma_wf_can_advance(drifted(s, steps.take(k - 1)), steps[k - 1]);
    assert(drifted(s, steps.take(k - 1)).blue_direction);
    assert(drifted(s, steps.take(k)).color.blue >= FULL);
    lemma_descent(s, steps, k, steps.len() as int);
    assert(rises_then_falls(s, steps, k));
}

/// Drifting never touches red, green or alpha.
pub proof fn lemma_drift_keeps_rest(s: ColorState, steps: Seq<int>)
    ensures
        drifted(s, steps).color.red == s.color.red,
        drifted(s, steps).color.green == s.color.green,
        drifted(s, steps).color.alpha == s.color.alpha,
    decreases steps.len(),
{
    if steps.len() > 0 {
        lemma_drift_keeps_rest(s, steps.drop_last());
    }
}

/// Starting within the bounds, the overshoot past a bound is never larger
/// than the step that caused it, and smaller where time has passed at all.
pub proof fn lemma_overshoot_bounded(s: ColorState, nanos: int)
    requires
        s.wf(),
        0 <= s.color.blue <= FULL,
        0 <= nanos <= u64::MAX,
    ensures
        -nanos * UNITS_PER_NANO <= s.advanced(nanos).color.blue <= FULL + nanos * UNITS_PER_NANO,
        nanos > 0 ==> -nanos * UNITS_PER_NANO < s.advanced(nanos).color.blue < FULL + nanos
            * UNITS_PER_NANO,
{
}

} // verus!
