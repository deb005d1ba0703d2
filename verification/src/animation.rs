//! Sprite animation: which frames belong to a state, how the displayed frame
//! is carried over when the state changes, and how it advances with time.

use vstd::prelude::*;
use crate::clock::{AnimationTimer, carried_over, fires};
use crate::movement::{drive_horizontal, drive_step};
use crate::player::{Player, PlayerState};

verus! {

/// Columns of the sprite sheet's grid.
pub const SHEET_COLUMNS: usize = 5;

/// Rows of the sprite sheet's grid.
pub const SHEET_ROWS: usize = 6;

pub const WALK_FIRST: usize = 0;
pub const WALK_LAST: usize = 11;
pub const RUN_FIRST: usize = 12;
pub const RUN_LAST: usize = 19;
pub const JUMP_FIRST: usize = 20;
pub const JUMP_LAST: usize = 24;
pub const FALL_FIRST: usize = 25;
pub const FALL_LAST: usize = 29;

/// An inclusive range of frames on the sprite sheet.
#[derive(Debug, Clone, Copy, PartialEq, Eq, Structural)]
pub struct AnimationIndices {
    pub first: usize,
    pub last: usize,
}

impl AnimationIndices {
    /// The range is not empty.
    pub open spec fn wf(&self) -> bool {
        self.first <= self.last
    }

    /// `frame` lies in the range.
    pub open spec fn contains(&self, frame: int) -> bool {
        self.first <= frame <= self.last
    }

    /// Number of frames in the range.
    pub open spec fn count(&self) -> int {
        self.last - self.first + 1
    }
}

/// The frames that show a state. `Idle` has none of its own and keeps
/// whatever range was shown before.
pub open spec fn range_of(state: PlayerState) -> Option<AnimationIndices> {
    match state {
        PlayerState::Idle => None,
        PlayerState::Walking => Some(AnimationIndices { first: WALK_FIRST, last: WALK_LAST }),
        PlayerState::Running => Some(AnimationIndices { first: RUN_FIRST, last: RUN_LAST }),
        PlayerState::Jumping => Some(AnimationIndices { first: JUMP_FIRST, last: JUMP_LAST }),
        PlayerState::Falling => Some(AnimationIndices { first: FALL_FIRST, last: FALL_LAST }),
    }
}

/// Every state's frames are a range that is not empty and lies on the sprite
/// sheet, and no frame belongs to two states.
pub proof fn lemma_ranges_on_sheet(state: PlayerState, other: PlayerState, frame: int)
    ensures
        range_of(state) matches Some(range) ==> range.wf() && range.last < SHEET_COLUMNS
            * SHEET_ROWS,
        range_of(state) matches Some(range) ==> (range_of(other) matches Some(second)
            ==> range.contains(frame) && second.contains(frame) ==> state == other),
{
}

/// States whose animation stops on its last frame instead of starting over.
pub open spec fn holds_last_frame(state: PlayerState) -> bool {
    state == PlayerState::Jumping || state == PlayerState::Falling
}

/// The quotient `num / den` of real numbers, rounded to the nearest integer,
/// halves away from zero.
pub open spec fn round_ratio(num: int, den: int) -> int
    recommends
        den > 0,
{
    if num >= 0 {
        (num + num + den) / (den + den)
    } else {
        -((den - num - num) / (den + den))
    }
}

/// `value` moved into `[low, high]`.
pub open spec fn clamp_into(value: int, low: int, high: int) -> int
    recommends
        low <= high,
{
    if value < low {
        low
    } else if value > high {
        high
    } else {
        value
    }
}

/// Where frame `current` of the range `prev` goes when the range `next` takes
/// over. A frame that already lies in `next` stays. Any other frame keeps its
/// relative place: as far into `next`, proportionally, as it was into `prev`,
/// rounded and clamped into `next`. A `prev` of a single frame has no
/// proportion to keep, and the frame is only clamped.
pub open spec fn remap_spec(prev: AnimationIndices, next: AnimationIndices, current: int) -> int {
    if next.contains(current) {
        current
    } else if prev.last - prev.first <= 0 {
        clamp_into(current, next.first as int, next.last as int)
    } else {
        clamp_into(
            round_ratio(
                (current - prev.first) * (next.last - next.first),
                prev.last - prev.first,
            ) + next.first,
            next.first as int,
            next.last as int,
        )
    }
}

/// A rounded quotient of a non-negative numerator is the floor, plus one when
/// the remainder is at least half the denominator.
pub proof fn lemma_round_ratio_floor(num: int, den: int)
    requires
        num >= 0,
        den > 0,
    ensures
        round_ratio(num, den) == num / den + if 2 * (num % den) >= den { 1int } else { 0int },
{
    let q = num / den;
    let r = num % den;
    vstd::arithmetic::div_mod::lemma_fundamental_div_mod(num, den);
    vstd::arithmetic::div_mod::lemma_mod_bound(num, den);
    assert(2 * num + den == (2 * den) * q + (2 * r + den)) by (nonlinear_arith)
        requires
            num == den * q + r,
    ;
    if 2 * r >= den {
        assert(2 * num + den == (2 * den) * (q + 1) + (2 * r - den)) by (nonlinear_arith)
            requires
                2 * num + den == (2 * den) * q + (2 * r + den),
        ;
        vstd::arithmetic::div_mod::lemma_fundamental_div_mod_converse(
            2 * num + den,
            2 * den,
            q + 1,
            2 * r - den,
        );
    } else {
        vstd::arithmetic::div_mod::lemma_fundamental_div_mod_converse(
            2 * num + den,
            2 * den,
            q,
            2 * r + den,
        );
    }
}

/// An offset inside the old range lands inside the new one, and an offset at
/// or past the old range's end lands at or past the new one's.
pub proof fn lemma_round_ratio_bounds(offset: int, scale: int, den: int)
    requires
        scale >= 0,
        den > 0,
    ensures
        offset <= 0 ==> round_ratio(offset * scale, den) <= 0,
        0 <= offset < den ==> 0 <= round_ratio(offset * scale, den) <= scale,
        offset >= den ==> round_ratio(offset * scale, den) >= scale,
{
    let num = offset * scale;
    if offset <= 0 {
        assert(num <= 0) by (nonlinear_arith)
            requires
                num == offset * scale,
                offset <= 0,
                scale >= 0,
        ;
        vstd::arithmetic::div_mod::lemma_div_pos_is_pos(den - 2 * num, 2 * den);
        if num == 0 {
            vstd::arithmetic::div_mod::lemma_basic_div(den, 2 * den);
        }
    } else {
        assert(num >= 0) by (nonlinear_arith)
            requires
                num == offset * scale,
                offset >= 0,
                scale >= 0,
        ;
        let x = (2 * num + den) / (2 * den);
        vstd::arithmetic::div_mod::lemma_fundamental_div_mod(2 * num + den, 2 * den);
        vstd::arithmetic::div_mod::lemma_mod_bound(2 * num + den, 2 * den);
        vstd::arithmetic::div_mod::lemma_div_pos_is_pos(2 * num + den, 2 * den);
        let rem = (2 * num + den) % (2 * den);
        if offset < den {
            assert(x <= scale) by (nonlinear_arith)
                requires
                    2 * num + den == (2 * den) * x + rem,
                    0 <= rem,
                    num == offset * scale,
                    0 <= offset < den,
                    scale >= 0,
                    den > 0,
            ;
        } else {
            assert(x >= scale) by (nonlinear_arith)
                requires
                    2 * num + den == (2 * den) * x + rem,
                    rem < 2 * den,
                    num == offset * scale,
                    offset >= den,
                    scale >= 0,
                    den > 0,
            ;
        }
    }
}

/// The remapped frame lies in the new range, whatever the frame was.
pub proof fn lemma_remap_in_range(prev: AnimationIndices, next: AnimationIndices, current: int)
    requires
        next.wf(),
    ensures
        next.contains(remap_spec(prev, next, current)),
{
}

/// A frame that lies in the new range is left as it is. In particular,
/// remapping from a range to that same range changes no frame of it.
pub proof fn lemma_remap_keeps_frames_in_range(
    prev: AnimationIndices,
    next: AnimationIndices,
    current: int,
)
    requires
        next.contains(current),
    ensures
        remap_spec(prev, next, current) == current,
        remap_spec(next, next, current) == current,
{
}

/// Remapping a second time changes nothing.
pub proof fn lemma_remap_idempotent(prev: AnimationIndices, next: AnimationIndices, current: int)
    requires
        next.wf(),
    ensures
        remap_spec(prev, next, remap_spec(prev, next, current)) == remap_spec(prev, next, current),
        remap_spec(next, next, remap_spec(prev, next, current)) == remap_spec(prev, next, current),
{
}

/// Carries the displayed frame over from the range `prev` to the range `next`.
pub fn remap_frame(prev: &AnimationIndices, next: &AnimationIndices, current: usize) -> (frame: usize)
    requires
        prev.wf(),
        next.wf(),
    ensures
        frame == remap_spec(*prev, *next, current as int),
        next.contains(frame as int),
{
    if next.first <= current && current <= next.last {
        return current;
    }
    let prev_length: usize = prev.last - prev.first;
    let next_length: usize = next.last - next.first;
    if prev_length == 0 {
        return if current < next.first { next.first } else { next.last };
    }
    proof {
        lemma_round_ratio_bounds(current - prev.first, next_length as int, prev_length as int);
    }
    if current <= prev.first {
        return next.first;
    }
    let offset: usize = current - prev.first;
    if offset >= prev_length {
        return next.last;
    }
    proof {
        assert(offset * next_length <= u64::MAX * u64::MAX) by (nonlinear_arith)
            requires
                0 <= offset <= u64::MAX,
                0 <= next_length <= u64::MAX,
        ;
        lemma_round_ratio_floor(offset * next_length, prev_length as int);
    }
    let product: u128 = (offset as u128) * (next_length as u128);
    let quotient: u128 = product / (prev_length as u128);
    let remainder: u128 = product % (prev_length as u128);
    let rounded: u128 = if 2 * remainder >= prev_length as u128 {
        quotient + 1
    } else {
        quotient
    };
    next.first + rounded as usize
}

/// The range shown once the state is `state`, where `indices` was shown before.
pub open spec fn range_after_change(indices: AnimationIndices, state: PlayerState) -> AnimationIndices {
    match range_of(state) {
        Some(range) => range,
        None => indices,
    }
}

/// The frame displayed once the state is `state`, where frame `frame` of
/// `indices` was displayed before.
pub open spec fn frame_after_change(indices: AnimationIndices, state: PlayerState, frame: int) -> int {
    match range_of(state) {
        Some(range) => remap_spec(indices, range, frame),
        None => frame,
    }
}

/// Shows the frames of the player's state: the range becomes that of the
/// state, and the displayed frame is carried over into it. An idle player
/// keeps range and frame.
pub fn change_animation(player: &Player, frame: &mut usize, indices: &mut AnimationIndices)
    requires
        old(indices).wf(),
    ensures
        *final(indices) == range_after_change(*old(indices), player.state),
        *final(frame) == frame_after_change(*old(indices), player.state, *old(frame) as int),
        final(indices).wf(),
        player.state != PlayerState::Idle ==> final(indices).contains(*final(frame) as int),
{
    let range = match player.state {
        PlayerState::Idle => {
            return ;
        },
        PlayerState::Walking => AnimationIndices { first: WALK_FIRST, last: WALK_LAST },
        PlayerState::Running => AnimationIndices { first: RUN_FIRST, last: RUN_LAST },
        PlayerState::Jumping => AnimationIndices { first: JUMP_FIRST, last: JUMP_LAST },
        PlayerState::Falling => AnimationIndices { first: FALL_FIRST, last: FALL_LAST },
    };
    *frame = remap_frame(indices, &range, *frame);
    *indices = range;
}

/// The frame shown one animation step after `frame`: the next one, and after
/// the last one the first again, or still the last where the state holds it.
pub open spec fn step_frame(indices: AnimationIndices, state: PlayerState, frame: int) -> int {
    if frame == indices.last {
        if holds_last_frame(state) {
            indices.last as int
        } else {
            indices.first as int
        }
    } else {
        frame + 1
    }
}

/// The frame shown `steps` animation steps after `frame`.
pub open spec fn step_frames(
    indices: AnimationIndices,
    state: PlayerState,
    frame: int,
    steps: nat,
) -> int
    decreases steps,
{
    if steps == 0 {
        frame
    } else {
        step_frames(indices, state, step_frame(indices, state, frame), (steps - 1) as nat)
    }
}

/// Advances the displayed frame by one animation step.
pub fn advance_frame(indices: &AnimationIndices, state: PlayerState, frame: usize) -> (next: usize)
    requires
        step_frame(*indices, state, frame as int) <= usize::MAX,
    ensures
        next == step_frame(*indices, state, frame as int),
{
    if frame == indices.last {
        match state {
            PlayerState::Jumping | PlayerState::Falling => indices.last,
            _ => indices.first,
        }
    } else {
        frame + 1
    }
}

/// The frame shown after a tick of `delta` on a countdown that had run for
/// `elapsed`: one step further if the countdown finished, else the same.
pub open spec fn frame_after_tick(
    indices: AnimationIndices,
    state: PlayerState,
    period: int,
    elapsed: int,
    frame: int,
    delta: int,
) -> int {
    if fires(period, elapsed, delta) {
        step_frame(indices, state, frame)
    } else {
        frame
    }
}

/// One frame of the animation and of the horizontal driver: the countdown
/// ticks by `delta` nanoseconds, the displayed frame advances by one step if
/// the countdown finished, and the player moves at the speed of its state.
pub fn animate_sprite(
    delta: u64,
    indices: &AnimationIndices,
    timer: &mut AnimationTimer,
    frame: &mut usize,
    player: &mut Player,
)
    requires
        old(timer).wf(),
        frame_after_tick(
            *indices,
            old(player).state,
            old(timer).period as int,
            old(timer).elapsed as int,
            *old(frame) as int,
            delta as int,
        ) <= usize::MAX,
        drive_step(old(player)@).representable(),
    ensures
        final(timer).wf(),
        final(timer).period == old(timer).period,
        final(timer).elapsed == carried_over(
            old(timer).period as int,
            old(timer).elapsed as int,
            delta as int,
        ),
        *final(frame) == frame_after_tick(
            *indices,
            old(player).state,
            old(timer).period as int,
            old(timer).elapsed as int,
            *old(frame) as int,
            delta as int,
        ),
        final(player)@ == drive_step(old(player)@),
{
    if timer.tick(delta) {
        *frame = advance_frame(indices, player.state, *frame);
    }
    drive_horizontal(player);
}

/// Sum of a sequence of tick lengths.
pub open spec fn total_time(deltas: Seq<nat>) -> nat
    decreases deltas.len(),
{
    if deltas.len() == 0 {
        0
    } else {
        deltas[0] + total_time(deltas.drop_first())
    }
}

/// No tick of the sequence ends more than one period of a countdown that
/// starts `elapsed` into its period.
pub open spec fn one_completion_per_tick(period: int, elapsed: int, deltas: Seq<nat>) -> bool
    decreases deltas.len(),
{
    deltas.len() == 0 || (elapsed + deltas[0] < 2 * period && one_completion_per_tick(
        period,
        carried_over(period, elapsed, deltas[0] as int),
        deltas.drop_first(),
    ))
}

/// The frame shown after the ticks of `deltas`, one after another.
pub open spec fn frame_after_ticks(
    indices: AnimationIndices,
    state: PlayerState,
    period: int,
    elapsed: int,
    frame: int,
    deltas: Seq<nat>,
) -> int
    decreases deltas.len(),
{
    if deltas.len() == 0 {
        frame
    } else {
        frame_after_ticks(
            indices,
            state,
            period,
            carried_over(period, elapsed, deltas[0] as int),
            frame_after_tick(indices, state, period, elapsed, frame, deltas[0] as int),
            deltas.drop_first(),
        )
    }
}

/// Adding one period to a time adds one completion.
proof fn lemma_one_more_period(time: int, period: int)
    requires
        period > 0,
    ensures
        (time + period) / period == time / period + 1,
        (time + period) % period == time % period,
{
    let q = time / period;
    let r = time % period;
    vstd::arithmetic::div_mod::lemma_fundamental_div_mod(time, period);
    vstd::arithmetic::div_mod::lemma_mod_bound(time, period);
    assert(time + period == (q + 1) * period + r) by (nonlinear_arith)
        requires
            time == period * q + r,
    ;
    vstd::arithmetic::div_mod::lemma_fundamental_div_mod_converse(time + period, period, q + 1, r);
}

/// Over any run of ticks of which none ends more than one period, the
/// displayed frame advances by as many steps as whole periods have passed:
/// the elapsed time divided by the period, rounded down.
pub proof fn lemma_frame_follows_elapsed_time(
    indices: AnimationIndices,
    state: PlayerState,
    period: int,
    elapsed: int,
    frame: int,
    deltas: Seq<nat>,
)
    requires
        period > 0,
        0 <= elapsed < period,
        one_completion_per_tick(period, elapsed, deltas),
    ensures
        frame_after_ticks(indices, state, period, elapsed, frame, deltas) == step_frames(
            indices,
            state,
            frame,
            ((elapsed + total_time(deltas)) / period) as nat,
        ),
    decreases deltas.len(),
{
    if deltas.len() == 0 {
        crate::clock::lemma_fires_once(period, elapsed, 0);
    } else {
        let delta = deltas[0] as int;
        let rest = deltas.drop_first();
        let carried = carried_over(period, elapsed, delta);
        let shown = frame_after_tick(indices, state, period, elapsed, frame, delta);
        let later = carried + total_time(rest);
        let steps_later = (later / period) as nat;
        crate::clock::lemma_fires_once(period, elapsed, delta);
        lemma_frame_follows_elapsed_time(indices, state, period, carried, shown, rest);
        vstd::arithmetic::div_mod::lemma_div_pos_is_pos(later, period);
        assert(elapsed + total_time(deltas) == elapsed + delta + total_time(rest));
        if elapsed + delta >= period {
            lemma_one_more_period(later, period);
            assert(elapsed + total_time(deltas) == later + period);
            assert(step_frames(indices, state, frame, steps_later + 1) == step_frames(
                indices,
                state,
                shown,
                steps_later,
            ));
        } else {
            assert(elapsed + total_time(deltas) == later);
        }
    }
}

/// In a state that starts its animation over, a frame of the range is
/// `steps` steps later the frame that many places further on, counted round
/// the range.
pub proof fn lemma_step_frames_wrap(
    indices: AnimationIndices,
    state: PlayerState,
    frame: int,
    steps: nat,
)
    requires
        indices.contains(frame),
        !holds_last_frame(state),
    ensures
        step_frames(indices, state, frame, steps) == indices.first + (frame - indices.first
            + steps) % indices.count(),
    decreases steps,
{
    let count = indices.count();
    if steps == 0 {
        vstd::arithmetic::div_mod::lemma_small_mod((frame - indices.first) as nat, count as nat);
    } else {
        lemma_step_frames_wrap(indices, state, step_frame(indices, state, frame), (steps - 1) as nat);
        if frame == indices.last {
            lemma_one_more_period(steps - 1, count);
        }
    }
}

/// In a state that holds its last frame, a frame of the range is `steps`
/// steps later the frame that many places further on, or the last one where
/// the range ends before.
pub proof fn lemma_step_frames_hold(
    indices: AnimationIndices,
    state: PlayerState,
    frame: int,
    steps: nat,
)
    requires
        indices.contains(frame),
        holds_last_frame(state),
    ensures
        step_frames(indices, state, frame, steps) == clamp_into(
            frame + steps,
            indices.first as int,
            indices.last as int,
        ),
    decreases steps,
{
    if steps > 0 {
        lemma_step_frames_hold(indices, state, step_frame(indices, state, frame), (steps - 1) as nat);
    }
}

/// Starting from a frame of the active range, and over any run of ticks of
/// which none ends more than one period, the displayed frame moves on by the
/// number of whole periods in the elapsed time: counted round the range in a
/// state that starts over, and stopping at the last frame in a state that
/// holds it.
pub proof fn lemma_frame_after_elapsed_time(
    indices: AnimationIndices,
    state: PlayerState,
    period: int,
    elapsed: int,
    frame: int,
    deltas: Seq<nat>,
)
    requires
        period > 0,
        0 <= elapsed < period,
        indices.contains(frame),
        one_completion_per_tick(period, elapsed, deltas),
    ensures
        ({
            let steps = (elapsed + total_time(deltas)) / period;
            let shown = frame_after_ticks(indices, state, period, elapsed, frame, deltas);
            &&& steps >= 0
            &&& indices.contains(shown)
            &&& holds_last_frame(state) ==> shown == clamp_into(
                frame + steps,
                indices.first as int,
                indices.last as int,
            )
            &&& !holds_last_frame(state) ==> shown == indices.first + (frame - indices.first
                + steps) % indices.count()
        }),
{
    let steps = (elapsed + total_time(deltas)) / period;
    vstd::arithmetic::div_mod::lemma_div_pos_is_pos(elapsed + total_time(deltas), period);
    lemma_frame_follows_elapsed_time(indices, state, period, elapsed, frame, deltas);
    if holds_last_frame(state) {
        lemma_step_frames_hold(indices, state, frame, steps as nat);
    } else {
        lemma_step_frames_wrap(indices, state, frame, steps as nat);
        vstd::arithmetic::div_mod::lemma_mod_bound(frame - indices.first + steps, indices.count());
    }
}

} // verus!
