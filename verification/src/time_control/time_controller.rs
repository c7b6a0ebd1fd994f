//! The clock of a search.

use crate::chess::Color;
use crate::config::Config;
use crate::position::Position;
use crate::search::params::SearchParams;
use crate::time_control::time_mode::TimeMode;
use vstd::prelude::*;

verus! {

/// Reads the clock with `chrono::Local::now` and gives the time in
/// milliseconds since the start of 1970, as `DateTime::timestamp_millis`
/// counts them. Nothing is claimed of the number: it is the time.
#[verifier::external_body]
pub(crate) fn now_millis() -> (r: i64) {
    chrono::Local::now().timestamp_millis()
}

/// The time a search may take, in milliseconds: the time for the move, or
/// the share of the time that the side to move has left, or nothing where
/// the time is not limited.
pub open spec fn allotted(
    mode: TimeMode,
    params: SearchParams,
    turn: Color,
    divisor: u64,
) -> int {
    match mode {
        TimeMode::MoveTime => params.move_time as int,
        TimeMode::WOrBTime => match turn {
            Color::White => params.w_time as int / divisor as int,
            Color::Black => params.b_time as int / divisor as int,
        },
        TimeMode::Infinite => 0,
    }
}

/// The milliseconds from `start` to `now`, held within what 64 bits can say.
pub open spec fn span(start: i64, now: i64) -> int {
    let d = now - start;
    if d > i64::MAX {
        i64::MAX as int
    } else if d < i64::MIN {
        i64::MIN as int
    } else {
        d
    }
}

/// A limited search is out of time when more milliseconds have passed since
/// its start than it may take. An unlimited search never is.
pub open spec fn time_is_up(mode: TimeMode, start: i64, now: i64, play_time: u128) -> bool {
    mode != TimeMode::Infinite && now - start > play_time
}

/// A limited search starts no further iteration when the time passed,
/// multiplied by `factor`, is more than the search may take.
pub open spec fn too_late_to_deepen(
    mode: TimeMode,
    elapsed: i64,
    factor: i64,
    play_time: u128,
) -> bool {
    mode != TimeMode::Infinite && elapsed * factor > play_time
}

/// The milliseconds from `start` to `now`.
pub fn millis_between(start: i64, now: i64) -> (r: i64)
    ensures
        r == span(start, now),
{
    let d: i128 = now as i128 - start as i128;
    if d > i64::MAX as i128 {
        i64::MAX
    } else if d < i64::MIN as i128 {
        i64::MIN
    } else {
        d as i64
    }
}

/// Whether a search that started at `start` is out of time at `now`.
pub fn deadline_passed(mode: TimeMode, start: i64, now: i64, play_time: u128) -> (r: bool)
    ensures
        r == time_is_up(mode, start, now, play_time),
{
    if !TimeMode::is_finite(&mode) {
        return false;
    }
    let d: i128 = now as i128 - start as i128;
    if d < 0 {
        return false;
    }
    d as u128 > play_time
}

/// Whether it is too late to start a further iteration.
pub fn soft_stop(mode: TimeMode, elapsed: i64, factor: i64, play_time: u128) -> (r: bool)
    ensures
        r == too_late_to_deepen(mode, elapsed, factor, play_time),
{
    if !TimeMode::is_finite(&mode) {
        return false;
    }
    assert(-170141183460469231731687303715884105728 < elapsed * factor
        < 170141183460469231731687303715884105727) by (nonlinear_arith)
        requires
            -9223372036854775808 <= elapsed <= 9223372036854775807,
            -9223372036854775808 <= factor <= 9223372036854775807,
    ;
    let weighed: i128 = (elapsed as i128) * (factor as i128);
    if weighed < 0 {
        return false;
    }
    weighed as u128 > play_time
}

/// The clock of a search: how its time is limited, when it started and how
/// long it may take.
pub struct TimeController {
    pub time_mode: TimeMode,
    pub start_time: i64,
    pub play_time: u128,
}

impl TimeController {
    /// Notes the present time as the start of the search.
    pub fn start(&mut self)
        ensures
            final(self).time_mode == old(self).time_mode,
            final(self).play_time == old(self).play_time,
    {
        self.start_time = now_millis();
    }

    /// Sets the time the search may take and starts the clock.
    pub fn setup(&mut self, params: &SearchParams, game: &Position, cfg: &Config)
        requires
            cfg.wf(),
        ensures
            final(self).time_mode == old(self).time_mode,
            final(self).play_time == allotted(
                old(self).time_mode,
                *params,
                game.spec_turn(),
                cfg.tc_time_divisor.value,
            ),
    {
        self.play_time = match self.time_mode {
            TimeMode::MoveTime => params.move_time,
            TimeMode::WOrBTime => match game.turn() {
                Color::White => params.w_time / (cfg.tc_time_divisor.value as u128),
                Color::Black => params.b_time / (cfg.tc_time_divisor.value as u128),
            },
            TimeMode::Infinite => 0,
        };
        self.start();
    }

    /// The milliseconds since the start of the search: for some present
    /// time, the span from the start to it.
    pub fn elapsed(&self) -> (r: i64)
        ensures
            exists|now: i64| r == span(self.start_time, now),
    {
        let now = now_millis();
        millis_between(self.start_time, now)
    }

    /// Whether the search is out of time: for some present time, whether
    /// more time has passed than the search may take. An unlimited search
    /// never is.
    pub fn is_time_up(&self) -> (r: bool)
        ensures
            exists|now: i64| r == time_is_up(self.time_mode, self.start_time, now, self.play_time),
            self.time_mode == TimeMode::Infinite ==> !r,
    {
        let now = now_millis();
        deadline_passed(self.time_mode, self.start_time, now, self.play_time)
    }
}

impl Default for TimeController {
    fn default() -> (r: TimeController)
        ensures
            r.time_mode == TimeMode::Infinite,
            r.play_time == 0,
    {
        TimeController { start_time: now_millis(), time_mode: TimeMode::Infinite, play_time: 0 }
    }
}

} // verus!
