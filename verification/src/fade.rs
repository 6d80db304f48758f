//! The timing of the focus fade: when a fade starts, how far it has run and when it ends.
//! Times are nanosecond readings of one monotonic clock; the fade's progress value itself
//! is a floating-point quantity that the caller keeps.
use vstd::prelude::*;

verus! {

/// The direction of a focus fade.
#[derive(Clone, Copy, Debug, PartialEq, Eq, Structural)]
pub enum FadeDirection {
    /// Losing focus: the progress goes towards zero.
    Out,
    /// Gaining focus: the progress goes towards one.
    In,
}

/// `a - b`, or zero when `b` is later than `a`.
pub open spec fn saturating_sub(a: u64, b: u64) -> u64 {
    if a >= b {
        (a - b) as u64
    } else {
        0
    }
}

/// What a fade timer holds: the running fade's direction, if any, the clock reading at
/// which it started, the reading of the last frame, the length of a whole fade and the
/// time between the last two frames.
pub struct FadeTimerView {
    pub direction: Option<FadeDirection>,
    pub fade_start: u64,
    pub last_time: u64,
    pub duration: u128,
    pub delta: u64,
}

/// Keeps the timing of the fading of the wallpaper's focus.
#[derive(Clone, Copy, Debug)]
pub struct FadeTimer {
    direction: Option<FadeDirection>,
    fade_start: u64,
    last_time: u64,
    duration: u128,
    delta: u64,
}

impl View for FadeTimer {
    type V = FadeTimerView;

    closed spec fn view(&self) -> FadeTimerView {
        FadeTimerView {
            direction: self.direction,
            fade_start: self.fade_start,
            last_time: self.last_time,
            duration: self.duration,
            delta: self.delta,
        }
    }
}

/// What one frame of a fade does.
#[derive(Clone, Copy, Debug, PartialEq, Eq, Structural)]
pub enum FadeStep {
    /// No fade is running.
    Idle,
    /// The fade is over: the progress jumps to the end of the direction and the fade stops.
    Finish(FadeDirection),
    /// The fade goes on: `remaining` nanoseconds are left of it, and `delta` nanoseconds
    /// passed between the last two frames.
    Advance { direction: FadeDirection, remaining: u128, delta: u64 },
}

/// The timer after a fade in `direction` was asked for at `now`: a fade already running
/// that way is left alone; otherwise the fade turns, and restarts its clock unless the
/// previous fade began less than half a fade ago.
pub open spec fn spec_start_fade(v: FadeTimerView, direction: FadeDirection, now: u64) -> FadeTimerView {
    if v.direction == Some(direction) {
        v
    } else {
        FadeTimerView {
            direction: Some(direction),
            fade_start: if saturating_sub(now, v.fade_start) < v.duration / 2 {
                v.fade_start
            } else {
                now
            },
            last_time: now,
            duration: v.duration,
            delta: 0,
        }
    }
}

/// The timer after a frame at `now`.
pub open spec fn spec_update_delta(v: FadeTimerView, now: u64) -> FadeTimerView {
    FadeTimerView {
        direction: v.direction,
        fade_start: v.fade_start,
        last_time: now,
        duration: v.duration,
        delta: saturating_sub(now, v.last_time),
    }
}

/// What the next frame of the fade does, as of the last frame's reading: a fade whose
/// clock reads before its start, or that ran longer than its duration, is over.
pub open spec fn spec_fade_step(v: FadeTimerView) -> FadeStep {
    match v.direction {
        None => FadeStep::Idle,
        Some(d) => if v.last_time < v.fade_start || v.last_time - v.fade_start > v.duration {
            FadeStep::Finish(d)
        } else {
            FadeStep::Advance {
                direction: d,
                remaining: (v.duration - (v.last_time - v.fade_start)) as u128,
                delta: v.delta,
            }
        },
    }
}

/// The timer after a frame of the fade: a finished fade stops.
pub open spec fn spec_after_step(v: FadeTimerView) -> FadeTimerView {
    if spec_fade_step(v) is Finish {
        FadeTimerView {
            direction: None,
            fade_start: v.fade_start,
            last_time: v.last_time,
            duration: v.duration,
            delta: v.delta,
        }
    } else {
        v
    }
}

impl FadeTimer {
    /// A timer for fades of `fade_time` nanoseconds, created at `now`, with no fade
    /// running.
    pub fn new(fade_time: u128, now: u64) -> (r: Self)
        ensures
            r@ == (FadeTimerView {
                direction: None,
                fade_start: now,
                last_time: now,
                duration: fade_time,
                delta: 0,
            }),
    {
        FadeTimer { direction: None, fade_start: now, last_time: now, duration: fade_time, delta: 0 }
    }

    /// The direction of the running fade, if one runs.
    pub fn direction(&self) -> (r: Option<FadeDirection>)
        ensures
            r == self@.direction,
    {
        self.direction
    }

    /// The length of a whole fade, in nanoseconds.
    pub fn duration(&self) -> (r: u128)
        ensures
            r == self@.duration,
    {
        self.duration
    }

    /// The length of a whole fade, to be changed in place.
    pub fn duration_mut(&mut self) -> (r: &mut u128)
        ensures
            *r == old(self)@.duration,
            final(self)@ == (FadeTimerView { duration: *final(r), ..old(self)@ }),
    {
        &mut self.duration
    }

    /// Starts a fade in `direction` at `now`; see `spec_start_fade`.
    pub fn start_fade(&mut self, direction: FadeDirection, now: u64)
        ensures
            final(self)@ == spec_start_fade(old(self)@, direction, now),
    {
        if self.direction == Some(direction) {
            return;
        }
        self.direction = Some(direction);
        self.last_time = now;
        self.delta = 0;
        let since_start: u64 = if now >= self.fade_start { now - self.fade_start } else { 0 };
        if (since_start as u128) < self.duration / 2 {
            return;
        }
        self.fade_start = now;
    }

    /// Records a frame at `now`: the time since the previous frame, and the new frame's time.
    pub fn update_delta(&mut self, now: u64)
        ensures
            final(self)@ == spec_update_delta(old(self)@, now),
    {
        self.delta = if now >= self.last_time { now - self.last_time } else { 0 };
        self.last_time = now;
    }

    /// Runs one frame of the fade, stopping it when it is over.
    pub fn continue_fade(&mut self) -> (r: FadeStep)
        ensures
            r == spec_fade_step(old(self)@),
            final(self)@ == spec_after_step(old(self)@),
    {
        let direction = match self.direction {
            None => return FadeStep::Idle,
            Some(d) => d,
        };
        if self.last_time < self.fade_start {
            self.direction = None;
            return FadeStep::Finish(direction);
        }
        let progress: u64 = self.last_time - self.fade_start;
        if progress as u128 > self.duration {
            self.direction = None;
            return FadeStep::Finish(direction);
        }
        FadeStep::Advance { direction, remaining: self.duration - progress as u128, delta: self.delta }
    }
}

/// Why a duration text was refused.
#[derive(Clone, Copy, Debug, PartialEq, Eq, Structural)]
pub enum DurationError {
    /// The text is not a sequence of numbers with units (`ns`, `us`, `ms`, `s`, `m`, `h`,
    /// `d`, `w`, `y`).
    Format,
    /// The duration does not fit the parser's duration type.
    Overflow,
    /// A number in the text could not be read.
    InvalidNumber,
}

/// Name for what the `duration-string` parser reads from a text: a number of nanoseconds,
/// or the kind of its error.
pub uninterp spec fn duration_string_parse(s: Seq<char>) -> Result<u128, DurationError>;

/// Calls `DurationString::from_str`; the result, in nanoseconds, or the error's kind, is
/// the named one.
#[verifier::external_body]
fn duration_string_from_str(s: &str) -> (r: Result<u128, DurationError>)
    ensures
        r == duration_string_parse(s@),
{
    match s.parse::<duration_string::DurationString>() {
        Ok(d) => Ok(d.as_nanos()),
        Err(duration_string::Error::Format) => Err(DurationError::Format),
        Err(duration_string::Error::Overflow) => Err(DurationError::Overflow),
        Err(duration_string::Error::ParseInt(_)) => Err(DurationError::InvalidNumber),
    }
}

/// Reads a fade time such as `500ms` or `1s 250ms`, in nanoseconds.
pub fn parse_fade_time(s: &str) -> (r: Result<u128, DurationError>)
    ensures
        r == duration_string_parse(s@),
{
    duration_string_from_str(s)
}

/// A new timer runs no fade: its first frame is idle.
pub proof fn law_new_timer_is_not_fading(fade_time: u128, now: u64)
    ensures
        spec_fade_step(
            FadeTimerView { direction: None, fade_start: now, last_time: now, duration: fade_time, delta: 0 },
        ) == FadeStep::Idle,
{
}

/// Turning a fade around once at least half a fade has passed since the last start (or
/// when the clock reads before that start and half a fade is nothing) restarts the fade at
/// `now`, so it then runs a whole fade from there: its first frame has the whole duration
/// left, however long the timer was idle.
pub proof fn law_late_reversal_restarts(v: FadeTimerView, direction: FadeDirection, now: u64)
    requires
        v.direction != Some(direction),
        v.fade_start <= now,
        (now - v.fade_start) as u128 >= v.duration / 2,
    ensures
        spec_start_fade(v, direction, now).fade_start == now,
        spec_start_fade(v, direction, now).last_time == now,
        spec_start_fade(v, direction, now).direction == Some(direction),
        spec_start_fade(v, direction, now).duration == v.duration,
        spec_fade_step(spec_start_fade(v, direction, now)) == (FadeStep::Advance {
            direction,
            remaining: v.duration,
            delta: 0,
        }),
{
}

/// Asking for the fade that is already running changes nothing, however late the second
/// request comes.
pub proof fn law_start_fade_idempotent(v: FadeTimerView, direction: FadeDirection, first: u64, second: u64)
    ensures
        spec_start_fade(spec_start_fade(v, direction, first), direction, second) == spec_start_fade(
            v,
            direction,
            first,
        ),
{
}

/// A fade that has run longer than its duration finishes, and the next frame finds the
/// timer idle.
pub proof fn law_fade_finishes(v: FadeTimerView)
    requires
        v.direction is Some,
        v.fade_start <= v.last_time,
        v.last_time - v.fade_start > v.duration,
    ensures
        spec_fade_step(v) == FadeStep::Finish(v.direction->0),
        spec_fade_step(spec_after_step(v)) == FadeStep::Idle,
{
}

/// While a fade runs, the time left of it never exceeds a whole fade, and a frame taken
/// `t` nanoseconds after the start leaves exactly `duration - t` of it.
pub proof fn law_fade_remaining(v: FadeTimerView, now: u64)
    requires
        v.direction is Some,
        v.fade_start <= now,
        now - v.fade_start <= v.duration,
    ensures
        spec_fade_step(spec_update_delta(v, now)) == (FadeStep::Advance {
            direction: v.direction->0,
            remaining: (v.duration - (now - v.fade_start)) as u128,
            delta: saturating_sub(now, v.last_time),
        }),
        (v.duration - (now - v.fade_start)) <= v.duration,
{
}

/// Turning a fade around before half of it has run keeps its start, so the turned fade
/// ends no later than the first would have.
pub proof fn law_quick_reversal_keeps_start(v: FadeTimerView, direction: FadeDirection, now: u64)
    requires
        v.direction != Some(direction),
        v.fade_start <= now,
        now - v.fade_start < v.duration / 2,
    ensures
        spec_start_fade(v, direction, now).fade_start == v.fade_start,
        spec_start_fade(v, direction, now).direction == Some(direction),
{
}

} // verus!
