use vstd::prelude::*;

use crate::constants::{DAY_SECONDS, MAX_GAP, MIN_GAP, WINDOW_DURATION};
use crate::errors::LaunchError;

verus! {

/// Start of the first window drawn from `seed`.
pub open spec fn window1_of(seed: u64) -> u64 {
    (seed % (DAY_SECONDS - MAX_GAP - WINDOW_DURATION) as u64) as u64
}

/// Distance between the two window starts drawn from `seed`.
pub open spec fn gap_of(seed: u64) -> u64 {
    (MIN_GAP + (seed >> 8u64) % (MAX_GAP - MIN_GAP) as u64) as u64
}

/// Start of the second window drawn from `seed`.
pub open spec fn window2_of(seed: u64) -> u64 {
    (window1_of(seed) + gap_of(seed)) as u64
}

/// The two windows of a day, given by their starts, follow one another
/// without overlap and end within the day.
pub open spec fn windows_valid(window1_start: u64, window2_start: u64) -> bool {
    &&& window1_start + WINDOW_DURATION <= window2_start
    &&& window2_start + WINDOW_DURATION <= DAY_SECONDS
}

/// Seconds elapsed since the start of the day that holds `now`.
pub open spec fn time_of_day(now: u64) -> int {
    (now % DAY_SECONDS) as int
}

/// Whether second `t` of the day lies in the window starting at `start`
/// (the window is half-open).
pub open spec fn in_window(start: u64, t: int) -> bool {
    start <= t < start + WINDOW_DURATION
}

/// Whether trading is open at `now` under the given windows.
pub open spec fn window_open_at(window1_start: u64, window2_start: u64, now: u64) -> bool {
    in_window(window1_start, time_of_day(now)) || in_window(window2_start, time_of_day(now))
}

/// Draws the two trading windows of a day from `seed`. The windows never
/// overlap and always end within the day; the bound is checked again at run
/// time and reported as `InvalidWindowTimes` should it ever fail.
pub fn generate(seed: u64) -> (r: Result<(u64, u64), LaunchError>)
    ensures
        r == Ok::<(u64, u64), LaunchError>((window1_of(seed), window2_of(seed))),
        r->Ok_0.1 + WINDOW_DURATION <= DAY_SECONDS,
        windows_valid(r->Ok_0.0, r->Ok_0.1),
{
    let window1 = seed % (DAY_SECONDS - MAX_GAP - WINDOW_DURATION);
    let gap = MIN_GAP + (seed >> 8u64) % (MAX_GAP - MIN_GAP);
    let window2 = window1 + gap;
    if window2 + WINDOW_DURATION > DAY_SECONDS {
        return Err(LaunchError::InvalidWindowTimes);
    }
    Ok((window1, window2))
}

/// Whether `now` falls inside one of the two windows, taken as offsets into
/// the day that holds `now`.
pub fn window_open(window1_start: u64, window2_start: u64, now: u64) -> (r: bool)
    ensures
        r == window_open_at(window1_start, window2_start, now),
{
    let t = now % DAY_SECONDS;
    (t >= window1_start && t - window1_start < WINDOW_DURATION) || (t >= window2_start && t
        - window2_start < WINDOW_DURATION)
}

/// A window includes its first second and excludes the second right after
/// its end: trading is open at the first window's start and, unless the
/// second window begins exactly there, closed one window length later.
pub proof fn lemma_window_half_open(window1_start: u64, window2_start: u64)
    requires
        windows_valid(window1_start, window2_start),
        window1_start + WINDOW_DURATION != window2_start,
    ensures
        window_open_at(window1_start, window2_start, window1_start),
        !window_open_at(
            window1_start,
            window2_start,
            (window1_start + WINDOW_DURATION) as u64,
        ),
{
}

} // verus!
