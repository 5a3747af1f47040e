//! Volume and seek arithmetic, and the two readings of the engine's clock:
//! whether playback looks paused and whether the loaded track has completed.
//!
//! A volume is kept in thousandths of the engine's full volume, a time in
//! nanoseconds as the engine reports it.
use vstd::prelude::*;

verus! {

/// The full volume, in thousandths.
pub const VOLUME_FULL: u32 = 1000;
/// The fine volume step: a hundredth of the full volume.
pub const VOLUME_FINE: u32 = 10;
/// The coarse volume step: a twentieth of the full volume.
pub const VOLUME_COARSE: u32 = 50;
/// Nanoseconds in a second.
pub const NANOS_PER_SECOND: u64 = 1_000_000_000;
/// The fine seek step, in seconds.
pub const SEEK_FINE: u64 = 1;
/// The coarse seek step, in seconds.
pub const SEEK_COARSE: u64 = 15;

/// One adjustment of a bounded quantity (the volume, or the position within
/// the loaded track).
#[derive(Clone, Copy, PartialEq, Eq, Structural, Debug)]
pub enum Adjust {
    /// A fine step down.
    Down,
    /// A fine step up.
    Up,
    /// A coarse step down.
    BigDown,
    /// A coarse step up.
    BigUp,
    /// Straight to the lower bound.
    ToStart,
    /// Straight to the upper bound.
    ToEnd,
}

/// `v` brought into `[0, VOLUME_FULL]`.
pub open spec fn clamp_volume(v: int) -> u32 {
    if v < 0 {
        0
    } else if v > VOLUME_FULL {
        VOLUME_FULL
    } else {
        v as u32
    }
}

/// The volume that one adjustment leads to from volume `v`.
pub open spec fn volume_after(v: u32, a: Adjust) -> u32 {
    match a {
        Adjust::Down => clamp_volume(v - VOLUME_FINE),
        Adjust::Up => clamp_volume(v + VOLUME_FINE),
        Adjust::BigDown => clamp_volume(v - VOLUME_COARSE),
        Adjust::BigUp => clamp_volume(v + VOLUME_COARSE),
        Adjust::ToStart => 0,
        Adjust::ToEnd => VOLUME_FULL,
    }
}

/// The volume after applying the adjustments of `adjs` in order.
pub open spec fn volume_after_all(v: u32, adjs: Seq<Adjust>) -> u32
    decreases adjs.len(),
{
    if adjs.len() == 0 {
        v
    } else {
        volume_after_all(volume_after(v, adjs[0]), adjs.drop_first())
    }
}

/// Whole seconds in a time given in nanoseconds.
pub open spec fn whole_seconds(t: u64) -> int {
    t as int / NANOS_PER_SECOND as int
}

/// The start of second `s`, in nanoseconds.
pub open spec fn at_second(s: int) -> u64 {
    (s * NANOS_PER_SECOND as int) as u64
}

/// Where one seek adjustment goes, from `position` in a track of `duration`
/// (both read from the engine, `None` when unknown). Steps move by whole
/// seconds and land on a whole second, within `[0, duration]`; the extremes go
/// to `0` and to `duration`. `None`: no seek, because the duration is unknown,
/// or the position is and the step is relative to it.
pub open spec fn seek_after(position: Option<u64>, duration: Option<u64>, a: Adjust) -> Option<u64> {
    match duration {
        None => None,
        Some(d) => match a {
            Adjust::ToStart => Some(0),
            Adjust::ToEnd => Some(d),
            _ => match position {
                None => None,
                Some(p) => {
                    let s = whole_seconds(p);
                    let target = match a {
                        Adjust::Down => s - SEEK_FINE,
                        Adjust::BigDown => s - SEEK_COARSE,
                        Adjust::Up => s + SEEK_FINE,
                        _ => s + SEEK_COARSE,
                    };
                    let clamped = if target < 0 {
                        0
                    } else if target > whole_seconds(d) {
                        whole_seconds(d)
                    } else {
                        target
                    };
                    Some(at_second(clamped))
                },
            },
        },
    }
}

/// The position after seeking by each adjustment of `adjs` in turn, starting
/// at `p` in a track of known duration `d`.
pub open spec fn position_after_all(p: u64, d: u64, adjs: Seq<Adjust>) -> u64
    decreases adjs.len(),
{
    if adjs.len() == 0 {
        p
    } else {
        let next = match seek_after(Some(p), Some(d), adjs[0]) {
            Some(q) => q,
            None => p,
        };
        position_after_all(next, d, adjs.drop_first())
    }
}

/// Whether two position samples taken one right after the other say that
/// playback is paused: it is taken as paused when they are equal or when
/// either is missing. Two samples taken within one tick of the engine's clock
/// also read as equal, so a playing stream may be taken as paused.
pub open spec fn looks_paused(first: Option<u64>, second: Option<u64>) -> bool {
    match (first, second) {
        (Some(a), Some(b)) => a == b,
        _ => true,
    }
}

/// Whether the loaded track has completed: position and duration are both
/// known, and the progress ratio of their whole seconds is exactly one.
pub open spec fn completed(position: Option<u64>, duration: Option<u64>) -> bool {
    match (position, duration) {
        (Some(p), Some(d)) => whole_seconds(d) > 0 && whole_seconds(p) == whole_seconds(d),
        _ => false,
    }
}

/// Applies one adjustment to volume `v`.
pub fn adjust_volume(v: u32, a: Adjust) -> (r: u32)
    ensures
        r == volume_after(v, a),
        r <= VOLUME_FULL,
{
    match a {
        Adjust::Down => step_volume_down(v, VOLUME_FINE),
        Adjust::Up => step_volume_up(v, VOLUME_FINE),
        Adjust::BigDown => step_volume_down(v, VOLUME_COARSE),
        Adjust::BigUp => step_volume_up(v, VOLUME_COARSE),
        Adjust::ToStart => 0,
        Adjust::ToEnd => VOLUME_FULL,
    }
}

fn step_volume_down(v: u32, step: u32) -> (r: u32)
    ensures
        r == clamp_volume(v - step),
{
    if v < step {
        0
    } else if v - step > VOLUME_FULL {
        VOLUME_FULL
    } else {
        v - step
    }
}

fn step_volume_up(v: u32, step: u32) -> (r: u32)
    ensures
        r == clamp_volume(v + step),
{
    if v >= VOLUME_FULL || step >= VOLUME_FULL - v {
        VOLUME_FULL
    } else {
        v + step
    }
}

/// Works out where one seek adjustment goes; see [`seek_after`].
pub fn seek_target(position: Option<u64>, duration: Option<u64>, a: Adjust) -> (r: Option<u64>)
    ensures
        r == seek_after(position, duration, a),
        r matches Some(t) ==> duration matches Some(d) && t <= d,
{
    let d = match duration {
        None => {
            return None;
        },
        Some(d) => d,
    };
    match a {
        Adjust::ToStart => {
            return Some(0);
        },
        Adjust::ToEnd => {
            return Some(d);
        },
        _ => {},
    }
    let p = match position {
        None => {
            return None;
        },
        Some(p) => p,
    };
    let s = p / NANOS_PER_SECOND;
    let ds = d / NANOS_PER_SECOND;
    let target: u64 = match a {
        Adjust::Down => if s >= SEEK_FINE { s - SEEK_FINE } else { 0 },
        Adjust::BigDown => if s >= SEEK_COARSE { s - SEEK_COARSE } else { 0 },
        Adjust::Up => s + SEEK_FINE,
        _ => s + SEEK_COARSE,
    };
    let clamped = if target > ds { ds } else { target };
    proof {
        assert(ds * NANOS_PER_SECOND <= d) by (nonlinear_arith)
            requires ds == d / NANOS_PER_SECOND;
        assert(clamped * NANOS_PER_SECOND <= ds * NANOS_PER_SECOND) by (nonlinear_arith)
            requires clamped <= ds;
    }
    Some(clamped * NANOS_PER_SECOND)
}

/// Compares two position samples; see [`looks_paused`].
pub fn is_paused(first: Option<u64>, second: Option<u64>) -> (r: bool)
    ensures
        r == looks_paused(first, second),
{
    match (first, second) {
        (Some(a), Some(b)) => a == b,
        _ => true,
    }
}

/// Whether the loaded track has completed; see [`completed`].
pub fn is_complete(position: Option<u64>, duration: Option<u64>) -> (r: bool)
    ensures
        r == completed(position, duration),
{
    match (position, duration) {
        (Some(p), Some(d)) => {
            let ds = d / NANOS_PER_SECOND;
            ds > 0 && p / NANOS_PER_SECOND == ds
        },
        _ => false,
    }
}

/// From a volume within range, any sequence of adjustments keeps the volume
/// within `[0, VOLUME_FULL]`; going to the start always gives exactly `0`, and
/// going to the end always gives exactly `VOLUME_FULL`.
pub proof fn lemma_volume_stays_in_range(v: u32, adjs: Seq<Adjust>)
    requires
        v <= VOLUME_FULL,
    ensures
        volume_after_all(v, adjs) <= VOLUME_FULL,
        volume_after(v, Adjust::ToStart) == 0,
        volume_after(v, Adjust::ToEnd) == VOLUME_FULL,
    decreases adjs.len(),
{
    if adjs.len() > 0 {
        lemma_volume_stays_in_range(volume_after(v, adjs[0]), adjs.drop_first());
    }
}

/// In a track of known duration `d`, from a position within it, any sequence
/// of seek adjustments keeps the position within `[0, d]`.
pub proof fn lemma_seek_stays_in_range(p: u64, d: u64, adjs: Seq<Adjust>)
    requires
        p <= d,
    ensures
        position_after_all(p, d, adjs) <= d,
    decreases adjs.len(),
{
    if adjs.len() > 0 {
        let next = match seek_after(Some(p), Some(d), adjs[0]) {
            Some(q) => q,
            None => p,
        };
        lemma_seek_target_bounded(p, d, adjs[0]);
        lemma_seek_stays_in_range(next, d, adjs.drop_first());
    }
}

/// A seek adjustment in a track of known duration `d` lands within `[0, d]`.
proof fn lemma_seek_target_bounded(p: u64, d: u64, a: Adjust)
    ensures
        seek_after(Some(p), Some(d), a) matches Some(t) && t <= d,
{
    let ds = whole_seconds(d);
    assert(ds * NANOS_PER_SECOND <= d) by (nonlinear_arith)
        requires ds == d as int / NANOS_PER_SECOND as int;
    assert forall|c: int| 0 <= c <= ds implies #[trigger] (c * NANOS_PER_SECOND) <= d by {
        assert(c * NANOS_PER_SECOND <= ds * NANOS_PER_SECOND) by (nonlinear_arith)
            requires c <= ds;
    }
}

} // verus!
