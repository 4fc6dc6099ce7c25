//! Frame-rate accounting: frames are counted, and once a second the count is
//! turned into a rate that stays put until the next second is over.
//!
//! A rate is kept as the two integers it was measured from, a number of frames
//! and a number of nanoseconds, so that nothing is lost to rounding.

use std::time::Duration;
use std::time::Instant;
use vstd::prelude::*;

verus! {

/// Nanoseconds in a second: the time after which the rate is measured anew.
pub const SECOND: u128 = 1_000_000_000;

#[verifier::external_type_specification]
#[verifier::external_body]
pub struct ExInstant(Instant);

/// `Instant::now`: the present moment. Nothing is claimed of it.
pub assume_specification[ Instant::now ]() -> (now: Instant)
;

/// The time that `Instant::duration_since` gives from `earlier` to `later`.
/// std documents it as zero where `earlier` is the later of the two.
pub uninterp spec fn spec_duration_since(later: Instant, earlier: Instant) -> Duration;

/// The number of nanoseconds that `Duration::as_nanos` gives for `duration`.
pub uninterp spec fn spec_as_nanos(duration: Duration) -> u128;

/// `Instant::duration_since`: the result depends on the two moments alone,
/// and is called `spec_duration_since` of them. Nothing else is claimed.
pub assume_specification[ Instant::duration_since ](later: &Instant, earlier: Instant) -> (elapsed:
    Duration)
    ensures
        elapsed == spec_duration_since(*later, earlier),
;

/// `Duration::as_nanos`: the result depends on the duration alone, and is
/// called `spec_as_nanos` of it. Nothing else is claimed.
pub assume_specification[ Duration::as_nanos ](duration: &Duration) -> (nanos: u128)
    ensures
        nanos == spec_as_nanos(*duration),
;

/// The nanoseconds from `earlier` to `later`, as the clock measures them.
pub open spec fn nanos_between(later: Instant, earlier: Instant) -> u128 {
    spec_as_nanos(spec_duration_since(later, earlier))
}

/// A frame rate: `frames` frames in `nanos` nanoseconds. A rate over no time
/// at all stands for "not measured yet" and counts as zero.
#[derive(Clone, Copy, Debug, PartialEq, Eq, Structural)]
pub struct Rate {
    pub frames: u32,
    pub nanos: u128,
}

impl Rate {
    /// Whole frames per second, rounded down.
    pub open spec fn spec_floor(self) -> int {
        if self.nanos == 0 {
            0
        } else {
            self.frames * SECOND / (self.nanos as int)
        }
    }

    /// Whole frames per second, rounded down: what the viewer shows.
    pub fn floor(self) -> (whole: u64)
        ensures
            whole == self.spec_floor(),
    {
        if self.nanos == 0 {
            0
        } else {
            let scaled: u128 = self.frames as u128 * SECOND;
            let whole: u128 = scaled / self.nanos;
            proof {
                lemma_quotient_bounded(scaled as int, self.nanos as int);
            }
            whole as u64
        }
    }
}

/// What an `FPS` stands for.
pub ghost struct ClockModel {
    /// Frames seen since the rate was last measured.
    pub frame_count: u32,
    /// When the rate was last measured.
    pub last_fps_update: Instant,
    /// The rate as last measured.
    pub fps: Rate,
}

/// The clock after one more frame, seen at `now`, `elapsed` nanoseconds after
/// the last measurement. Under a second the frame is counted and nothing
/// else changes. From a second on the rate becomes the frames counted, this
/// one included, over the time elapsed; the count starts again at zero and
/// the time of measurement becomes `now`.
pub open spec fn after_frame(clock: ClockModel, now: Instant, elapsed: u128) -> ClockModel {
    if elapsed >= SECOND {
        ClockModel {
            frame_count: 0,
            last_fps_update: now,
            fps: Rate { frames: (clock.frame_count + 1) as u32, nanos: elapsed },
        }
    } else {
        ClockModel { frame_count: (clock.frame_count + 1) as u32, ..clock }
    }
}

/// The frame-rate clock.
pub struct FPS {
    frame_count: u32,
    last_fps_update: Instant,
    fps: Rate,
}

impl View for FPS {
    type V = ClockModel;

    closed spec fn view(&self) -> ClockModel {
        ClockModel {
            frame_count: self.frame_count,
            last_fps_update: self.last_fps_update,
            fps: self.fps,
        }
    }
}

impl FPS {
    /// A clock that has seen no frame and measured no rate, and that takes
    /// `now` for the time of its last measurement.
    pub fn started_at(now: Instant) -> (clock: FPS)
        ensures
            clock@ == (ClockModel {
                frame_count: 0,
                last_fps_update: now,
                fps: Rate { frames: 0, nanos: 0 },
            }),
    {
        FPS { frame_count: 0, last_fps_update: now, fps: Rate { frames: 0, nanos: 0 } }
    }

    /// A clock that has seen no frame and measured no rate, started now.
    pub fn new() -> (clock: FPS)
        ensures
            clock@.frame_count == 0,
            clock@.fps == (Rate { frames: 0, nanos: 0 }),
    {
        FPS::started_at(Instant::now())
    }

    /// The rate as last measured.
    pub fn fps(&self) -> (rate: Rate)
        ensures
            rate == self@.fps,
    {
        self.fps
    }

    /// Frames seen since the rate was last measured.
    pub fn frame_count(&self) -> (count: u32)
        ensures
            count == self@.frame_count,
    {
        self.frame_count
    }

    /// Counts one frame seen at `now`, `elapsed` nanoseconds after the last
    /// measurement.
    pub fn record(&mut self, now: Instant, elapsed: u128)
        requires
            old(self)@.frame_count < u32::MAX,
        ensures
            final(self)@ == after_frame(old(self)@, now, elapsed),
    {
        self.frame_count += 1;
        if elapsed >= SECOND {
            self.fps = Rate { frames: self.frame_count, nanos: elapsed };
            self.frame_count = 0;
            self.last_fps_update = now;
        }
    }

    /// Counts one frame seen at this moment: the clock ends as `after_frame`
    /// says for the moment that was read and the time that has passed from
    /// the last measurement to that moment.
    pub fn calculate(&mut self)
        requires
            old(self)@.frame_count < u32::MAX,
        ensures
            exists|now: Instant|
                final(self)@ == #[trigger] after_frame(
                    old(self)@,
                    now,
                    nanos_between(now, old(self)@.last_fps_update),
                ),
    {
        let current = Instant::now();
        let elapsed = current.duration_since(self.last_fps_update);
        let nanos: u128 = elapsed.as_nanos();
        self.record(current, nanos);
        assert(self@ == after_frame(
            old(self)@,
            current,
            nanos_between(current, old(self)@.last_fps_update),
        ));
    }
}

/// A quotient of a number that fits 64 bits fits 64 bits.
proof fn lemma_quotient_bounded(scaled: int, nanos: int)
    requires
        0 <= scaled <= u64::MAX,
        0 < nanos,
    ensures
        0 <= scaled / nanos <= u64::MAX,
{
    vstd::arithmetic::div_mod::lemma_div_nonincreasing(scaled, nanos);
    vstd::arithmetic::div_mod::lemma_div_pos_is_pos(scaled, nanos);
}

/// While less than a second has passed since the last measurement, a frame
/// leaves the rate and the time of measurement as they were; it is counted
/// and that is all.
pub proof fn lemma_rate_holds_within_a_second(clock: ClockModel, now: Instant, elapsed: u128)
    requires
        elapsed < SECOND,
        clock.frame_count < u32::MAX,
    ensures
        after_frame(clock, now, elapsed).fps == clock.fps,
        after_frame(clock, now, elapsed).last_fps_update == clock.last_fps_update,
        after_frame(clock, now, elapsed).frame_count == clock.frame_count + 1,
{
}

/// Once a second has passed, a frame sets the rate to the frames counted,
/// this one included, over the time elapsed, and the count starts again at
/// zero.
pub proof fn lemma_rate_measured_after_a_second(clock: ClockModel, now: Instant, elapsed: u128)
    requires
        elapsed >= SECOND,
        clock.frame_count < u32::MAX,
    ensures
        after_frame(clock, now, elapsed).fps.frames == clock.frame_count + 1,
        after_frame(clock, now, elapsed).fps.nanos == elapsed,
        after_frame(clock, now, elapsed).frame_count == 0,
        after_frame(clock, now, elapsed).last_fps_update == now,
        after_frame(clock, now, elapsed).fps.spec_floor() <= clock.frame_count + 1,
{
    let frames = clock.frame_count + 1;
    assert(frames * SECOND / (elapsed as int) <= frames) by (nonlinear_arith)
        requires
            frames >= 0,
            elapsed >= SECOND,
            SECOND > 0,
    ;
}

} // verus!
