//! The engine's clock. Instants are nanoseconds on a clock that the
//! caller reads.

use vstd::prelude::*;
use crate::math::scalar::Scalar;

verus! {

/// Frame times.
#[derive(Clone, Copy, Debug, PartialEq, Eq, Structural)]
pub struct Time {
    pub start_time: u64,
    pub last_frame: u64,
    pub current_frame: u64,
    pub delta_time: u64,
    pub time_scale: Scalar,
}

/// The time from `earlier` to `later`; nothing where `later` is not later.
pub open spec fn span(earlier: u64, later: u64) -> u64 {
    if later >= earlier {
        (later - earlier) as u64
    } else {
        0
    }
}

fn span_of(earlier: u64, later: u64) -> (d: u64)
    ensures
        d == span(earlier, later),
{
    if later >= earlier {
        later - earlier
    } else {
        0
    }
}

impl Time {
    /// A clock that starts at `now`, at normal speed.
    pub open spec fn started(now: u64) -> Time {
        Time {
            start_time: now,
            last_frame: now,
            current_frame: now,
            delta_time: 0,
            time_scale: Scalar { bits: 0x3f80_0000 },
        }
    }

    pub fn new(now: u64) -> (t: Time)
        ensures
            t == Time::started(now),
    {
        Time {
            start_time: now,
            last_frame: now,
            current_frame: now,
            delta_time: 0,
            time_scale: Scalar::one(),
        }
    }

    /// A new frame begins at `now`.
    pub fn update(&mut self, now: u64)
        ensures
            *final(self) == (Time {
                last_frame: old(self).current_frame,
                current_frame: now,
                delta_time: span(old(self).current_frame, now),
                ..*old(self)
            }),
    {
        self.last_frame = self.current_frame;
        self.current_frame = now;
        self.delta_time = span_of(self.last_frame, self.current_frame);
    }

    /// The nanoseconds between the last two frames, before scaling.
    pub fn delta_nanos(&self) -> (d: u64)
        ensures
            d == self.delta_time,
    {
        self.delta_time
    }

    /// The nanoseconds from the start to the current frame.
    pub fn elapsed_nanos(&self) -> (d: u64)
        ensures
            d == span(self.start_time, self.current_frame),
    {
        span_of(self.start_time, self.current_frame)
    }

    /// Whether a frame rate can be told: the last frame took time.
    pub fn has_frame_rate(&self) -> (r: bool)
        ensures
            r == (self.delta_time > 0),
    {
        self.delta_time > 0
    }

    /// Sets the speed of time; a negative speed, or one that is no number,
    /// counts as 0.
    pub fn set_time_scale(&mut self, scale: Scalar)
        ensures
            *final(self) == (Time {
                time_scale: if scale.nan() || scale.less(Scalar { bits: 0 }) {
                    Scalar { bits: 0 }
                } else {
                    scale
                },
                ..*old(self)
            }),
    {
        if scale.is_nan() || scale.lt(Scalar::zero()) {
            self.time_scale = Scalar::zero();
        } else {
            self.time_scale = scale;
        }
    }

    pub fn time_scale(&self) -> (s: Scalar)
        ensures
            s == self.time_scale,
    {
        self.time_scale
    }

    /// Starts the clock again at `now`. The speed stays.
    pub fn start(&mut self, now: u64)
        ensures
            *final(self) == (Time { time_scale: old(self).time_scale, ..Time::started(now) }),
    {
        self.start_time = now;
        self.last_frame = now;
        self.current_frame = now;
        self.delta_time = 0;
    }
}

} // verus!
