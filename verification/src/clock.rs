//! The frame clock: measures wall time elapsed since the previous tick in
//! whole milliseconds. A reading that the time source refuses (clock skew)
//! keeps the previous delta; a reading beyond `DELTA_TIME_CAP_MS` is clamped
//! so that one frame's motion arithmetic always fits in 64 bits.

use vstd::prelude::*;

use crate::DELTA_TIME_CAP_MS;
use crate::START_DELTA_MS;

verus! {

#[verifier::external_type_specification]
#[verifier::external_body]
pub struct ExSystemTime(std::time::SystemTime);

/// Relies on std::time::SystemTime::now: the current system time, about
/// which nothing is assumed.
#[verifier::external_body]
fn system_time_now() -> (t: std::time::SystemTime) {
    std::time::SystemTime::now()
}

/// Relies on std::time::SystemTime::elapsed: the time elapsed since `t`
/// when the system clock has not gone backwards, and `None` otherwise.
/// Nothing is assumed about which case occurs or about the duration.
#[verifier::external_body]
fn elapsed_since(t: &std::time::SystemTime) -> (r: Option<std::time::Duration>) {
    t.elapsed().ok()
}

/// Relies on std::time::Duration::as_millis: the whole number of
/// milliseconds in the duration, about which nothing is assumed.
#[verifier::external_body]
fn duration_as_millis(d: &std::time::Duration) -> (r: u128) {
    d.as_millis()
}

/// A millisecond reading clamped to the frame-time cap.
pub open spec fn spec_clamped_delta(ms: u128) -> int {
    if ms > DELTA_TIME_CAP_MS {
        DELTA_TIME_CAP_MS as int
    } else {
        ms as int
    }
}

/// Clamps a raw millisecond reading to the frame-time cap.
pub fn clamp_delta(ms: u128) -> (r: i64)
    ensures
        r == spec_clamped_delta(ms),
        0 <= r <= DELTA_TIME_CAP_MS,
{
    if ms > DELTA_TIME_CAP_MS as u128 {
        DELTA_TIME_CAP_MS
    } else {
        ms as i64
    }
}

/// The frame clock: the instant of the previous successful tick and the
/// delta time it measured, in milliseconds.
pub struct Clock {
    pub prev_frame_time: std::time::SystemTime,
    pub delta_ms: i64,
}

impl Clock {
    /// A well-formed clock carries a nonnegative delta no larger than the
    /// frame-time cap.
    pub open spec fn wf(self) -> bool {
        0 <= self.delta_ms <= DELTA_TIME_CAP_MS
    }

    /// A fresh clock, referenced to now, with the fixed first-frame delta.
    pub fn new() -> (c: Clock)
        ensures
            c.wf(),
            c.delta_ms == START_DELTA_MS,
    {
        Clock { prev_frame_time: system_time_now(), delta_ms: START_DELTA_MS }
    }

    /// Measures the time elapsed since the previous tick and stores it as
    /// the new delta, clamped to the cap, resetting the reference instant to
    /// now. When the time source reports a clock skew the previous delta is
    /// kept, the reference instant is left alone, and the second component
    /// of the result is false, so the caller can log the anomaly. The first
    /// component is the delta now in effect. Which reading the time source
    /// hands back is outside this crate's control, so the contract binds
    /// only the delta's range, that the result is the stored delta, and that
    /// a refused reading changes nothing.
    pub fn tick(&mut self) -> (r: (i64, bool))
        requires
            old(self).wf(),
        ensures
            final(self).wf(),
            r.0 == final(self).delta_ms,
            !r.1 ==> *final(self) == *old(self),
    {
        match elapsed_since(&self.prev_frame_time) {
            Some(elapsed) => {
                let ms = duration_as_millis(&elapsed);
                self.delta_ms = clamp_delta(ms);
                self.prev_frame_time = system_time_now();
                (self.delta_ms, true)
            },
            None => (self.delta_ms, false),
        }
    }
}

} // verus!
