//! A music time owned together with the time signature that constrains its
//! advancement, plus the wall-clock durations of one beat and one beat
//! interval at a given tempo.

use vstd::prelude::*;
use crate::music_time::{MusicTime, INTERVAL_RESOLUTION};
use crate::time_signature::TimeSignature;

verus! {

/// Nanoseconds in one minute; a beat at `bpm` beats per minute lasts this
/// divided by `bpm`.
pub const NANOS_PER_MINUTE: u64 = 60_000_000_000;

/// The duration of one beat at `bpm` beats per minute, in nanoseconds,
/// truncated: `60 / bpm` seconds.
pub open spec fn spec_beat_duration_nanos(bpm: u32) -> int {
    NANOS_PER_MINUTE as int / bpm as int
}

/// The duration of one beat interval at `bpm` beats per minute, in
/// nanoseconds: `(60 / bpm) / 8` seconds, computed in one division so that
/// truncation happens only once.
pub open spec fn spec_beat_interval_duration_nanos(bpm: u32) -> int {
    NANOS_PER_MINUTE as int / ((INTERVAL_RESOLUTION as int / 2) * bpm as int)
}

/// A current `MusicTime` together with the `TimeSignature` it advances
/// under.
#[derive(Clone, Copy, Debug)]
pub struct MusicTimeCounter {
    pub current_time: MusicTime,
    pub time_signature: TimeSignature,
}

impl MusicTimeCounter {
    /// The counter after one beat of advancement.
    pub open spec fn spec_advance_beat(self) -> MusicTimeCounter {
        MusicTimeCounter {
            current_time: self.current_time.spec_advance_beat(self.time_signature),
            time_signature: self.time_signature,
        }
    }

    /// The counter after one beat interval of advancement.
    pub open spec fn spec_advance_beat_interval(self) -> MusicTimeCounter {
        MusicTimeCounter {
            current_time: self.current_time.spec_advance_beat_interval(self.time_signature),
            time_signature: self.time_signature,
        }
    }

    /// Create a new `MusicTimeCounter` constrained by `time_signature`,
    /// starting at the default time of bar 1, beat 1, beat interval 1.
    pub fn new(time_signature: TimeSignature) -> (counter: Self)
        ensures
            counter.current_time == (MusicTime { bar: 1u16, beat: 1u8, beat_interval: 1u8 }),
            counter.time_signature == time_signature,
    {
        MusicTimeCounter { current_time: MusicTime::new(1, 1, 1), time_signature }
    }

    /// Get the current time of the counter.
    pub fn current_time(&self) -> (time: &MusicTime)
        ensures
            *time == self.current_time,
    {
        &self.current_time
    }

    /// Advance this counter by one beat.
    pub fn advance_beat(&mut self)
        ensures
            *final(self) == old(self).spec_advance_beat(),
    {
        self.current_time.advance_beat(&self.time_signature);
    }

    /// Advance this counter by one beat interval.
    pub fn advance_beat_interval(&mut self)
        ensures
            *final(self) == old(self).spec_advance_beat_interval(),
    {
        self.current_time.advance_beat_interval(&self.time_signature);
    }

    /// The duration between beats at `bpm` beats per minute, as a count of
    /// nanoseconds: `60 / bpm` seconds, truncated to nanosecond resolution.
    pub fn beat_target_frames(&self, bpm: u32) -> (nanos: u64)
        requires
            bpm > 0,
        ensures
            nanos == spec_beat_duration_nanos(bpm),
    {
        NANOS_PER_MINUTE / (bpm as u64)
    }

    /// The duration between beat intervals at `bpm` beats per minute, as a
    /// count of nanoseconds: `(60 / bpm) / 8` seconds. The division is done
    /// in one step rather than from the already-truncated beat duration, so
    /// truncation error is not compounded.
    pub fn beat_interval_target_frames(&self, bpm: u32) -> (nanos: u64)
        requires
            bpm > 0,
        ensures
            nanos == spec_beat_interval_duration_nanos(bpm),
    {
        NANOS_PER_MINUTE / ((INTERVAL_RESOLUTION as u64 / 2) * bpm as u64)
    }

    /// Set the current music time of the counter. The new time is taken as
    /// given: nothing checks it against the signature.
    pub fn set_current_time(&mut self, current_time: MusicTime) -> (counter: &mut Self)
        ensures
            *counter == (MusicTimeCounter {
                current_time,
                time_signature: old(self).time_signature,
            }),
            *final(self) == *final(counter),
    {
        self.current_time = current_time;
        self
    }
}

impl Default for MusicTimeCounter {
    /// The default counter is constrained by the default `TimeSignature`.
    fn default() -> (counter: Self)
        ensures
            counter.current_time == (MusicTime { bar: 1u16, beat: 1u8, beat_interval: 1u8 }),
            counter.time_signature == (TimeSignature { numerator: 4u8, denominator: 4u8 }),
    {
        MusicTimeCounter::new(TimeSignature::default())
    }
}

} // verus!
