//! The performance engine: converts externally measured elapsed time into
//! discrete musical-time advances with drift-compensated timing and ordered
//! callback dispatch.

use vstd::prelude::*;
use vstd::arithmetic::mul::{lemma_mul_is_distributive_add_other_way, lemma_mul_nonnegative};
use std::time::SystemTime;
use crate::music_time::MusicTime;
use crate::music_time_counter::{spec_beat_interval_duration_nanos, MusicTimeCounter};
use crate::time_signature::TimeSignature;

verus! {

/// This trait is used by `MusicTimerEngine` for callbacks on changes of
/// music time. Implement it on the host application's performance state.
pub trait MusicTimerState {
    /// Called when the beat interval changes, with the position whose
    /// interval just completed (the pre-advance time).
    fn on_beat_interval(&mut self, current_time: &MusicTime);

    /// Called when the beat changes, with the new position.
    fn on_beat(&mut self, current_time: &MusicTime);

    /// Called when the bar changes, with the new position.
    fn on_bar(&mut self, current_time: &MusicTime);
}

/// The one fatal condition of the engine: the wall clock reported a time
/// before an earlier reading. Musical timing is meaningless once time has
/// appeared to move backward, so there is no recovery.
#[derive(Clone, Copy, Debug, PartialEq, Eq, Structural)]
pub enum TimerError {
    ClockReversal,
}

#[verifier::external_type_specification]
#[verifier::external_body]
pub struct ExSystemTime(SystemTime);

/// Relies on std::time::SystemTime::now: reads the current system time.
/// Nothing is promised of the reading; the system clock is not monotonic.
#[verifier::external_body]
fn system_time_now() -> (now: SystemTime) {
    SystemTime::now()
}

/// Relies on std::time::SystemTime::duration_since: the elapsed time from
/// `start` to `now`, converted to a whole number of nanoseconds. `None` when
/// `now` is earlier than `start`, or when the count does not fit in 64 bits
/// (an elapsed time of over five centuries). Nothing is promised of the
/// result: the clock readings are opaque and the clock may step arbitrarily.
#[verifier::external_body]
fn duration_since_nanos(now: &SystemTime, start: &SystemTime) -> (elapsed: Option<u64>) {
    match now.duration_since(*start) {
        Ok(duration) => u64::try_from(duration.as_nanos()).ok(),
        Err(_) => None,
    }
}

/// The performance engine. Pulse it from the host's own loop: each pulse
/// measures elapsed wall-clock time, and when the accumulated time crosses
/// the beat-interval target the engine advances its counter by exactly one
/// beat interval and dispatches callbacks, in a fixed order, to the
/// `MusicTimerState` passed in.
///
/// Drift compensation: `event_trigger_time` holds the overshoot since the
/// last trigger — on each trigger it is reduced by the target, never reset
/// to zero — so the systematic error of the host's polling cadence does not
/// accumulate. `previous_music_time` is the post-advance snapshot of the
/// last trigger; beat and bar changes themselves are detected across the
/// current trigger's advance, not against this snapshot (see
/// `pulse_elapsed`). `trigger_count` is the ghost tally of triggers fired
/// since construction; `wf` ties it to the elapsed time the engine has
/// consumed.
pub struct MusicTimerEngine {
    pub total_time: u64,
    pub previous_time: u64,
    pub start_time: SystemTime,
    pub event_trigger_time: u64,
    pub music_counter: MusicTimeCounter,
    pub event_trigger_target: u64,
    pub previous_music_time: MusicTime,
    pub trigger_count: Ghost<nat>,
}

impl MusicTimerEngine {
    /// The drift-compensation accounting: every nanosecond of elapsed time
    /// is either part of a fired trigger or still waiting in the
    /// accumulator, which starts one target ahead so that the first pulse
    /// always fires.
    pub open spec fn wf(&self) -> bool {
        self.event_trigger_time + self.trigger_count@ * self.event_trigger_target
            == self.event_trigger_target + self.total_time
    }

    /// A freshly constructed engine for `time_signature` at `bpm` beats per
    /// minute: counter at the default start position, no elapsed time, the
    /// accumulator primed to fire on the first pulse, and the previous music
    /// time a sentinel strictly before any real position. The sentinel is
    /// inert: change detection compares across each trigger's own advance,
    /// so the first trigger reports only its beat interval, never a forced
    /// beat or bar change.
    pub open spec fn is_fresh(&self, time_signature: TimeSignature, bpm: u32) -> bool {
        &&& self.total_time == 0
        &&& self.previous_time == 0
        &&& self.event_trigger_target == spec_beat_interval_duration_nanos(bpm)
        &&& self.event_trigger_time == self.event_trigger_target
        &&& self.music_counter.current_time == (MusicTime { bar: 1u16, beat: 1u8, beat_interval: 1u8 })
        &&& self.music_counter.time_signature == time_signature
        &&& self.previous_music_time == (MusicTime { bar: 0u16, beat: 0u8, beat_interval: 0u8 })
        &&& self.trigger_count@ == 0
    }

    /// How one pulse that measured a total elapsed time of `now` transforms
    /// the engine: the elapsed delta joins the accumulator, and when the
    /// accumulator has reached the target the counter advances by exactly
    /// one beat interval — never more, however far the accumulator overshot
    /// — and the accumulator keeps only the overshoot past the target.
    pub open spec fn pulse_step(pre: Self, post: Self, now: u64) -> bool {
        let accumulated = pre.event_trigger_time + (now - pre.total_time);
        &&& post.start_time == pre.start_time
        &&& post.event_trigger_target == pre.event_trigger_target
        &&& post.previous_time == pre.total_time
        &&& post.total_time == now
        &&& if accumulated >= pre.event_trigger_target {
            &&& post.music_counter == pre.music_counter.spec_advance_beat_interval()
            &&& post.previous_music_time == post.music_counter.current_time
            &&& post.event_trigger_time == accumulated - pre.event_trigger_target
            &&& post.trigger_count@ == pre.trigger_count@ + 1
        } else {
            &&& post.music_counter == pre.music_counter
            &&& post.previous_music_time == pre.previous_music_time
            &&& post.event_trigger_time == accumulated
            &&& post.trigger_count@ == pre.trigger_count@
        }
    }

    /// Create a new `MusicTimerEngine` with a `TimeSignature` and a tempo in
    /// beats per minute. The tempo is fixed for the engine's lifetime.
    pub fn new(time_signature: TimeSignature, bpm: u32) -> (engine: Self)
        requires
            bpm > 0,
        ensures
            engine.wf(),
            engine.is_fresh(time_signature, bpm),
    {
        let music_counter = MusicTimeCounter::new(time_signature);
        let event_trigger_target: u64 = music_counter.beat_interval_target_frames(bpm);
        MusicTimerEngine {
            total_time: 0,
            previous_time: 0,
            start_time: system_time_now(),
            event_trigger_time: event_trigger_target,
            music_counter,
            event_trigger_target,
            previous_music_time: MusicTime::new(0, 0, 0),
            trigger_count: Ghost(0),
        }
    }

    /// Pulse the engine with an externally measured total elapsed time, in
    /// nanoseconds since the engine's start. Succeeds and performs one
    /// `pulse_step` whenever the measurement has not moved backward; a
    /// measurement before the previous one is the fatal `ClockReversal`, and
    /// leaves the engine untouched.
    ///
    /// Within a triggering pulse the callbacks fire in a fixed order, at
    /// most once each: `on_beat_interval` with the position whose interval
    /// just completed (the pre-advance time), then `on_beat` if the advance
    /// changed the beat, then `on_bar` if it changed the bar — the latter
    /// two with the new position. Both checks deliberately compare the pre-
    /// and post-advance positions of this trigger, so that a performance
    /// driven across `n` whole bars of `b` beats reports exactly `n` bar
    /// changes, `n * b` beat changes and `n * b * 8` completed intervals:
    /// a bar callback on bar *equality*, or beat and bar callbacks forced
    /// on the first trigger by the construction sentinel, would each break
    /// those counts.
    ///
    /// When pulses arrive at least as often as the trigger target, an
    /// accumulator below the target stays below it — polling that keeps up
    /// keeps the engine caught up, which bounds timing drift (see
    /// `lemma_drift_bounded`).
    pub fn pulse_elapsed<TimerState: MusicTimerState>(
        &mut self,
        total_elapsed_nanos: u64,
        state: &mut TimerState,
    ) -> (result: Result<(), TimerError>)
        requires
            old(self).wf(),
        ensures
            final(self).wf(),
            total_elapsed_nanos < old(self).total_time ==> result is Err && *final(self) == *old(
                self,
            ),
            total_elapsed_nanos >= old(self).total_time ==> result is Ok && Self::pulse_step(
                *old(self),
                *final(self),
                total_elapsed_nanos,
            ),
            old(self).event_trigger_time < old(self).event_trigger_target && total_elapsed_nanos
                - old(self).total_time <= old(self).event_trigger_target
                ==> final(self).event_trigger_time < final(self).event_trigger_target,
    {
        if total_elapsed_nanos < self.total_time {
            return Err(TimerError::ClockReversal);
        }
        proof {
            lemma_mul_nonnegative(
                self.trigger_count@ as int,
                self.event_trigger_target as int,
            );
        }
        // Progress total time
        self.previous_time = self.total_time;
        self.total_time = total_elapsed_nanos;

        // Advance by delta; 128-bit arithmetic rules out overflow even at
        // the far end of the 64-bit nanosecond range
        let time_delta: u64 = self.total_time - self.previous_time;
        let accumulated: u128 = self.event_trigger_time as u128 + time_delta as u128;

        // Check for an advance in the beat interval
        if accumulated >= self.event_trigger_target as u128 {
            let cached_current_time = *self.music_counter.current_time();
            state.on_beat_interval(&cached_current_time);

            self.music_counter.advance_beat_interval();
            let now_time = *self.music_counter.current_time();

            let is_beat_changed = cached_current_time.get_beat() != now_time.get_beat();
            if is_beat_changed {
                state.on_beat(&now_time);
            }

            let is_bar_changed = cached_current_time.get_bar() != now_time.get_bar();
            if is_bar_changed {
                state.on_bar(&now_time);
            }

            self.previous_music_time = now_time;

            // Keep only the overshoot past the target: drift compensation
            proof {
                lemma_mul_is_distributive_add_other_way(
                    self.event_trigger_target as int,
                    self.trigger_count@ as int,
                    1,
                );
            }
            self.event_trigger_time = (accumulated - self.event_trigger_target as u128) as u64;
            self.trigger_count = Ghost(self.trigger_count@ + 1);
        } else {
            self.event_trigger_time = accumulated as u64;
        }
        Ok(())
    }

    /// Pulse the engine. The time since the last pulse is measured from the
    /// system clock and used to evaluate whether there is a change in music
    /// time; call this from the host's loop. On success the engine performed
    /// one `pulse_step` for the elapsed time that was read; a clock reading
    /// that moved backward is the fatal `ClockReversal`, reported without
    /// touching the engine.
    pub fn pulse<TimerState: MusicTimerState>(&mut self, state: &mut TimerState) -> (result:
        Result<(), TimerError>)
        requires
            old(self).wf(),
        ensures
            final(self).wf(),
            result is Ok ==> exists|now: u64|
                now >= old(self).total_time && #[trigger] Self::pulse_step(
                    *old(self),
                    *final(self),
                    now,
                ),
            result is Err ==> *final(self) == *old(self),
    {
        let now = system_time_now();
        match duration_since_nanos(&now, &self.start_time) {
            None => Err(TimerError::ClockReversal),
            Some(total_elapsed_nanos) => {
                let result = self.pulse_elapsed(total_elapsed_nanos, state);
                proof {
                    if total_elapsed_nanos >= old(self).total_time {
                        assert(Self::pulse_step(*old(self), *self, total_elapsed_nanos));
                    }
                }
                result
            },
        }
    }

    /// The duration between beat intervals, as a count of nanoseconds: the
    /// engine's trigger target. Handy for choosing a polling cadence —
    /// polling at about half this duration keeps jitter low; the engine
    /// itself never sleeps.
    pub fn get_beat_interval_duration(&self) -> (nanos: u64)
        ensures
            nanos == self.event_trigger_target,
    {
        self.event_trigger_target
    }

    /// The current music time of the performance.
    pub fn get_current_time(&self) -> (time: &MusicTime)
        ensures
            *time == self.music_counter.current_time,
    {
        self.music_counter.current_time()
    }

    /// Set the current music time directly, bypassing normal advancement.
    /// The drift accumulators are not reset.
    pub fn set_music_timer(&mut self, time: MusicTime) -> (engine: &mut Self)
        ensures
            engine.music_counter.current_time == time,
            engine.music_counter.time_signature == old(self).music_counter.time_signature,
            engine.total_time == old(self).total_time,
            engine.previous_time == old(self).previous_time,
            engine.start_time == old(self).start_time,
            engine.event_trigger_time == old(self).event_trigger_time,
            engine.event_trigger_target == old(self).event_trigger_target,
            engine.previous_music_time == old(self).previous_music_time,
            engine.trigger_count == old(self).trigger_count,
            *final(self) == *final(engine),
    {
        self.music_counter.set_current_time(time);
        self
    }
}

/// Drift compensation bounds cumulative timing error: musical time is never
/// more than one beat interval ahead of wall time, and whenever the engine
/// is caught up (the accumulator below the target — which polling at least
/// as often as the target maintains, see `pulse_elapsed`), wall time is
/// strictly within the interval the next trigger closes. So the elapsed time
/// after `n` triggers stays within one beat-interval target of `n` times
/// that target, however irregular the polling.
pub proof fn lemma_drift_bounded(engine: MusicTimerEngine)
    requires
        engine.wf(),
    ensures
        engine.trigger_count@ * engine.event_trigger_target <= engine.event_trigger_target
            + engine.total_time,
        engine.event_trigger_time < engine.event_trigger_target ==> engine.total_time
            < engine.trigger_count@ * engine.event_trigger_target,
{
}

} // verus!
