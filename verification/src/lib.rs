//! Music time and counting utilities with a callback performance engine,
//! for triggering events in musical time from an externally driven loop.

pub mod music_time;
pub mod music_time_counter;
pub mod music_timer_engine;
pub mod time_signature;

use vstd::prelude::*;

verus! {

use crate::music_timer_engine::MusicTimerEngine;
use crate::time_signature::TimeSignature;

/// Creates a new music timer performance engine for a `numerator` /
/// `denominator` time signature at `bpm` beats per minute.
pub fn create_performance_engine(numerator: u8, denominator: u8, bpm: u32) -> (engine:
    MusicTimerEngine)
    requires
        bpm > 0,
    ensures
        engine.wf(),
        engine.is_fresh(TimeSignature { numerator, denominator }, bpm),
{
    MusicTimerEngine::new(TimeSignature::new(numerator, denominator), bpm)
}

} // verus!
