use music_timer::music_time::MusicTime;
use music_timer::music_timer_engine::{MusicTimerEngine, MusicTimerState, TimerError};
use music_timer::time_signature::TimeSignature;

struct PerformanceState {
    current_time: MusicTime,
    count_bars: u32,
    count_beats: u32,
    count_beat_intervals: u32,
    music_events: Vec<String>,
}

impl PerformanceState {
    fn new() -> Self {
        PerformanceState {
            current_time: MusicTime::default(),
            count_bars: 0,
            count_beats: 0,
            count_beat_intervals: 0,
            music_events: Vec::new(),
        }
    }
}

impl MusicTimerState for PerformanceState {
    fn on_beat_interval(&mut self, now_time: &MusicTime) {
        self.current_time = *now_time;
        self.count_beat_intervals += 1;
        self.music_events.push(format!(
            "on_beat_interval: {}.{}.{}",
            now_time.get_bar(),
            now_time.get_beat(),
            now_time.get_beat_interval()
        ));
    }
    fn on_beat(&mut self, now_time: &MusicTime) {
        self.count_beats += 1;
        self.music_events.push(format!(
            "on_beat: {}.{}.{}",
            now_time.get_bar(),
            now_time.get_beat(),
            now_time.get_beat_interval()
        ));
    }
    fn on_bar(&mut self, now_time: &MusicTime) {
        self.count_bars += 1;
        self.music_events.push(format!(
            "on_bar: {}.{}.{}",
            now_time.get_bar(),
            now_time.get_beat(),
            now_time.get_beat_interval()
        ));
    }
}

/// Drive an engine with synthetic elapsed time, polling twice per beat
/// interval, until the observer has seen `end_time` complete.
fn performance_runner(
    time_bpm: (u8, u8, u32),
    performer_state: &mut PerformanceState,
    end_time: &MusicTime,
) {
    let mut performer =
        music_timer::create_performance_engine(time_bpm.0, time_bpm.1, time_bpm.2);
    let step = performer.get_beat_interval_duration() / 2;
    let mut elapsed: u64 = 0;
    while performer_state.current_time < *end_time {
        performer
            .pulse_elapsed(elapsed, performer_state)
            .expect("elapsed time only moved forward");
        elapsed += step;
    }
}

#[test]
fn test_performance_example() {
    let end_time = MusicTime::new(4, 3, 8);
    let mut performer_state = PerformanceState::new();
    performance_runner((3, 4, 155), &mut performer_state, &end_time);

    assert_eq!(performer_state.current_time, end_time);
    assert_eq!(performer_state.count_bars, 4);
    assert_eq!(performer_state.count_beats, 3 * 4);
    assert_eq!(performer_state.count_beat_intervals, 8 * 3 * 4);

    // callback order across the first beat and bar boundaries: the interval
    // callback reports the completed position, then the beat callback the
    // new one, then the bar callback
    let head: Vec<&str> = performer_state.music_events.iter().take(10).map(|e| e.as_str()).collect();
    assert_eq!(
        head,
        vec![
            "on_beat_interval: 1.1.1",
            "on_beat_interval: 1.1.2",
            "on_beat_interval: 1.1.3",
            "on_beat_interval: 1.1.4",
            "on_beat_interval: 1.1.5",
            "on_beat_interval: 1.1.6",
            "on_beat_interval: 1.1.7",
            "on_beat_interval: 1.1.8",
            "on_beat: 1.2.1",
            "on_beat_interval: 1.2.1",
        ]
    );
    let bar_position = performer_state
        .music_events
        .iter()
        .position(|e| e == "on_bar: 2.1.1")
        .expect("the second bar was reached");
    assert_eq!(performer_state.music_events[bar_position - 1], "on_beat: 2.1.1");
    assert_eq!(performer_state.music_events[bar_position + 1], "on_beat_interval: 2.1.1");
}

#[test]
fn test_standard() {
    let end_time = MusicTime::new(4, 4, 8);
    let mut performer_state = PerformanceState::new();
    performance_runner((4, 4, 120), &mut performer_state, &end_time);

    assert_eq!(performer_state.current_time, end_time);
    assert_eq!(performer_state.count_bars, 4);
    assert_eq!(performer_state.count_beats, 4 * 4);
    assert_eq!(performer_state.count_beat_intervals, 8 * 4 * 4);
}

#[test]
fn test_odd() {
    let end_time = MusicTime::new(4, 7, 8);
    let mut performer_state = PerformanceState::new();
    performance_runner((7, 8, 120), &mut performer_state, &end_time);

    assert_eq!(performer_state.current_time, end_time);
    assert_eq!(performer_state.count_bars, 4);
    assert_eq!(performer_state.count_beats, 7 * 4);
    assert_eq!(performer_state.count_beat_intervals, 8 * 7 * 4);
}

#[test]
fn test_engine_accessors_and_set_time() {
    let mut engine = MusicTimerEngine::new(TimeSignature::new(3, 4), 60);
    assert_eq!(engine.get_beat_interval_duration(), 125_000_000);
    assert_eq!(engine.get_current_time(), &MusicTime::new(1, 1, 1));
    engine.set_music_timer(MusicTime::new(2, 3, 4));
    assert_eq!(engine.get_current_time(), &MusicTime::new(2, 3, 4));
}

#[test]
fn test_first_pulse_triggers_immediately() {
    let mut engine = MusicTimerEngine::new(TimeSignature::new(4, 4), 120);
    let mut state = PerformanceState::new();
    engine.pulse_elapsed(0, &mut state).expect("no reversal");
    assert_eq!(state.count_beat_intervals, 1);
    assert_eq!(state.current_time, MusicTime::new(1, 1, 1));
    assert_eq!(engine.get_current_time(), &MusicTime::new(1, 1, 2));
}

#[test]
fn test_one_advance_per_pulse_despite_stall() {
    // a stalled caller: a single pulse spanning many intervals advances by
    // exactly one beat interval; the rest waits in the accumulator
    let mut engine = MusicTimerEngine::new(TimeSignature::new(4, 4), 60);
    let mut state = PerformanceState::new();
    engine.pulse_elapsed(0, &mut state).expect("no reversal");
    engine
        .pulse_elapsed(1_000_000_000, &mut state)
        .expect("no reversal");
    assert_eq!(state.count_beat_intervals, 2);
    assert_eq!(engine.get_current_time(), &MusicTime::new(1, 1, 3));
    // the overshoot is consumed by later pulses without new elapsed time
    for _ in 0..6 {
        engine
            .pulse_elapsed(1_000_000_000, &mut state)
            .expect("no reversal");
    }
    assert_eq!(state.count_beat_intervals, 8);
    assert_eq!(engine.get_current_time(), &MusicTime::new(1, 2, 1));
}

#[test]
fn test_clock_reversal_is_fatal_and_harmless() {
    let mut engine = MusicTimerEngine::new(TimeSignature::new(4, 4), 120);
    let mut state = PerformanceState::new();
    assert_eq!(engine.pulse_elapsed(10_000_000, &mut state), Ok(()));
    let triggered_so_far = state.count_beat_intervals;
    assert_eq!(
        engine.pulse_elapsed(5_000_000, &mut state),
        Err(TimerError::ClockReversal)
    );
    assert_eq!(state.count_beat_intervals, triggered_so_far);
    assert_eq!(engine.get_current_time(), &MusicTime::new(1, 1, 2));
    // the engine was left untouched, so consistent pulses keep working
    assert_eq!(engine.pulse_elapsed(10_000_000, &mut state), Ok(()));
}

#[test]
fn test_drift_60bpm() {
    drift_run(4, 60, 64);
}

#[test]
fn test_drift_140bpm() {
    drift_run(3, 140, 48);
}

/// Drive two full bars with deliberately irregular polling and check that
/// the total elapsed time stays within one beat-interval target of the
/// musical time that was advanced: drift does not accumulate.
fn drift_run(numerator: u8, bpm: u32, expected_triggers: u32) {
    let mut performer = music_timer::create_performance_engine(numerator, 4, bpm);
    let target = performer.get_beat_interval_duration();
    // irregular delays, all below the target so that polling keeps up
    let jitter: [u64; 7] = [
        target / 3,
        target / 7 + 1_000_003,
        target / 2 + 311_111,
        target / 9,
        target - 1,
        1_771,
        target / 4 + 77_777,
    ];
    let end_time = MusicTime::new(3, 1, 1);
    let mut state = PerformanceState::new();
    let mut elapsed: u64 = 0;
    let mut pulse_index: usize = 0;
    while *performer.get_current_time() < end_time {
        performer
            .pulse_elapsed(elapsed, &mut state)
            .expect("elapsed time only moved forward");
        elapsed += jitter[pulse_index % jitter.len()];
        pulse_index += 1;
    }
    let n = state.count_beat_intervals;
    assert_eq!(n, expected_triggers);
    // the pulse that fired the n-th trigger saw a total elapsed time within
    // one target of n targets, however jittery the polling was
    let total_at_last_trigger = performer.total_time;
    assert!(u128::from(total_at_last_trigger) + u128::from(target) >= u128::from(n) * u128::from(target),
        "musical time ran more than one interval ahead of the clock");
    assert!(u128::from(total_at_last_trigger) < u128::from(n) * u128::from(target),
        "musical time fell behind the clock");
}

#[test]
fn test_pulse_reads_the_real_clock() {
    // at 48000 beats per minute a beat interval lasts 156250 ns, so a busy
    // polling loop crosses several boundaries almost immediately
    let mut engine = MusicTimerEngine::new(TimeSignature::new(4, 4), 48_000);
    assert_eq!(engine.get_beat_interval_duration(), 156_250);
    let mut state = PerformanceState::new();
    let mut guard: u64 = 0;
    while state.count_beat_intervals < 8 && guard < 50_000_000 {
        engine.pulse(&mut state).expect("system clock did not reverse");
        guard += 1;
    }
    assert_eq!(state.count_beat_intervals, 8);
    assert_eq!(engine.get_current_time(), &MusicTime::new(1, 2, 1));
}
