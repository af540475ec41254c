//! Musical position as a bar / beat / beat-interval triple, with the carry
//! arithmetic that advances it within a time signature.

use vstd::prelude::*;
use vstd::std_specs::cmp::PartialOrdSpec;
use core::cmp::Ordering;
use crate::time_signature::TimeSignature;

verus! {

/// How many intervals a beat is cut into. Advancement rolls a beat over once
/// the interval reaches half of this resolution, so intervals cycle 1..=8.
pub const INTERVAL_RESOLUTION: u8 = 16;

/// Musical position: bar, beat within the bar, and beat interval (the
/// subdivision of a beat) within the beat.
///
/// The total order weighs the triple as `bar * 100 + beat * 10 +
/// beat_interval`. It agrees with lexicographic order only while `beat` and
/// `beat_interval` each stay at most 9 (one decimal digit); see
/// `lemma_order_matches_lexicographic`. Keeping them in range is the
/// caller's responsibility.
#[derive(Clone, Copy, Debug, PartialEq, Eq, Structural)]
pub struct MusicTime {
    pub bar: u16,
    pub beat: u8,
    pub beat_interval: u8,
}

impl MusicTime {
    /// The decimal-weighted sum that defines the order of two positions.
    pub open spec fn time_sum(self) -> int {
        self.bar * 100 + self.beat * 10 + self.beat_interval
    }

    /// The position one beat later: the beat increments, except that once it
    /// has reached the signature's numerator it resets to 1 and the bar
    /// increments. The bar saturates at `u16::MAX` instead of wrapping.
    pub open spec fn spec_advance_beat(self, time_signature: TimeSignature) -> MusicTime {
        if self.beat >= time_signature.numerator {
            MusicTime {
                bar: if self.bar < 0xffff { (self.bar + 1) as u16 } else { self.bar },
                beat: 1,
                beat_interval: self.beat_interval,
            }
        } else {
            MusicTime { bar: self.bar, beat: (self.beat + 1) as u8, beat_interval: self.beat_interval }
        }
    }

    /// The position one beat interval later: the interval increments, except
    /// that once it has reached 8 (half of `INTERVAL_RESOLUTION`) it resets
    /// to 1 and the beat advances as in `spec_advance_beat`.
    pub open spec fn spec_advance_beat_interval(self, time_signature: TimeSignature) -> MusicTime {
        if self.beat_interval >= INTERVAL_RESOLUTION / 2 {
            (MusicTime { bar: self.bar, beat: self.beat, beat_interval: 1 }).spec_advance_beat(
                time_signature,
            )
        } else {
            MusicTime {
                bar: self.bar,
                beat: self.beat,
                beat_interval: (self.beat_interval + 1) as u8,
            }
        }
    }

    /// Create a new `MusicTime` from a bar, a beat and a beat interval.
    pub fn new(bar: u16, beat: u8, beat_interval: u8) -> (time: MusicTime)
        ensures
            time == (MusicTime { bar, beat, beat_interval }),
    {
        MusicTime { bar, beat, beat_interval }
    }

    /// Get the bar number.
    pub fn get_bar(&self) -> (bar: u16)
        ensures
            bar == self.bar,
    {
        self.bar
    }

    /// Get the beat number.
    pub fn get_beat(&self) -> (beat: u8)
        ensures
            beat == self.beat,
    {
        self.beat
    }

    /// Get the interval within the beat.
    pub fn get_beat_interval(&self) -> (beat_interval: u8)
        ensures
            beat_interval == self.beat_interval,
    {
        self.beat_interval
    }

    /// Advance the position by one beat. The bar number increases when the
    /// beat has reached the `TimeSignature` numerator; the bar saturates at
    /// `u16::MAX` instead of wrapping around.
    pub fn advance_beat(&mut self, time_signature: &TimeSignature)
        ensures
            *final(self) == old(self).spec_advance_beat(*time_signature),
    {
        if self.beat >= time_signature.get_numerator() {
            self.beat = 1;
            if self.bar < u16::MAX {
                self.bar = self.bar + 1;
            }
        } else {
            self.beat = self.beat + 1;
        }
    }

    /// Advance the position by one beat interval. The beat advances when the
    /// interval has reached the interval resolution of 8, and the bar in turn
    /// when the beat has reached the `TimeSignature` numerator.
    pub fn advance_beat_interval(&mut self, time_signature: &TimeSignature)
        ensures
            *final(self) == old(self).spec_advance_beat_interval(*time_signature),
    {
        if self.beat_interval >= INTERVAL_RESOLUTION / 2 {
            self.beat_interval = 1;
            self.advance_beat(time_signature);
        } else {
            self.beat_interval = self.beat_interval + 1;
        }
    }
}

/// Lexicographic order on the (bar, beat, beat_interval) triple.
pub open spec fn lex_lt(a: MusicTime, b: MusicTime) -> bool {
    ||| a.bar < b.bar
    ||| (a.bar == b.bar && a.beat < b.beat)
    ||| (a.bar == b.bar && a.beat == b.beat && a.beat_interval < b.beat_interval)
}

/// Iterate `spec_advance_beat_interval` `n` times.
pub open spec fn spec_advance_beat_intervals(
    time: MusicTime,
    time_signature: TimeSignature,
    n: nat,
) -> MusicTime
    decreases n,
{
    if n == 0 {
        time
    } else {
        spec_advance_beat_intervals(time, time_signature, (n - 1) as nat).spec_advance_beat_interval(
            time_signature,
        )
    }
}

/// Advancing a beat from a position whose beat lies within the signature
/// never regresses the bar; the bar moves forward, by exactly one, only when
/// the beat has reached the numerator (saturating at the last representable
/// bar); and the beat stays within the signature.
pub proof fn lemma_advance_beat_in_signature(time: MusicTime, time_signature: TimeSignature)
    requires
        1 <= time.beat <= time_signature.numerator,
    ensures
        time.spec_advance_beat(time_signature).bar >= time.bar,
        time.beat < time_signature.numerator ==> time.spec_advance_beat(time_signature)
            == (MusicTime { bar: time.bar, beat: (time.beat + 1) as u8, beat_interval: time.beat_interval }),
        time.beat == time_signature.numerator && time.bar < 0xffff ==> time.spec_advance_beat(
            time_signature,
        ) == (MusicTime { bar: (time.bar + 1) as u16, beat: 1u8, beat_interval: time.beat_interval }),
        time.beat == time_signature.numerator && time.bar == 0xffff ==> time.spec_advance_beat(
            time_signature,
        ) == (MusicTime { bar: time.bar, beat: 1u8, beat_interval: time.beat_interval }),
        1 <= time.spec_advance_beat(time_signature).beat <= time_signature.numerator,
{
}

/// Iterate `spec_advance_beat` `n` times.
pub open spec fn spec_advance_beats(
    time: MusicTime,
    time_signature: TimeSignature,
    n: nat,
) -> MusicTime
    decreases n,
{
    if n == 0 {
        time
    } else {
        spec_advance_beats(time, time_signature, (n - 1) as nat).spec_advance_beat(time_signature)
    }
}

/// Iterating one more time from the start is iterating from one advance in.
proof fn lemma_advance_beats_from_the_left(
    time: MusicTime,
    time_signature: TimeSignature,
    n: nat,
)
    ensures
        spec_advance_beats(time, time_signature, n + 1) == spec_advance_beats(
            time.spec_advance_beat(time_signature),
            time_signature,
            n,
        ),
    decreases n,
{
    if n == 0 {
        assert(spec_advance_beats(time, time_signature, 0) == time);
        assert(spec_advance_beats(time.spec_advance_beat(time_signature), time_signature, 0)
            == time.spec_advance_beat(time_signature));
    } else {
        lemma_advance_beats_from_the_left(time, time_signature, (n - 1) as nat);
    }
}

/// Advancing beats never regresses the bar, however many times and from
/// whatever position.
pub proof fn lemma_bar_never_regresses(time: MusicTime, time_signature: TimeSignature, n: nat)
    ensures
        spec_advance_beats(time, time_signature, n).bar >= time.bar,
    decreases n,
{
    if n > 0 {
        lemma_bar_never_regresses(time, time_signature, (n - 1) as nat);
    }
}

/// From a valid position — the beat within `[1, numerator]` — enough beat
/// advances wrap the bar forward by exactly one: the bar stands still while
/// the beat climbs to the numerator, and moves only on the advance that
/// leaves the numerator, landing on beat 1 of the next bar.
pub proof fn lemma_bar_wraps_by_exactly_one(time: MusicTime, time_signature: TimeSignature)
    requires
        1 <= time.beat <= time_signature.numerator,
        time.bar < 0xffff,
    ensures
        spec_advance_beats(
            time,
            time_signature,
            (time_signature.numerator - time.beat + 1) as nat,
        ) == (MusicTime { bar: (time.bar + 1) as u16, beat: 1u8, beat_interval: time.beat_interval }),
        forall|k: nat|
            k <= time_signature.numerator - time.beat ==> (#[trigger] spec_advance_beats(
                time,
                time_signature,
                k,
            )).bar == time.bar,
    decreases time_signature.numerator - time.beat,
{
    if time.beat == time_signature.numerator {
        assert(spec_advance_beats(time, time_signature, 0) == time);
    } else {
        let next = time.spec_advance_beat(time_signature);
        lemma_bar_wraps_by_exactly_one(next, time_signature);
        lemma_advance_beats_from_the_left(
            time,
            time_signature,
            (time_signature.numerator - time.beat) as nat,
        );
        assert forall|k: nat| k <= time_signature.numerator - time.beat implies (
        #[trigger] spec_advance_beats(time, time_signature, k)).bar == time.bar by {
            if k > 0 {
                lemma_advance_beats_from_the_left(time, time_signature, (k - 1) as nat);
            }
        }
    }
}

/// From any position at beat interval 1, seven advances of the beat interval
/// reach interval 8 with the bar and beat untouched, and the eighth rolls the
/// interval back to 1 while advancing the beat.
pub proof fn lemma_beat_interval_cycle(time: MusicTime, time_signature: TimeSignature)
    requires
        time.beat_interval == 1,
    ensures
        spec_advance_beat_intervals(time, time_signature, 7) == (MusicTime {
            bar: time.bar,
            beat: time.beat,
            beat_interval: 8u8,
        }),
        spec_advance_beat_intervals(time, time_signature, 8) == (MusicTime {
            bar: time.bar,
            beat: time.beat,
            beat_interval: 1u8,
        }).spec_advance_beat(time_signature),
{
    assert(spec_advance_beat_intervals(time, time_signature, 0) == time);
    assert(spec_advance_beat_intervals(time, time_signature, 1) == (MusicTime {
        bar: time.bar,
        beat: time.beat,
        beat_interval: 2u8,
    }));
    assert(spec_advance_beat_intervals(time, time_signature, 2) == (MusicTime {
        bar: time.bar,
        beat: time.beat,
        beat_interval: 3u8,
    }));
    assert(spec_advance_beat_intervals(time, time_signature, 3) == (MusicTime {
        bar: time.bar,
        beat: time.beat,
        beat_interval: 4u8,
    }));
    assert(spec_advance_beat_intervals(time, time_signature, 4) == (MusicTime {
        bar: time.bar,
        beat: time.beat,
        beat_interval: 5u8,
    }));
    assert(spec_advance_beat_intervals(time, time_signature, 5) == (MusicTime {
        bar: time.bar,
        beat: time.beat,
        beat_interval: 6u8,
    }));
    assert(spec_advance_beat_intervals(time, time_signature, 6) == (MusicTime {
        bar: time.bar,
        beat: time.beat,
        beat_interval: 7u8,
    }));
    assert(spec_advance_beat_intervals(time, time_signature, 7) == (MusicTime {
        bar: time.bar,
        beat: time.beat,
        beat_interval: 8u8,
    }));
}

/// While `beat` and `beat_interval` each hold at most one decimal digit's
/// worth of range (at most 9), the decimal-weighted order that `partial_cmp`
/// computes agrees with lexicographic order on the (bar, beat,
/// beat_interval) triple, and two positions compare equal exactly when they
/// are the same position. Values of 10 and beyond break this agreement; the
/// library never produces them, since a beat interval stays within 1..=8 and
/// signatures with a numerator above 9 are the caller's concern.
pub proof fn lemma_order_matches_lexicographic(a: MusicTime, b: MusicTime)
    requires
        a.beat <= 9,
        a.beat_interval <= 9,
        b.beat <= 9,
        b.beat_interval <= 9,
    ensures
        a.partial_cmp_spec(&b) == Some(Ordering::Less) <==> lex_lt(a, b),
        a.partial_cmp_spec(&b) == Some(Ordering::Equal) <==> a == b,
        a.partial_cmp_spec(&b) == Some(Ordering::Greater) <==> lex_lt(b, a),
{
    assert(a.time_sum() < b.time_sum() <==> lex_lt(a, b));
    assert(a.time_sum() == b.time_sum() ==> a.bar == b.bar && a.beat == b.beat
        && a.beat_interval == b.beat_interval);
}

/// The order that `partial_cmp` computes is a strict total order: it is
/// irreflexive, asymmetric, transitive, and any two positions are either
/// ordered or compare equal.
pub proof fn lemma_order_strict_total(a: MusicTime, b: MusicTime, c: MusicTime)
    ensures
        a.partial_cmp_spec(&a) == Some(Ordering::Equal),
        a.partial_cmp_spec(&b) == Some(Ordering::Less) ==> b.partial_cmp_spec(&a)
            == Some(Ordering::Greater),
        a.partial_cmp_spec(&b) == Some(Ordering::Less) && b.partial_cmp_spec(&c)
            == Some(Ordering::Less) ==> a.partial_cmp_spec(&c) == Some(Ordering::Less),
        a.partial_cmp_spec(&b) is Some,
{
}

impl PartialOrd for MusicTime {
    /// Positions compare by their decimal-weighted sum; see `time_sum`.
    fn partial_cmp(&self, other: &Self) -> (ordering: Option<Ordering>) {
        let self_time_sum: u32 =
            self.bar as u32 * 100 + self.beat as u32 * 10 + self.beat_interval as u32;
        let other_time_sum: u32 =
            other.bar as u32 * 100 + other.beat as u32 * 10 + other.beat_interval as u32;
        if self_time_sum < other_time_sum {
            Some(Ordering::Less)
        } else if self_time_sum == other_time_sum {
            Some(Ordering::Equal)
        } else {
            Some(Ordering::Greater)
        }
    }
}

impl vstd::std_specs::cmp::PartialOrdSpecImpl for MusicTime {
    open spec fn obeys_partial_cmp_spec() -> bool {
        true
    }

    open spec fn partial_cmp_spec(&self, other: &Self) -> Option<Ordering> {
        if self.time_sum() < other.time_sum() {
            Some(Ordering::Less)
        } else if self.time_sum() == other.time_sum() {
            Some(Ordering::Equal)
        } else {
            Some(Ordering::Greater)
        }
    }
}

impl Default for MusicTime {
    /// The default position is the start of a performance: bar 1, beat 1,
    /// beat interval 1.
    fn default() -> (time: MusicTime)
        ensures
            time == (MusicTime { bar: 1u16, beat: 1u8, beat_interval: 1u8 }),
    {
        MusicTime { bar: 1, beat: 1, beat_interval: 1 }
    }
}

} // verus!
