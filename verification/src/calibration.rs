//! Calibration of confident answers: per prompt and model, how many
//! answers were seen, how many were right, and the confidences they were
//! given; and when a prompt counts as miscalibrated.
//!
//! Confidences are `f64` values held as their bits. Their mean, and the
//! drift between mean confidence and accuracy, are floating-point
//! statistics taken from a tally by whoever reports them.

use vstd::prelude::*;
use crate::floatbits::{bits_is_nan, bits_lt, is_nan, lt};
use crate::text::str_eq;

verus! {

/// Whether one answer turned out correct.
#[derive(Debug, Clone, Copy, PartialEq, Eq, Structural)]
pub struct CalibrationObservation {
    pub actual_correct: bool,
}

/// A prompt is flagged only once it has this many samples.
pub const MIN_SAMPLES_TO_FLAG: u64 = 3;

/// The bits of `0.25`, the drift above which a prompt is miscalibrated.
pub const MIS_CALIBRATION_DRIFT_BITS: u64 = 0x3fd0_0000_0000_0000;

/// The bits of `1.0`.
pub const ONE_BITS: u64 = 0x3ff0_0000_0000_0000;

/// One prompt and model's record: answers seen, answers right, and the
/// confidences given (clamped to `[0, 1]`), in the order they came.
pub struct CalibrationTally {
    pub prompt: String,
    pub model: String,
    pub samples: u64,
    pub correct: u64,
    pub confidence_bits: Vec<u64>,
}

/// The tallies of every prompt and model seen, one each.
pub struct CalibrationStore {
    tallies: Vec<CalibrationTally>,
}

impl View for CalibrationStore {
    type V = Seq<CalibrationTally>;

    closed spec fn view(&self) -> Seq<CalibrationTally> {
        self.tallies@
    }
}

/// `f64::clamp(x, 0.0, 1.0)`: below zero gives zero, above one gives one,
/// NaN stays NaN.
pub open spec fn clamp_unit(bits: u64) -> u64 {
    if lt(bits, 0) {
        0
    } else if lt(ONE_BITS, bits) {
        ONE_BITS
    } else {
        bits
    }
}

/// `f64::clamp(x, 0.0, 1.0)` on bits (see [`clamp_unit`]).
pub fn clamp_confidence_bits(bits: u64) -> (r: u64)
    ensures
        r == clamp_unit(bits),
{
    if bits_lt(bits, 0) {
        0
    } else if bits_lt(ONE_BITS, bits) {
        ONE_BITS
    } else {
        bits
    }
}

/// A prompt is miscalibrated once it has at least [`MIN_SAMPLES_TO_FLAG`]
/// samples and its drift is above 0.25.
pub fn is_miscalibrated(samples: u64, drift_bits: u64) -> (r: bool)
    ensures
        r == (samples >= MIN_SAMPLES_TO_FLAG && lt(MIS_CALIBRATION_DRIFT_BITS, drift_bits)),
{
    samples >= MIN_SAMPLES_TO_FLAG && bits_lt(MIS_CALIBRATION_DRIFT_BITS, drift_bits)
}

/// Index of the tally for `prompt` and `model`, or -1.
pub open spec fn tally_index(s: Seq<CalibrationTally>, prompt: Seq<char>, model: Seq<char>) -> int
    decreases s.len(),
{
    if s.len() == 0 {
        -1
    } else if s.last().prompt@ == prompt && s.last().model@ == model {
        s.len() - 1
    } else {
        tally_index(s.drop_last(), prompt, model)
    }
}

proof fn lemma_tally_index_bounds(s: Seq<CalibrationTally>, prompt: Seq<char>, model: Seq<char>)
    ensures
        -1 <= tally_index(s, prompt, model) < s.len(),
        tally_index(s, prompt, model) >= 0 ==> s[tally_index(s, prompt, model)].prompt@ == prompt
            && s[tally_index(s, prompt, model)].model@ == model,
        tally_index(s, prompt, model) < 0 ==> forall|i: int|
            0 <= i < s.len() ==> !((#[trigger] s[i]).prompt@ == prompt && s[i].model@ == model),
    decreases s.len(),
{
    if s.len() > 0 {
        lemma_tally_index_bounds(s.drop_last(), prompt, model);
        if tally_index(s, prompt, model) < 0 {
            assert forall|i: int| 0 <= i < s.len() implies !((#[trigger] s[i]).prompt@ == prompt
                && s[i].model@ == model) by {
                if i < s.len() - 1 {
                    assert(s[i] == s.drop_last()[i]);
                }
            }
        }
    }
}

/// The tally `t` after one more answer with confidence `confidence_bits`.
pub open spec fn recorded(t: CalibrationTally, confidence_bits: u64, actual_correct: bool) -> CalibrationTally {
    CalibrationTally {
        samples: (t.samples + 1) as u64,
        correct: (t.correct + if actual_correct { 1int } else { 0int }) as u64,
        confidence_bits: t.confidence_bits,
        ..t
    }
}

impl CalibrationStore {
    /// No tallies.
    pub fn new() -> (r: Self)
        ensures
            r@.len() == 0,
    {
        CalibrationStore { tallies: Vec::new() }
    }

    fn find(&self, prompt: &str, model: &str) -> (r: Option<usize>)
        ensures
            match r {
                Some(i) => i as int == tally_index(self@, prompt@, model@) && i < self@.len(),
                None => tally_index(self@, prompt@, model@) < 0,
            },
    {
        let mut i = self.tallies.len();
        assert(self.tallies@.take(i as int) =~= self.tallies@);
        while i > 0
            invariant
                i <= self.tallies@.len(),
                tally_index(self.tallies@, prompt@, model@) == tally_index(
                    self.tallies@.take(i as int),
                    prompt@,
                    model@,
                ),
            decreases i,
        {
            assert(self.tallies@.take(i as int).drop_last() =~= self.tallies@.take(i - 1));
            let t = &self.tallies[i - 1];
            if str_eq(&t.prompt, prompt) && str_eq(&t.model, model) {
                return Some(i - 1);
            }
            i = i - 1;
        }
        None
    }

    /// The tally for `prompt` and `model`, if any answer was recorded for
    /// them.
    pub fn tally(&self, prompt: &str, model: &str) -> (r: Option<&CalibrationTally>)
        ensures
            tally_index(self@, prompt@, model@) >= 0 ==> r == Some(
                &self@[tally_index(self@, prompt@, model@)],
            ),
            tally_index(self@, prompt@, model@) < 0 ==> r is None,
    {
        match self.find(prompt, model) {
            Some(i) => Some(&self.tallies[i]),
            None => None,
        }
    }

    /// Records one answer for `prompt` and `model`: one more sample, one
    /// more correct answer if it was right, and its confidence clamped to
    /// `[0, 1]`. A pair seen for the first time gets a tally of its own at
    /// the end.
    pub fn record(&mut self, prompt: &str, model: &str, confidence_bits: u64, actual_correct: bool)
        requires
            tally_index(old(self)@, prompt@, model@) >= 0 ==> old(self)@[tally_index(
                old(self)@,
                prompt@,
                model@,
            )].samples < u64::MAX && old(self)@[tally_index(old(self)@, prompt@, model@)].correct
                < u64::MAX,
        ensures
            tally_index(old(self)@, prompt@, model@) >= 0 ==> {
                let i = tally_index(old(self)@, prompt@, model@);
                let t = old(self)@[i];
                &&& final(self)@.len() == old(self)@.len()
                &&& final(self)@[i] == (CalibrationTally {
                    confidence_bits: final(self)@[i].confidence_bits,
                    ..recorded(t, confidence_bits, actual_correct)
                })
                &&& final(self)@[i].confidence_bits@ == t.confidence_bits@.push(clamp_unit(confidence_bits))
                &&& forall|j: int| 0 <= j < old(self)@.len() && j != i ==> final(self)@[j] == old(self)@[j]
            },
            tally_index(old(self)@, prompt@, model@) < 0 ==> {
                let t = final(self)@.last();
                &&& final(self)@.len() == old(self)@.len() + 1
                &&& final(self)@.drop_last() == old(self)@
                &&& t.prompt@ == prompt@ && t.model@ == model@
                &&& t.samples == 1
                &&& t.correct == (if actual_correct { 1u64 } else { 0u64 })
                &&& t.confidence_bits@ == seq![clamp_unit(confidence_bits)]
            },
    {
        let clamped = clamp_confidence_bits(confidence_bits);
        let hit: u64 = if actual_correct {
            1
        } else {
            0
        };
        match self.find(prompt, model) {
            Some(i) => {
                let mut t = self.tallies.remove(i);
                let ghost before = t;
                t.samples = t.samples + 1;
                t.correct = t.correct + hit;
                t.confidence_bits.push(clamped);
                self.tallies.insert(i, t);
                assert forall|j: int| 0 <= j < old(self)@.len() && j != i implies self@[j] == old(self)@[j] by {
                    if j < i {
                        assert(self@[j] == old(self)@[j]);
                    } else {
                        assert(self@[j] == old(self)@[j]);
                    }
                }
            },
            None => {
                let mut bits: Vec<u64> = Vec::new();
                bits.push(clamped);
                self.tallies.push(
                    CalibrationTally {
                        prompt: crate::text::owned(prompt),
                        model: crate::text::owned(model),
                        samples: 1,
                        correct: hit,
                        confidence_bits: bits,
                    },
                );
                assert(self@.drop_last() =~= old(self)@);
            },
        }
    }
}

} // verus!
