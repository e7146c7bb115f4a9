//! Keyframe sequences over an integer clock.
//!
//! A sequence is an ordered list of checkpoints. Evaluating it at a time finds
//! the two checkpoints that bracket the time and says how far the time has
//! come between them. The result is a [`Tween`]: exact integers, with the
//! easing curve named but not applied, since the curves are not rational.

use vstd::prelude::*;

verus! {

/// Curve that turns progress in time into progress of the value.
///
/// Every curve starts at 0, ends at 1 and stays between the two.
#[derive(Clone, Copy, Debug, PartialEq, Eq, Structural)]
pub enum Easing {
    /// Progress of the value equals progress in time: `elapsed / span`.
    Linear,
    /// Slow start, fast middle, slow end.
    EaseInOut,
}

/// A checkpoint: from `time` on, the value leaves `value` along `easing`.
#[derive(Clone, Copy, Debug, PartialEq, Eq, Structural)]
pub struct Keyframe {
    pub value: u64,
    /// Start of the checkpoint, in ticks.
    pub time: u32,
    /// Curve used from this checkpoint to the next one.
    pub easing: Easing,
}

/// A value on its way from `from` to `to`: `elapsed` ticks out of `span`
/// have passed, and `easing` maps that progress to progress of the value.
#[derive(Clone, Copy, Debug, PartialEq, Eq, Structural)]
pub struct Tween {
    pub from: u64,
    pub to: u64,
    pub elapsed: u32,
    pub span: u32,
    pub easing: Easing,
}

impl Tween {
    /// The span is not empty and the elapsed time lies within it.
    pub open spec fn wf(self) -> bool {
        0 < self.span && self.elapsed <= self.span
    }

    /// The tween that stays at `value`.
    pub open spec fn spec_rest(value: u64) -> Tween {
        Tween { from: value, to: value, elapsed: 0, span: 1, easing: Easing::Linear }
    }

    /// The tween between two checkpoints at time `t`.
    pub open spec fn spec_between(a: Keyframe, b: Keyframe, t: int) -> Tween {
        Tween {
            from: a.value,
            to: b.value,
            elapsed: (t - a.time) as u32,
            span: (b.time - a.time) as u32,
            easing: a.easing,
        }
    }

    /// No time has elapsed, or both ends agree: the value is `from`, since
    /// every curve starts at 0 (see [`lemma_settled_blend`]).
    pub open spec fn settled(self) -> bool {
        self.elapsed == 0 || self.from == self.to
    }

    /// Both ends lie between `low` and `high`.
    pub open spec fn within(self, low: int, high: int) -> bool {
        low <= self.from <= high && low <= self.to <= high
    }

    /// The value times `den`, once the curve has mapped the progress
    /// `elapsed / span` to `num / den`.
    pub open spec fn blend(self, num: int, den: int) -> int {
        self.from * (den - num) + self.to * num
    }

    /// The tween that stays at `value`.
    #[verifier::when_used_as_spec(spec_rest)]
    pub fn rest(value: u64) -> (tween: Tween)
        ensures
            tween == Tween::spec_rest(value),
            tween.wf(),
            tween.settled(),
    {
        Tween { from: value, to: value, elapsed: 0, span: 1, easing: Easing::Linear }
    }

    /// The tween between two checkpoints at time `t`.
    pub fn between(a: Keyframe, b: Keyframe, t: u32) -> (tween: Tween)
        requires
            a.time <= t < b.time,
        ensures
            tween == Tween::spec_between(a, b, t as int),
            tween.wf(),
    {
        Tween {
            from: a.value,
            to: b.value,
            elapsed: t - a.time,
            span: b.time - a.time,
            easing: a.easing,
        }
    }
}

/// A blend never leaves the interval between the two ends of the tween,
/// whatever progress between 0 and 1 the curve reports.
pub proof fn lemma_blend_bounded(tween: Tween, num: int, den: int, low: int, high: int)
    requires
        0 <= num <= den,
        tween.within(low, high),
    ensures
        low * den <= tween.blend(num, den) <= high * den,
{
    let from = tween.from as int;
    let to = tween.to as int;
    assert(low * (den - num) <= from * (den - num) <= high * (den - num)) by (nonlinear_arith)
        requires
            low <= from <= high,
            0 <= den - num,
    ;
    assert(low * num <= to * num <= high * num) by (nonlinear_arith)
        requires
            low <= to <= high,
            0 <= num,
    ;
    assert(low * (den - num) + low * num == low * den) by (nonlinear_arith);
    assert(high * (den - num) + high * num == high * den) by (nonlinear_arith);
}

/// A settled tween blends to `from`: whatever the curve reports where both
/// ends agree, and for the 0 that every curve reports where no time has
/// elapsed.
pub proof fn lemma_settled_blend(tween: Tween, num: int, den: int)
    requires
        tween.settled(),
        tween.elapsed == 0 ==> num == 0,
    ensures
        tween.blend(num, den) == tween.from * den,
{
    let from = tween.from as int;
    if tween.from == tween.to {
        assert(from * (den - num) + from * num == from * den) by (nonlinear_arith);
    }
}

/// The checkpoints come in strictly increasing order of time.
pub open spec fn ascending(frames: Seq<Keyframe>) -> bool {
    forall|i: int, j: int| 0 <= i < j < frames.len() ==> frames[i].time < frames[j].time
}

/// Time `t` falls in the segment that starts at checkpoint `c`.
pub open spec fn spans(frames: Seq<Keyframe>, c: int, t: int) -> bool {
    0 <= c < frames.len() - 1 && frames[c].time <= t < frames[c + 1].time
}

/// The segment that time `t` falls in.
pub open spec fn segment_of(frames: Seq<Keyframe>, t: int) -> int {
    choose|c: int| spans(frames, c, t)
}

/// Time of the last checkpoint, 0 for no checkpoints.
pub open spec fn duration_of(frames: Seq<Keyframe>) -> int {
    if frames.len() == 0 {
        0
    } else {
        frames.last().time as int
    }
}

/// The state of the sequence at time `t`: at rest on the first value before
/// the first checkpoint, at rest on the last value from the last checkpoint
/// on, and in between on the way from the latest checkpoint reached to the
/// one after it. Without checkpoints it rests at 0.
pub open spec fn sample_of(frames: Seq<Keyframe>, t: int) -> Tween {
    if frames.len() == 0 {
        Tween::spec_rest(0)
    } else if t < frames.first().time {
        Tween::spec_rest(frames.first().value)
    } else if t >= frames.last().time {
        Tween::spec_rest(frames.last().value)
    } else {
        let c = segment_of(frames, t);
        Tween::spec_between(frames[c], frames[c + 1], t)
    }
}

/// In an ascending sequence a time falls in at most one segment, and the
/// sample there is the tween between the segment's two checkpoints.
pub proof fn lemma_sample_in_segment(frames: Seq<Keyframe>, c: int, t: int)
    requires
        ascending(frames),
        spans(frames, c, t),
    ensures
        segment_of(frames, t) == c,
        sample_of(frames, t) == Tween::spec_between(frames[c], frames[c + 1], t),
        sample_of(frames, t).wf(),
{
    let d = segment_of(frames, t);
    assert(spans(frames, d, t));
    if d < c {
        assert(frames[d + 1].time <= frames[c].time);
    } else if c < d {
        assert(frames[c + 1].time <= frames[d].time);
    }
    assert(frames[0].time <= frames[c].time);
    assert(frames[c + 1].time <= frames.last().time);
}

/// Every sample is well formed, and its two ends are values of checkpoints.
pub proof fn lemma_sample_ends(frames: Seq<Keyframe>, t: int, low: int, high: int)
    requires
        ascending(frames),
        frames.len() > 0,
        forall|i: int| 0 <= i < frames.len() ==> low <= (#[trigger] frames[i]).value <= high,
    ensures
        sample_of(frames, t).wf(),
        sample_of(frames, t).within(low, high),
{
    if t < frames.first().time {
    } else if t >= frames.last().time {
    } else {
        lemma_segment_exists(frames, t, frames.len() - 1);
        let c = segment_of(frames, t);
        lemma_sample_in_segment(frames, c, t);
    }
}

/// A time between the first checkpoint and checkpoint `k` falls in a segment.
proof fn lemma_segment_exists(frames: Seq<Keyframe>, t: int, k: int)
    requires
        0 < k < frames.len(),
        frames[0].time <= t < frames[k].time,
    ensures
        spans(frames, segment_of(frames, t), t),
    decreases k,
{
    if frames[k - 1].time <= t {
        assert(spans(frames, k - 1, t));
    } else {
        lemma_segment_exists(frames, t, k - 1);
    }
}

/// An ordered list of checkpoints, strictly ascending in time.
#[derive(Debug, PartialEq, Eq)]
pub struct Sequence {
    frames: Vec<Keyframe>,
}

impl View for Sequence {
    type V = Seq<Keyframe>;

    closed spec fn view(&self) -> Seq<Keyframe> {
        self.frames@
    }
}

impl Sequence {
    #[verifier::type_invariant]
    spec fn inv(self) -> bool {
        ascending(self.frames@)
    }

    /// Makes a sequence of `frames`, if they ascend strictly in time.
    pub fn new(frames: Vec<Keyframe>) -> (made: Option<Sequence>)
        ensures
            made is Some <==> ascending(frames@),
            made matches Some(sequence) ==> sequence@ == frames@,
    {
        let n: usize = frames.len();
        let mut k: usize = 1;
        while k < n
            invariant
                n == frames.len(),
                1 <= k,
                forall|i: int, j: int| 0 <= i < j < k && j < n ==> frames[i].time < frames[j].time,
            decreases n - k,
        {
            if frames[k - 1].time >= frames[k].time {
                return None;
            }
            proof {
                assert forall|i: int, j: int| 0 <= i < j < k + 1 && j < n implies frames[i].time
                    < frames[j].time by {
                    if j == k && i < k - 1 {
                        assert(frames[i].time < frames[k - 1].time);
                    }
                }
            }
            k = k + 1;
        }
        Some(Sequence { frames })
    }

    /// Number of checkpoints.
    pub fn len(&self) -> (n: usize)
        ensures
            n == self@.len(),
    {
        self.frames.len()
    }

    /// Time of the last checkpoint, in ticks; 0 for an empty sequence.
    pub fn duration(&self) -> (ticks: u32)
        ensures
            ticks == duration_of(self@),
    {
        let n: usize = self.frames.len();
        if n == 0 {
            0
        } else {
            self.frames[n - 1].time
        }
    }

    /// The state of the sequence at time `t`.
    pub fn evaluate(&self, t: u32) -> (tween: Tween)
        ensures
            tween == sample_of(self@, t as int),
            tween.wf(),
            ascending(self@),
    {
        proof {
            use_type_invariant(self);
        }
        let n: usize = self.frames.len();
        if n == 0 {
            return Tween::rest(0);
        }
        if t < self.frames[0].time {
            return Tween::rest(self.frames[0].value);
        }
        let mut c: usize = 0;
        while c + 1 < n && self.frames[c + 1].time <= t
            invariant
                n == self.frames.len(),
                c < n,
                self.frames[c as int].time <= t,
            decreases n - c,
        {
            c = c + 1;
        }
        if c + 1 == n {
            Tween::rest(self.frames[c].value)
        } else {
            proof {
                assert(spans(self@, c as int, t as int));
                lemma_sample_in_segment(self@, c as int, t as int);
            }
            Tween::between(self.frames[c], self.frames[c + 1], t)
        }
    }
}

} // verus!
