//! The dots: three discs in a row that swell one after another.
//!
//! The box is as wide as the size and half as high. Each radius runs through
//! its own four checkpoints, the same wave started 0.2 s later from dot to
//! dot, and moves linearly from one checkpoint to the next. The clock is
//! reduced by the duration of the left dot's sequence for all three dots;
//! the three sequences end at the same checkpoint, so this is also each
//! dot's own duration.

use vstd::prelude::*;
use crate::sequence::{
    ascending, duration_of, lemma_sample_ends, lemma_sample_in_segment, lemma_settled_blend,
    sample_of, Easing, Keyframe, Sequence, Tween,
};
use crate::shape::{Anchor, Frame, FrameView, Point, Shape};
use crate::units::parts_of;

verus! {

/// Number of dots.
pub const DOTS: u8 = 3;

/// Ticks in one cycle of the dots.
pub const CYCLE: u32 = 3000;

/// Ticks by which each dot's wave starts after that of the dot to its left,
/// and which a radius takes to grow, and again to shrink.
pub const STEP: u32 = 600;

/// The small radius, a twelfth of the size, in parts.
pub open spec fn small_radius(size: u32) -> u64 {
    (5 * size) as u64
}

/// The big radius, a sixth of the size, in parts.
pub open spec fn big_radius(size: u32) -> u64 {
    (10 * size) as u64
}

/// The checkpoints of the radius of dot `dot`, counted from the left.
pub open spec fn track_of(size: u32, dot: int) -> Seq<Keyframe> {
    let phase = STEP * dot;
    seq![
        Keyframe { value: small_radius(size), time: phase as u32, easing: Easing::Linear },
        Keyframe { value: big_radius(size), time: (phase + STEP) as u32, easing: Easing::Linear },
        Keyframe {
            value: small_radius(size),
            time: (phase + 2 * STEP) as u32,
            easing: Easing::Linear,
        },
        Keyframe { value: small_radius(size), time: CYCLE, easing: Easing::Linear },
    ]
}

/// The time within the cycle at clock `clock`: the clock reduced by the
/// duration of the left dot's sequence.
pub open spec fn cycle_time(size: u32, clock: nat) -> int {
    clock as int % duration_of(track_of(size, 0))
}

/// The radius of dot `dot` at clock `clock`.
pub open spec fn radius_at(size: u32, dot: int, clock: nat) -> Tween {
    sample_of(track_of(size, dot), cycle_time(size, clock))
}

/// The centre of dot `dot`: the middle dot on the anchor, its neighbours two
/// big radii to either side.
pub open spec fn center_of(size: u32, dot: int) -> Point {
    Point { x: ((dot - 1) * 20 * size) as i64, y: 0 }
}

/// Dot `dot` at clock `clock`.
pub open spec fn dot_at(size: u32, dot: int, clock: nat) -> Shape {
    Shape::Circle { center: center_of(size, dot), radius: radius_at(size, dot, clock), shade: 5 }
}

/// The frame of the dots at clock `clock`.
pub open spec fn frame_at(size: u32, clock: nat) -> FrameView {
    FrameView {
        anchor: Anchor::Center,
        width: (60 * size) as u64,
        height: (30 * size) as u64,
        shapes: Seq::new(DOTS as nat, |dot: int| dot_at(size, dot, clock)),
        repaint: true,
    }
}

/// Every dot's sequence ascends and lasts one cycle.
pub proof fn lemma_track(size: u32, dot: int)
    requires
        0 <= dot < 3,
    ensures
        ascending(track_of(size, dot)),
        track_of(size, dot).len() == 4,
        duration_of(track_of(size, dot)) == CYCLE,
{
}

/// The checkpoints of the radius of dot `dot`.
pub fn track(size: u32, dot: u8) -> (sequence: Sequence)
    requires
        dot < 3,
    ensures
        sequence@ == track_of(size, dot as int),
{
    let small: u64 = 5 * (size as u64);
    let big: u64 = 10 * (size as u64);
    let phase: u32 = STEP * (dot as u32);
    let frames: Vec<Keyframe> = vec![
        Keyframe { value: small, time: phase, easing: Easing::Linear },
        Keyframe { value: big, time: phase + STEP, easing: Easing::Linear },
        Keyframe { value: small, time: phase + 2 * STEP, easing: Easing::Linear },
        Keyframe { value: small, time: CYCLE, easing: Easing::Linear },
    ];
    proof {
        assert(frames@ =~= track_of(size, dot as int));
        lemma_track(size, dot as int);
    }
    Sequence::new(frames).unwrap()
}

/// The radius of dot `dot` at clock `clock`.
pub fn radius(size: u32, dot: u8, clock: u64) -> (tween: Tween)
    requires
        dot < 3,
    ensures
        tween == radius_at(size, dot as int, clock as nat),
        tween.wf(),
{
    proof {
        lemma_track(size, 0);
    }
    let cycle: u32 = track(size, 0).duration();
    let t: u32 = (clock % (cycle as u64)) as u32;
    track(size, dot).evaluate(t)
}

/// The frame of the dots at clock `clock`.
pub fn render(size: u32, clock: u64) -> (frame: Frame)
    ensures
        frame@ == frame_at(size, clock as nat),
{
    let mut shapes: Vec<Shape> = Vec::new();
    let mut dot: u8 = 0;
    while dot < DOTS
        invariant
            dot <= 3,
            shapes@.len() == dot,
            forall|i: int| 0 <= i < dot ==> shapes@[i] == dot_at(size, i, clock as nat),
        decreases 3 - dot,
    {
        let reach: i64 = 20 * (size as i64);
        let x: i64 = if dot == 0 {
            -reach
        } else if dot == 1 {
            0
        } else {
            reach
        };
        proof {
            assert((dot as int - 1) * 20 * size == x) by (nonlinear_arith)
                requires
                    (dot == 0 && x == -20 * size) || (dot == 1 && x == 0) || (dot == 2 && x == 20
                        * size),
            ;
        }
        let shape = Shape::Circle {
            center: Point { x, y: 0 },
            radius: radius(size, dot, clock),
            shade: 5,
        };
        shapes.push(shape);
        dot = dot + 1;
    }
    let frame = Frame {
        anchor: Anchor::Center,
        width: 60 * (size as u64),
        height: 30 * (size as u64),
        shapes,
        repaint: true,
    };
    proof {
        assert(frame@.shapes =~= frame_at(size, clock as nat).shapes);
    }
    frame
}

/// The small radius is a twelfth of the size and the big one a sixth.
pub proof fn law_radii(size: u32)
    ensures
        small_radius(size) * 12 == parts_of(size as int),
        big_radius(size) * 6 == parts_of(size as int),
{
}

/// A radius is always on its way between the small and the big radius.
pub proof fn law_radius_bounded(size: u32, dot: int, clock: nat)
    requires
        0 <= dot < 3,
    ensures
        radius_at(size, dot, clock).wf(),
        radius_at(size, dot, clock).within(small_radius(size) as int, big_radius(size) as int),
{
    lemma_track(size, dot);
    let frames = track_of(size, dot);
    assert forall|i: int| 0 <= i < frames.len() implies small_radius(size) <= (
    #[trigger] frames[i]).value <= big_radius(size) by {}
    lemma_sample_ends(
        frames,
        cycle_time(size, clock),
        small_radius(size) as int,
        big_radius(size) as int,
    );
}

/// Where a dot stands at the checkpoints of its wave: small until the wave
/// starts, 0.2 s after the dot to its left; big 0.2 s later; small again
/// from 0.2 s after that to the end of the cycle.
pub proof fn law_radius_at_checkpoints(size: u32, dot: int, clock: nat)
    requires
        0 <= dot < 3,
    ensures
        ({
            let t = cycle_time(size, clock);
            let radius = radius_at(size, dot, clock);
            &&& 0 <= t < CYCLE
            &&& t == clock % (CYCLE as nat)
            &&& t <= STEP * dot ==> radius.settled() && radius.from == small_radius(size)
            &&& t == STEP * dot + STEP ==> radius.settled() && radius.from == big_radius(size)
            &&& t >= STEP * dot + 2 * STEP ==> radius.settled() && radius.from == small_radius(
                size,
            )
        }),
{
    lemma_track(size, 0);
    lemma_track(size, dot);
    let t = cycle_time(size, clock);
    let frames = track_of(size, dot);
    if t == 600 * dot {
        lemma_sample_in_segment(frames, 0, t);
    } else if t == 600 * dot + 600 {
        lemma_sample_in_segment(frames, 1, t);
    } else if t >= 600 * dot + 1200 {
        lemma_sample_in_segment(frames, 2, t);
    }
}

/// At the start of every cycle the left dot has the small radius, a twelfth
/// of the size, and 0.2 s later the big one, a sixth of the size: no time
/// has elapsed in the tween, so over any denominator it blends to these.
pub proof fn law_left_dot(size: u32, clock: nat, den: int)
    ensures
        frame_at(size, clock).shapes[0] matches Shape::Circle { radius, .. } && {
            &&& radius == radius_at(size, 0, clock)
            &&& clock % (CYCLE as nat) == 0 ==> radius.elapsed == 0 && radius.blend(0, den) * 12
                == parts_of(size as int) * den
            &&& clock % (CYCLE as nat) == STEP ==> radius.elapsed == 0 && radius.blend(0, den) * 6
                == parts_of(size as int) * den
        },
{
    law_radius_at_checkpoints(size, 0, clock);
    lemma_track(size, 0);
    let t = cycle_time(size, clock);
    let radius = radius_at(size, 0, clock);
    if t == 0 {
        lemma_sample_in_segment(track_of(size, 0), 0, t);
        lemma_settled_blend(radius, 0, den);
        assert(radius.from * den * 12 == parts_of(size as int) * den) by (nonlinear_arith)
            requires
                radius.from * 12 == parts_of(size as int),
        ;
    } else if t == STEP {
        lemma_sample_in_segment(track_of(size, 0), 1, t);
        lemma_settled_blend(radius, 0, den);
        assert(radius.from * den * 6 == parts_of(size as int) * den) by (nonlinear_arith)
            requires
                radius.from * 6 == parts_of(size as int),
        ;
    }
}

/// Every frame of the dots has three well-formed shapes, with an area
/// where the size is not zero.
pub proof fn law_frame_wf(size: u32, clock: nat)
    ensures
        frame_at(size, clock).wf(),
        frame_at(size, clock).shapes.len() == 3,
        size > 0 ==> frame_at(size, clock).has_area(),
{
    let shapes = frame_at(size, clock).shapes;
    assert forall|i: int| 0 <= i < shapes.len() implies (#[trigger] shapes[i]).wf() && (size > 0
        ==> shapes[i].has_area()) by {
        law_radius_bounded(size, i, clock);
    }
}

/// The dots repeat after every cycle.
pub proof fn law_periodic(size: u32, clock: nat, turns: nat)
    ensures
        frame_at(size, clock + turns * (CYCLE as nat)) == frame_at(size, clock),
{
    lemma_track(size, 0);
    let later = clock + turns * (CYCLE as nat);
    assert(cycle_time(size, later) == cycle_time(size, clock));
    assert(frame_at(size, later).shapes =~= frame_at(size, clock).shapes);
}

} // verus!
