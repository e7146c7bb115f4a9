//! The bars: five upright bars side by side whose heights pulse in a wave.
//!
//! The box is a square of the size. All bars run through the same five
//! checkpoints; bar `i` is ahead of the clock by 0.1 s for each bar from
//! itself to the right end, so the wave travels from left to right.

use vstd::prelude::*;
use crate::sequence::{
    ascending, duration_of, lemma_blend_bounded, lemma_sample_ends, lemma_sample_in_segment,
    lemma_settled_blend, sample_of, Easing, Keyframe, Sequence, Tween,
};
use crate::units::parts_of;
use crate::shape::{Anchor, Frame, FrameView, Point, Shape};

verus! {

/// Number of bars.
pub const BARS: u8 = 5;

/// Ticks in one cycle of a bar.
pub const CYCLE: u32 = 3000;

/// Ticks by which a bar is ahead of its right neighbour.
pub const LEAD: u32 = 300;

/// Rounding of a bar's corners, in parts: two units, whatever the size.
pub const ROUNDING: u64 = 120;

/// The least height of a bar, three tenths of the size, in parts.
pub open spec fn low_height(size: u32) -> u64 {
    (18 * size) as u64
}

/// The greatest height of a bar, seven tenths of the size, in parts.
pub open spec fn high_height(size: u32) -> u64 {
    (42 * size) as u64
}

/// The checkpoints of a bar's height.
pub open spec fn track_of(size: u32) -> Seq<Keyframe> {
    seq![
        Keyframe { value: low_height(size), time: 0, easing: Easing::EaseInOut },
        Keyframe { value: low_height(size), time: 600, easing: Easing::EaseInOut },
        Keyframe { value: high_height(size), time: 1500, easing: Easing::EaseInOut },
        Keyframe { value: low_height(size), time: 2400, easing: Easing::EaseInOut },
        Keyframe { value: low_height(size), time: CYCLE, easing: Easing::Linear },
    ]
}

/// Ticks by which bar `bar` is ahead of the clock.
pub open spec fn lead_of(bar: int) -> int {
    LEAD * (BARS - bar)
}

/// The time within its cycle that bar `bar` has reached at clock `clock`:
/// the clock advanced by the bar's lead and reduced by the duration of the
/// sequence.
pub open spec fn local_time(size: u32, bar: int, clock: nat) -> int {
    (clock + lead_of(bar)) % duration_of(track_of(size))
}

/// The height of bar `bar` at clock `clock`.
pub open spec fn height_at(size: u32, bar: int, clock: nat) -> Tween {
    sample_of(track_of(size), local_time(size, bar, clock))
}

/// The middle of bar `bar`: each bar has a fifth of the width, and stands in
/// the middle of its share.
pub open spec fn center_of(size: u32, bar: int) -> Point {
    Point { x: ((12 * bar + 6) * size) as i64, y: 0 }
}

/// Bar `bar` at clock `clock`: half as wide as its share of the box.
pub open spec fn bar_at(size: u32, bar: int, clock: nat) -> Shape {
    Shape::Rect {
        at: center_of(size, bar),
        centered: true,
        width: (6 * size) as u64,
        height: height_at(size, bar, clock),
        rounding: ROUNDING,
        shade: 5,
    }
}

/// The frame of the bars at clock `clock`.
pub open spec fn frame_at(size: u32, clock: nat) -> FrameView {
    FrameView {
        anchor: Anchor::LeftCenter,
        width: (60 * size) as u64,
        height: (60 * size) as u64,
        shapes: Seq::new(BARS as nat, |bar: int| bar_at(size, bar, clock)),
        repaint: true,
    }
}

/// The sequence of a bar ascends and lasts one cycle.
pub proof fn lemma_track(size: u32)
    ensures
        ascending(track_of(size)),
        track_of(size).len() == 5,
        duration_of(track_of(size)) == CYCLE,
{
}

/// The checkpoints of a bar's height.
pub fn track(size: u32) -> (sequence: Sequence)
    ensures
        sequence@ == track_of(size),
{
    let low: u64 = 18 * (size as u64);
    let high: u64 = 42 * (size as u64);
    let frames: Vec<Keyframe> = vec![
        Keyframe { value: low, time: 0, easing: Easing::EaseInOut },
        Keyframe { value: low, time: 600, easing: Easing::EaseInOut },
        Keyframe { value: high, time: 1500, easing: Easing::EaseInOut },
        Keyframe { value: low, time: 2400, easing: Easing::EaseInOut },
        Keyframe { value: low, time: CYCLE, easing: Easing::Linear },
    ];
    proof {
        assert(frames@ =~= track_of(size));
        lemma_track(size);
    }
    Sequence::new(frames).unwrap()
}

/// The height of bar `bar` at clock `clock`.
pub fn height(size: u32, bar: u8, clock: u64) -> (tween: Tween)
    requires
        bar < 5,
    ensures
        tween == height_at(size, bar as int, clock as nat),
        tween.wf(),
{
    proof {
        lemma_track(size);
    }
    let sequence = track(size);
    let cycle: u64 = sequence.duration() as u64;
    let lead: u64 = (LEAD as u64) * ((BARS - bar) as u64);
    let t: u32 = ((clock % cycle + lead) % cycle) as u32;
    sequence.evaluate(t)
}

/// The frame of the bars at clock `clock`.
pub fn render(size: u32, clock: u64) -> (frame: Frame)
    ensures
        frame@ == frame_at(size, clock as nat),
{
    let share: u64 = 12 * (size as u64);
    let mut shapes: Vec<Shape> = Vec::new();
    let mut bar: u8 = 0;
    while bar < BARS
        invariant
            bar <= 5,
            share == 12 * size,
            shapes@.len() == bar,
            forall|i: int| 0 <= i < bar ==> shapes@[i] == bar_at(size, i, clock as nat),
        decreases 5 - bar,
    {
        proof {
            assert(share * bar + share / 2 == (12 * bar + 6) * size) by (nonlinear_arith)
                requires
                    share == 12 * size,
            ;
            assert(share * bar <= share * 4) by (nonlinear_arith)
                requires
                    bar <= 4,
            ;
        }
        let x: u64 = share * (bar as u64) + share / 2;
        let shape = Shape::Rect {
            at: Point { x: x as i64, y: 0 },
            centered: true,
            width: share / 2,
            height: height(size, bar, clock),
            rounding: ROUNDING,
            shade: 5,
        };
        shapes.push(shape);
        bar = bar + 1;
    }
    let frame = Frame {
        anchor: Anchor::LeftCenter,
        width: 60 * (size as u64),
        height: 60 * (size as u64),
        shapes,
        repaint: true,
    };
    proof {
        assert(frame@.shapes =~= frame_at(size, clock as nat).shapes);
    }
    frame
}

/// The least height is three tenths of the size and the greatest seven.
pub proof fn law_heights(size: u32)
    ensures
        low_height(size) * 10 == 3 * parts_of(size as int),
        high_height(size) * 10 == 7 * parts_of(size as int),
{
}

/// When a bar is at the start of its own cycle, its height is the least
/// height, three tenths of the size: no time has elapsed in the tween, so
/// over any denominator it blends to that.
pub proof fn law_height_at_start(size: u32, bar: int, clock: nat, den: int)
    requires
        0 <= bar < 5,
        local_time(size, bar, clock) == 0,
    ensures
        frame_at(size, clock).shapes[bar] matches Shape::Rect { height, .. } && height
            == height_at(size, bar, clock),
        height_at(size, bar, clock).elapsed == 0,
        height_at(size, bar, clock).blend(0, den) * 10 == 3 * parts_of(size as int) * den,
{
    lemma_track(size);
    lemma_sample_in_segment(track_of(size), 0, 0);
    let height = height_at(size, bar, clock);
    lemma_settled_blend(height, 0, den);
    assert(height.from * den * 10 == 3 * parts_of(size as int) * den) by (nonlinear_arith)
        requires
            height.from * 10 == 3 * parts_of(size as int),
    ;
}

/// A bar's height never leaves the interval from three to seven tenths of
/// the size, whatever progress between 0 and 1 the easing curve reports.
pub proof fn law_height_bounded(size: u32, bar: int, clock: nat, num: int, den: int)
    requires
        0 <= bar < 5,
        0 <= num <= den,
    ensures
        frame_at(size, clock).shapes[bar] matches Shape::Rect { height, .. } && height
            == height_at(size, bar, clock),
        height_at(size, bar, clock).wf(),
        height_at(size, bar, clock).within(low_height(size) as int, high_height(size) as int),
        low_height(size) * den <= height_at(size, bar, clock).blend(num, den) <= high_height(size)
            * den,
{
    lemma_track(size);
    let frames = track_of(size);
    assert forall|i: int| 0 <= i < frames.len() implies low_height(size) <= (
    #[trigger] frames[i]).value <= high_height(size) by {}
    lemma_sample_ends(
        frames,
        local_time(size, bar, clock),
        low_height(size) as int,
        high_height(size) as int,
    );
    lemma_blend_bounded(
        height_at(size, bar, clock),
        num,
        den,
        low_height(size) as int,
        high_height(size) as int,
    );
}

/// Every frame of the bars has five well-formed shapes, with an area where
/// the size is not zero.
pub proof fn law_frame_wf(size: u32, clock: nat)
    ensures
        frame_at(size, clock).wf(),
        frame_at(size, clock).shapes.len() == 5,
        size > 0 ==> frame_at(size, clock).has_area(),
{
    let shapes = frame_at(size, clock).shapes;
    assert forall|i: int| 0 <= i < shapes.len() implies (#[trigger] shapes[i]).wf() && (size > 0
        ==> shapes[i].has_area()) by {
        law_height_bounded(size, i, clock, 0, 1);
    }
}

/// The bars repeat after every cycle.
pub proof fn law_periodic(size: u32, clock: nat, turns: nat)
    ensures
        frame_at(size, clock + turns * (CYCLE as nat)) == frame_at(size, clock),
{
    lemma_track(size);
    let later = clock + turns * (CYCLE as nat);
    assert forall|bar: int| 0 <= bar < 5 implies local_time(size, bar, later) == local_time(
        size,
        bar,
        clock,
    ) by {}
    assert(frame_at(size, later).shapes =~= frame_at(size, clock).shapes);
}

} // verus!
