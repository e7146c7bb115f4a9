//! The squares: a window of five fading squares that runs round a ring.
//!
//! The box is a square of the size, cut into three by three cells. The eight
//! cells round the middle one form the ring, counted clockwise from the
//! corner with the least coordinates. Fifteen times a second the window moves
//! on by one cell.

use vstd::prelude::*;
use crate::sequence::Tween;
use crate::shape::{Anchor, Frame, FrameView, Point, Shape};
use crate::units::{parts_of, TICKS_PER_SECOND};

verus! {

/// Number of cells in the ring.
pub const RING: u8 = 8;

/// Number of squares in the window.
pub const WINDOW: u8 = 5;

/// Ticks that the window stays on one cell: a fifteenth of a second.
pub const STEP: u64 = 200;

/// Ticks in one turn of the window round the ring.
pub const CYCLE: u64 = 1600;

/// The side of a square, a third of the size, in parts.
pub open spec fn side_of(size: u32) -> u64 {
    (20 * size) as u64
}

/// The least corners of the cells of the ring, clockwise from the least
/// corner of the box.
pub open spec fn ring_of(size: u32) -> Seq<Point> {
    let side = 20 * size;
    seq![
        Point { x: 0, y: 0 },
        Point { x: side as i64, y: 0 },
        Point { x: (2 * side) as i64, y: 0 },
        Point { x: (2 * side) as i64, y: side as i64 },
        Point { x: (2 * side) as i64, y: (2 * side) as i64 },
        Point { x: side as i64, y: (2 * side) as i64 },
        Point { x: 0, y: (2 * side) as i64 },
        Point { x: 0, y: side as i64 },
    ]
}

/// The cell on which the window starts at clock `clock`: the whole part of
/// fifteen times the seconds passed, reduced by the length of the ring.
pub open spec fn window_start_at(clock: nat) -> int {
    (clock as int * 15 / (TICKS_PER_SECOND as int)) % (RING as int)
}

/// The cell of the ring under place `place` of the window.
pub open spec fn cell_at(place: int, clock: nat) -> int {
    (window_start_at(clock) + place) % (RING as int)
}

/// The square at place `place` of the window at clock `clock`: its shade is
/// `place` fifths of the foreground colour.
pub open spec fn square_at(size: u32, place: int, clock: nat) -> Shape {
    Shape::Rect {
        at: ring_of(size)[cell_at(place, clock)],
        centered: false,
        width: side_of(size),
        height: Tween::spec_rest(side_of(size)),
        rounding: 0,
        shade: place as u8,
    }
}

/// The frame of the squares at clock `clock`.
pub open spec fn frame_at(size: u32, clock: nat) -> FrameView {
    FrameView {
        anchor: Anchor::Min,
        width: (60 * size) as u64,
        height: (60 * size) as u64,
        shapes: Seq::new(WINDOW as nat, |place: int| square_at(size, place, clock)),
        repaint: true,
    }
}

/// The cell on which the window starts at clock `clock`.
pub fn window_start(clock: u64) -> (cell: u8)
    ensures
        cell == window_start_at(clock as nat),
        cell < 8,
{
    ((clock / STEP) % (RING as u64)) as u8
}

/// The least corners of the cells of the ring.
pub fn ring(size: u32) -> (corners: Vec<Point>)
    ensures
        corners@ == ring_of(size),
{
    let side: i64 = 20 * (size as i64);
    let corners: Vec<Point> = vec![
        Point { x: 0, y: 0 },
        Point { x: side, y: 0 },
        Point { x: 2 * side, y: 0 },
        Point { x: 2 * side, y: side },
        Point { x: 2 * side, y: 2 * side },
        Point { x: side, y: 2 * side },
        Point { x: 0, y: 2 * side },
        Point { x: 0, y: side },
    ];
    proof {
        assert(corners@ =~= ring_of(size));
    }
    corners
}

/// The frame of the squares at clock `clock`.
pub fn render(size: u32, clock: u64) -> (frame: Frame)
    ensures
        frame@ == frame_at(size, clock as nat),
{
    let side: u64 = 20 * (size as u64);
    let corners: Vec<Point> = ring(size);
    let start: u8 = window_start(clock);
    let mut shapes: Vec<Shape> = Vec::new();
    let mut place: u8 = 0;
    while place < WINDOW
        invariant
            place <= 5,
            start == window_start_at(clock as nat),
            start < 8,
            side == side_of(size),
            corners@ == ring_of(size),
            shapes@.len() == place,
            forall|i: int| 0 <= i < place ==> shapes@[i] == square_at(size, i, clock as nat),
        decreases 5 - place,
    {
        let cell: usize = ((start + place) % RING) as usize;
        let shape = Shape::Rect {
            at: corners[cell],
            centered: false,
            width: side,
            height: Tween::rest(side),
            rounding: 0,
            shade: place,
        };
        shapes.push(shape);
        place = place + 1;
    }
    let frame = Frame {
        anchor: Anchor::Min,
        width: 60 * (size as u64),
        height: 60 * (size as u64),
        shapes,
        repaint: true,
    };
    proof {
        assert(frame@.shapes =~= frame_at(size, clock as nat).shapes);
    }
    frame
}

/// A square's side is a third of the size.
pub proof fn law_side(size: u32)
    ensures
        side_of(size) * 3 == parts_of(size as int),
{
}

/// The window starts on a cell of the ring, and its five squares lie on
/// five different cells, one after another round the ring. The square at
/// place `place` has the shade `place`, in fifths of the foreground colour.
pub proof fn law_window(size: u32, clock: nat, place: int)
    requires
        0 <= place < 5,
    ensures
        0 <= window_start_at(clock) < 8,
        0 <= cell_at(place, clock) < 8,
        cell_at(0, clock) == window_start_at(clock),
        place > 0 ==> cell_at(place, clock) == (cell_at(place - 1, clock) + 1) % 8,
        forall|other: int| 0 <= other < 5 && other != place ==> cell_at(other, clock) != cell_at(
            place,
            clock,
        ),
        frame_at(size, clock).shapes[place] == square_at(size, place, clock),
        square_at(size, place, clock) matches Shape::Rect { at, shade, .. } && at == ring_of(
            size,
        )[cell_at(place, clock)] && shade == place,
{
}

/// Every frame of the squares has five well-formed shapes, with an area
/// where the size is not zero.
pub proof fn law_frame_wf(size: u32, clock: nat)
    ensures
        frame_at(size, clock).wf(),
        frame_at(size, clock).shapes.len() == 5,
        size > 0 ==> frame_at(size, clock).has_area(),
{
}

/// The squares repeat after every turn of the window round the ring.
pub proof fn law_periodic(size: u32, clock: nat, turns: nat)
    ensures
        frame_at(size, clock + turns * (CYCLE as nat)) == frame_at(size, clock),
{
    let later = clock + turns * (CYCLE as nat);
    assert(window_start_at(later) == window_start_at(clock));
    assert(frame_at(size, later).shapes =~= frame_at(size, clock).shapes);
}

} // verus!
