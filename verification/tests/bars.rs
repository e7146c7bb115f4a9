use eguikit::bars;
use eguikit::sequence::{Easing, Tween};
use eguikit::shape::{Anchor, Point, Shape};
use eguikit::{Spinner, Style};

#[test]
fn bars_fill_a_square_box() {
    let frame = Spinner::default().size(50).style(Style::Bars).render(0);
    assert_eq!(frame.anchor, Anchor::LeftCenter);
    assert_eq!(frame.width, 50 * 60);
    assert_eq!(frame.height, 50 * 60);
    assert!(frame.repaint);
    assert_eq!(frame.shapes.len(), 5);
}

#[test]
fn bars_stand_in_the_middle_of_their_fifths() {
    let frame = Spinner::default().size(50).style(Style::Bars).render(0);
    for (i, shape) in frame.shapes.iter().enumerate() {
        match shape {
            Shape::Rect { at, centered, width, rounding, shade, .. } => {
                // a fifth of 50 units is 10 units, 600 parts
                assert_eq!(*at, Point { x: 600 * i as i64 + 300, y: 0 });
                assert!(*centered);
                assert_eq!(*width, 300);
                assert_eq!(*rounding, 120);
                assert_eq!(*shade, 5);
            }
            Shape::Circle { .. } => panic!("the bars draw rectangles"),
        }
    }
}

#[test]
fn bars_at_clock_zero() {
    // bar i is 0.1 s * (5 - i) ahead: 1500, 1200, 900, 600, 300 ticks
    let low = 18 * 50;
    let high = 42 * 50;
    let ease = Easing::EaseInOut;
    assert_eq!(
        bars::height(50, 0, 0),
        Tween { from: high, to: low, elapsed: 0, span: 900, easing: ease }
    );
    assert_eq!(
        bars::height(50, 1, 0),
        Tween { from: low, to: high, elapsed: 600, span: 900, easing: ease }
    );
    assert_eq!(
        bars::height(50, 2, 0),
        Tween { from: low, to: high, elapsed: 300, span: 900, easing: ease }
    );
    assert_eq!(
        bars::height(50, 3, 0),
        Tween { from: low, to: high, elapsed: 0, span: 900, easing: ease }
    );
    assert_eq!(
        bars::height(50, 4, 0),
        Tween { from: low, to: low, elapsed: 300, span: 600, easing: ease }
    );
}

#[test]
fn bar_is_lowest_at_the_start_of_its_own_cycle() {
    for bar in 0u8..5 {
        // the clock at which the bar's lead is used up
        let clock = 3000 - 300 * (5 - bar as u64);
        for cycle in 0u64..3 {
            let height = bars::height(20, bar, clock + cycle * 3000);
            assert_eq!(height.elapsed, 0);
            assert_eq!(height.from, 18 * 20);
            assert_eq!(height.from * 10, 3 * 20 * 60);
        }
    }
}

#[test]
fn bar_is_highest_half_way_through_its_cycle() {
    let height = bars::height(20, 4, 1200);
    assert_eq!(
        height,
        Tween { from: 840, to: 360, elapsed: 0, span: 900, easing: Easing::EaseInOut }
    );
    assert_eq!(height.from * 10, 7 * 20 * 60);
}

#[test]
fn bar_heights_stay_between_three_and_seven_tenths() {
    for clock in (0u64..9000).step_by(11) {
        for bar in 0u8..5 {
            let height = bars::height(10, bar, clock);
            assert!(180 <= height.from && height.from <= 420);
            assert!(180 <= height.to && height.to <= 420);
            assert!(0 < height.span && height.elapsed <= height.span);
        }
    }
}

#[test]
fn bar_track_lasts_one_cycle() {
    let track = bars::track(3);
    assert_eq!(track.len(), 5);
    assert_eq!(track.duration(), bars::CYCLE);
}

#[test]
fn bars_at_the_end_of_the_clock_do_not_overflow() {
    let frame = Spinner::default().size(u32::MAX).style(Style::Bars).render(u64::MAX);
    assert_eq!(frame.shapes.len(), 5);
    match frame.shapes[4] {
        Shape::Rect { at, width, .. } => {
            assert_eq!(at.x, 54 * u32::MAX as i64);
            assert_eq!(width, 6 * u32::MAX as u64);
        }
        Shape::Circle { .. } => panic!("the bars draw rectangles"),
    }
}
