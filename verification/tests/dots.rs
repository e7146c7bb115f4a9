use eguikit::dots;
use eguikit::sequence::{Easing, Tween};
use eguikit::shape::{Anchor, Point, Shape};
use eguikit::{Spinner, Style};

fn radius_of(shape: &Shape) -> Tween {
    match shape {
        Shape::Circle { radius, .. } => *radius,
        Shape::Rect { .. } => panic!("the dots draw circles"),
    }
}

#[test]
fn dots_at_clock_zero_are_all_small() {
    let frame = Spinner::default().size(40).style(Style::Dots).render(0);
    assert_eq!(frame.anchor, Anchor::Center);
    // 40 by 20 units, in parts
    assert_eq!(frame.width, 40 * 60);
    assert_eq!(frame.height, 20 * 60);
    assert!(frame.repaint);
    assert_eq!(frame.shapes.len(), 3);
    for shape in &frame.shapes {
        let radius = radius_of(shape);
        // a twelfth of 40 units: 3.33 units, 200 parts
        assert_eq!(radius.from, 200);
        assert_eq!(radius.elapsed, 0);
        assert_eq!(radius.from * 12, 40 * 60);
    }
    assert_eq!(
        frame.shapes[0],
        Shape::Circle {
            center: Point { x: -800, y: 0 },
            radius: Tween { from: 200, to: 400, elapsed: 0, span: 600, easing: Easing::Linear },
            shade: 5,
        }
    );
    assert_eq!(
        frame.shapes[1],
        Shape::Circle { center: Point { x: 0, y: 0 }, radius: Tween::rest(200), shade: 5 }
    );
    assert_eq!(
        frame.shapes[2],
        Shape::Circle { center: Point { x: 800, y: 0 }, radius: Tween::rest(200), shade: 5 }
    );
}

#[test]
fn default_spinner_draws_dots_of_size_40() {
    let frame = Spinner::default().render(0);
    assert_eq!(frame, Spinner::default().size(40).style(Style::Dots).render(0));
    assert_eq!(frame.width, 2400);
    assert_eq!(frame.height, 1200);
}

#[test]
fn left_dot_is_small_at_the_start_of_each_cycle() {
    for cycle in [0u64, 1, 2, 1000, 6_148_914_691_236_517] {
        let radius = dots::radius(24, 0, cycle * 3000);
        assert_eq!(radius.elapsed, 0);
        assert_eq!(radius.from, 120);
        assert_eq!(radius.from * 12, 24 * 60);
    }
}

#[test]
fn left_dot_is_big_a_fifth_of_a_second_into_each_cycle() {
    for cycle in [0u64, 1, 2, 1000] {
        let radius = dots::radius(24, 0, cycle * 3000 + 600);
        assert_eq!(
            radius,
            Tween { from: 240, to: 120, elapsed: 0, span: 600, easing: Easing::Linear }
        );
        assert_eq!(radius.from * 6, 24 * 60);
    }
}

#[test]
fn each_dot_swells_a_fifth_of_a_second_after_its_left_neighbour() {
    for dot in 0u8..3 {
        let phase = 600 * dot as u64;
        assert_eq!(dots::radius(12, dot, phase + 600).from, 120);
        assert_eq!(dots::radius(12, dot, phase + 600).elapsed, 0);
        assert_eq!(
            dots::radius(12, dot, phase + 300),
            Tween { from: 60, to: 120, elapsed: 300, span: 600, easing: Easing::Linear }
        );
        assert_eq!(
            dots::radius(12, dot, phase + 900),
            Tween { from: 120, to: 60, elapsed: 300, span: 600, easing: Easing::Linear }
        );
    }
}

#[test]
fn dot_rests_small_for_the_rest_of_the_cycle() {
    let radius = dots::radius(12, 0, 2000);
    assert_eq!(
        radius,
        Tween { from: 60, to: 60, elapsed: 800, span: 1800, easing: Easing::Linear }
    );
    let radius = dots::radius(12, 2, 2999);
    assert_eq!(
        radius,
        Tween { from: 60, to: 60, elapsed: 599, span: 600, easing: Easing::Linear }
    );
}

#[test]
fn dot_tracks_last_one_cycle() {
    for dot in 0u8..3 {
        let track = dots::track(7, dot);
        assert_eq!(track.len(), 4);
        assert_eq!(track.duration(), dots::CYCLE);
    }
}

#[test]
fn dot_radii_stay_between_small_and_big() {
    for clock in (0u64..6000).step_by(7) {
        for dot in 0u8..3 {
            let radius = dots::radius(10, dot, clock);
            assert!(50 <= radius.from && radius.from <= 100);
            assert!(50 <= radius.to && radius.to <= 100);
            assert!(0 < radius.span && radius.elapsed <= radius.span);
        }
    }
}

#[test]
fn dots_of_size_zero_have_no_area() {
    let frame = Spinner::default().size(0).render(1234);
    assert_eq!(frame.width, 0);
    assert_eq!(frame.height, 0);
    assert_eq!(frame.shapes.len(), 3);
    for shape in &frame.shapes {
        let radius = radius_of(shape);
        assert_eq!((radius.from, radius.to), (0, 0));
    }
}

#[test]
fn dots_of_the_greatest_size_do_not_overflow() {
    let frame = Spinner::default().size(u32::MAX).render(u64::MAX);
    assert_eq!(frame.width, 60 * u32::MAX as u64);
    assert_eq!(frame.shapes.len(), 3);
    assert_eq!(
        frame.shapes[0],
        Shape::Circle {
            center: Point { x: -20 * u32::MAX as i64, y: 0 },
            radius: dots::radius(u32::MAX, 0, u64::MAX),
            shade: 5,
        }
    );
}
