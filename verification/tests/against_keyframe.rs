use eguikit::sequence::{Easing, Sequence, Tween};
use eguikit::shape::Shape;
use eguikit::units::{PARTS_PER_UNIT, TICKS_PER_SECOND};
use eguikit::{bars, dots};
use keyframe::functions::{EaseInOut, Linear};
use keyframe::{ease, AnimationSequence, Keyframe};

/// The value of a tween in units, with the curve applied.
fn value(tween: &Tween) -> f64 {
    let from = tween.from as f64 / PARTS_PER_UNIT as f64;
    let to = tween.to as f64 / PARTS_PER_UNIT as f64;
    let progress = tween.elapsed as f64 / tween.span as f64;
    match tween.easing {
        Easing::Linear => ease(Linear, from, to, progress),
        Easing::EaseInOut => ease(EaseInOut, from, to, progress),
    }
}

/// The same checkpoints as a sequence of floats, times in seconds.
fn floats(sequence_of: &[(u64, u32, Easing)]) -> AnimationSequence<f64> {
    let frames: Vec<Keyframe<f64>> = sequence_of
        .iter()
        .map(|(v, t, e)| {
            let value = *v as f64 / PARTS_PER_UNIT as f64;
            let time = *t as f64 / TICKS_PER_SECOND as f64;
            match e {
                Easing::Linear => Keyframe::new(value, time, Linear),
                Easing::EaseInOut => Keyframe::new(value, time, EaseInOut),
            }
        })
        .collect();
    AnimationSequence::from(frames)
}

fn close(a: f64, b: f64) -> bool {
    (a - b).abs() <= 1e-6 * (1.0 + a.abs().max(b.abs()))
}

#[test]
fn evaluate_agrees_with_a_float_sequence() {
    let table = [
        (600u64, 300u32, Easing::Linear),
        (1800, 900, Easing::EaseInOut),
        (120, 1500, Easing::Linear),
        (960, 2100, Easing::EaseInOut),
        (960, 3000, Easing::Linear),
    ];
    let frames = table
        .iter()
        .map(|(value, time, easing)| eguikit::sequence::Keyframe {
            value: *value,
            time: *time,
            easing: *easing,
        })
        .collect();
    let sequence = Sequence::new(frames).expect("the checkpoints ascend");
    for t in (0u32..3300).step_by(3) {
        let mut reference = floats(&table);
        reference.advance_to(t as f64 / TICKS_PER_SECOND as f64);
        let expected = reference.now();
        let got = value(&sequence.evaluate(t));
        assert!(close(got, expected), "at {t}: {got} against {expected}");
    }
}

#[test]
fn dot_radii_agree_with_float_sequences() {
    let size = 40u32;
    let small = size as f64 / 12.0;
    let big = size as f64 / 6.0;
    for clock in (0u64..9000).step_by(7) {
        let seconds = clock as f64 / TICKS_PER_SECOND as f64;
        for dot in 0u8..3 {
            let phase = 0.2 * dot as f64;
            let mut reference = AnimationSequence::from(vec![
                Keyframe::new(small, phase, Linear),
                Keyframe::new(big, phase + 0.2, Linear),
                Keyframe::new(small, phase + 0.4, Linear),
                Keyframe::new(small, 1.0, Linear),
            ]);
            reference.advance_by(seconds % reference.duration());
            let expected = reference.now();
            let got = value(&dots::radius(size, dot, clock));
            assert!(close(got, expected), "dot {dot} at {clock}: {got} against {expected}");
        }
    }
}

#[test]
fn bar_heights_agree_with_float_sequences() {
    let size = 40u32;
    let low = size as f64 * 0.3;
    let high = size as f64 * 0.7;
    for clock in (0u64..9000).step_by(7) {
        let seconds = clock as f64 / TICKS_PER_SECOND as f64;
        for bar in 0u8..5 {
            let mut reference = AnimationSequence::from(vec![
                Keyframe::new(low, 0.0, EaseInOut),
                Keyframe::new(low, 0.2, EaseInOut),
                Keyframe::new(high, 0.5, EaseInOut),
                Keyframe::new(low, 0.8, EaseInOut),
                Keyframe::new(low, 1.0, Linear),
            ]);
            reference.advance_and_maybe_wrap(0.1 * (5 - bar) as f64);
            reference.advance_and_maybe_wrap(seconds % reference.duration());
            let expected = reference.now();
            let got = value(&bars::height(size, bar, clock));
            assert!(
                (got - expected).abs() < 1e-3,
                "bar {bar} at {clock}: {got} against {expected}"
            );
        }
    }
}

#[test]
fn eased_bar_heights_stay_within_their_bounds() {
    let frame_of = |clock: u64| eguikit::Spinner::default().style(eguikit::Style::Bars).render(clock);
    for clock in (0u64..3000).step_by(5) {
        for shape in &frame_of(clock).shapes {
            match shape {
                Shape::Rect { height, .. } => {
                    let h = value(height);
                    assert!(12.0 - 1e-9 <= h && h <= 28.0 + 1e-9);
                }
                Shape::Circle { .. } => panic!("the bars draw rectangles"),
            }
        }
    }
}
