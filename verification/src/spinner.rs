//! The spinner: a size, a style, and the frame they give at each tick.

use vstd::prelude::*;
use crate::shape::{Frame, FrameView};

verus! {

/// Possible spinner styles.
///
/// All spinners are drawn from the clock alone and scale to any size.
#[derive(Clone, Copy, Debug, PartialEq, Eq, Structural)]
#[non_exhaustive]
pub enum Style {
    /// Three dots that swell one after another.
    Dots,
    /// Five pulsing vertical bars.
    Bars,
    /// A window of fading squares that runs round a ring.
    Squares,
}

impl Style {
    /// Length of one animation cycle, in ticks.
    pub open spec fn spec_period(self) -> u64 {
        match self {
            Style::Dots => crate::dots::CYCLE as u64,
            Style::Bars => crate::bars::CYCLE as u64,
            Style::Squares => crate::squares::CYCLE,
        }
    }

    /// Length of one animation cycle, in ticks.
    #[verifier::when_used_as_spec(spec_period)]
    pub fn period(self) -> (ticks: u64)
        ensures
            ticks == self.spec_period(),
    {
        match self {
            Style::Dots => crate::dots::CYCLE as u64,
            Style::Bars => crate::bars::CYCLE as u64,
            Style::Squares => crate::squares::CYCLE,
        }
    }
}

/// What a spinner is made of.
pub struct Config {
    /// Greatest width and height, in whole units.
    pub size: u32,
    pub style: Style,
}

/// An animated spinner with indeterminate progress, used to show that
/// something is loading.
///
/// A spinner keeps nothing from one frame to the next: the frame is a
/// function of the size, the style and the clock.
#[derive(Clone, Copy, Debug, PartialEq, Eq)]
pub struct Spinner {
    size: u32,
    style: Style,
}

impl View for Spinner {
    type V = Config;

    closed spec fn view(&self) -> Config {
        Config { size: self.size, style: self.style }
    }
}

/// The frame that a spinner of configuration `config` shows at clock `clock`.
pub open spec fn frame_of(config: Config, clock: nat) -> FrameView {
    match config.style {
        Style::Dots => crate::dots::frame_at(config.size, clock),
        Style::Bars => crate::bars::frame_at(config.size, clock),
        Style::Squares => crate::squares::frame_at(config.size, clock),
    }
}

impl Default for Spinner {
    /// A spinner of 40 units in the style of the dots.
    fn default() -> (spinner: Spinner)
        ensures
            spinner@.size == 40,
            spinner@.style == Style::Dots,
    {
        Spinner { size: 40, style: Style::Dots }
    }
}

impl Spinner {
    /// Sets the size of the spinner, in whole units.
    ///
    /// This is the greatest width and height: depending on the style the
    /// spinner may be shorter or narrower. A spinner of size 0 draws shapes
    /// without area.
    pub fn size(self, size: u32) -> (spinner: Spinner)
        ensures
            spinner@.size == size,
            spinner@.style == self@.style,
    {
        Spinner { size, style: self.style }
    }

    /// Sets the style of the spinner.
    pub fn style(self, style: Style) -> (spinner: Spinner)
        ensures
            spinner@.size == self@.size,
            spinner@.style == style,
    {
        Spinner { size: self.size, style }
    }

    /// The frame to draw when the clock shows `clock` ticks.
    pub fn render(&self, clock: u64) -> (frame: Frame)
        ensures
            frame@ == frame_of(self@, clock as nat),
            frame@.wf(),
            self@.size > 0 ==> frame@.has_area(),
            frame@.repaint,
    {
        proof {
            law_frame_wf(self@, clock as nat);
        }
        match self.style {
            Style::Dots => crate::dots::render(self.size, clock),
            Style::Bars => crate::bars::render(self.size, clock),
            Style::Squares => crate::squares::render(self.size, clock),
        }
    }
}

/// Every frame holds at least one shape, all its shapes are well formed, and
/// where the size is not zero each of them has an area. Every frame asks for
/// the next one.
pub proof fn law_frame_wf(config: Config, clock: nat)
    ensures
        frame_of(config, clock).wf(),
        config.size > 0 ==> frame_of(config, clock).has_area(),
        frame_of(config, clock).repaint,
{
    match config.style {
        Style::Dots => crate::dots::law_frame_wf(config.size, clock),
        Style::Bars => crate::bars::law_frame_wf(config.size, clock),
        Style::Squares => crate::squares::law_frame_wf(config.size, clock),
    }
}

/// Rendering has no memory: two spinners of one configuration, asked at one
/// clock, give frames that agree in every part.
pub proof fn law_render_deterministic(
    first: Spinner,
    second: Spinner,
    clock: u64,
    one: Frame,
    other: Frame,
)
    requires
        first@ == second@,
        one@ == frame_of(first@, clock as nat),
        other@ == frame_of(second@, clock as nat),
    ensures
        one@ == other@,
        one.shapes@ == other.shapes@,
{
}

/// The animation repeats: a whole number of cycles later the frame is the
/// same.
pub proof fn law_render_periodic(config: Config, clock: nat, turns: nat)
    ensures
        frame_of(config, clock + turns * (config.style.spec_period() as nat)) == frame_of(
            config,
            clock,
        ),
{
    match config.style {
        Style::Dots => crate::dots::law_periodic(config.size, clock, turns),
        Style::Bars => crate::bars::law_periodic(config.size, clock, turns),
        Style::Squares => crate::squares::law_periodic(config.size, clock, turns),
    }
}

} // verus!
