//! The stages that make up one frame, in the order they run, and which of
//! them run in a given frame.
use vstd::prelude::*;
use crate::clock::{only_on_tick, TickClock};

verus! {

/// A named phase of a frame, to which systems are attached.
#[derive(Clone, Copy, Debug, PartialEq, Eq, Structural)]
pub enum Stage {
    /// Reads the mouse and keyboard.
    Ui,
    /// Advances the tick clock.
    Setup,
    /// Steps the simulation; runs only in frames in which a tick is due.
    Tick,
    /// Moves what is drawn between ticks.
    Animation,
}

/// Marks an entity whose setup has not run yet.
#[derive(Clone, Copy, Debug, PartialEq, Eq, Structural)]
pub struct SetupNeeded;

/// The stages of a frame, in the order in which they run.
pub open spec fn frame_order_spec() -> Seq<Stage> {
    seq![Stage::Ui, Stage::Setup, Stage::Tick, Stage::Animation]
}

impl Stage {
    /// The stages of a frame, in the order in which they run.
    pub fn frame_order() -> (r: Vec<Stage>)
        ensures
            r@ == frame_order_spec(),
    {
        let r = vec![Stage::Ui, Stage::Setup, Stage::Tick, Stage::Animation];
        assert(r@ =~= frame_order_spec());
        r
    }

    /// The name under which the stage is registered with the scheduler.
    pub fn name(self) -> (r: &'static str)
        ensures
            self == Stage::Ui ==> r@ == "factory_ui"@,
            self == Stage::Setup ==> r@ == "factory_setup"@,
            self == Stage::Tick ==> r@ == "factory_tick"@,
            self == Stage::Animation ==> r@ == "factory_animation"@,
    {
        match self {
            Stage::Ui => "factory_ui",
            Stage::Setup => "factory_setup",
            Stage::Tick => "factory_tick",
            Stage::Animation => "factory_animation",
        }
    }

    /// Whether the stage runs in the frame whose clock is `tick_clock` (read
    /// after the setup stage has advanced it): every stage does but the tick
    /// stage, which runs only when a tick is due.
    pub fn runs_this_frame(self, tick_clock: &TickClock) -> (r: bool)
        ensures
            r == (self != Stage::Tick || tick_clock@.ticked),
    {
        match self {
            Stage::Tick => only_on_tick(tick_clock),
            _ => true,
        }
    }
}

} // verus!
