//! The render loop: fixed startup parameters, the per-frame decisions,
//! and the rule that a failed setup never reaches the loop.
//!
//! One iteration drains the pending events, clears the framebuffer to the
//! fixed color, activates the program and geometry, assigns the animated
//! uniform, draws the six indices as triangles, presents, and advances
//! the time accumulator by one step. The loop renders only while it is
//! running: an iteration may begin only in the running state, so once a
//! close is observed at the top of an iteration no further frame is drawn.

use vstd::prelude::*;

use crate::animation::animation_level;
use crate::animation::spec_animation_level;
use crate::animation::UNIT_SCALE;
use crate::events::actions_for;
use crate::events::action_for;
use crate::events::process_events;
use crate::events::state_after;
use crate::events::EventAction;
use crate::events::LoopState;
use crate::events::WindowEvent;
use crate::shader::ShaderBuild;
use crate::timing::TimeAccumulator;
use crate::timing::TIME_STEP_MICROS;

verus! {

/// Red channel of the fixed clear color, in millionths.
pub const CLEAR_RED_MICRO: u32 = 200_000;

/// Green channel of the fixed clear color, in millionths.
pub const CLEAR_GREEN_MICRO: u32 = 200_000;

/// Blue channel of the fixed clear color, in millionths.
pub const CLEAR_BLUE_MICRO: u32 = 200_000;

/// Alpha channel of the fixed clear color, in millionths.
pub const CLEAR_ALPHA_MICRO: u32 = 1_000_000;

/// Number of indices drawn per frame: two triangles.
pub const QUAD_INDEX_COUNT: u32 = 6;

/// Window parameters fixed at startup.
#[derive(Clone, Copy, PartialEq, Eq, Structural, Debug)]
pub struct WindowConfig {
    /// Logical window width.
    pub width: u32,
    /// Logical window height.
    pub height: u32,
    /// Requested graphics context version, major part.
    pub context_major: u32,
    /// Requested graphics context version, minor part.
    pub context_minor: u32,
}

/// The window the demo opens: eight hundred pixels square, with a
/// version three-point-three core-profile context.
pub fn initial_window_config() -> (c: WindowConfig)
    ensures
        c.width == 800,
        c.height == 800,
        c.context_major == 3,
        c.context_minor == 3,
{
    WindowConfig { width: 800, height: 800, context_major: 3, context_minor: 3 }
}

/// The window's title.
pub fn window_title() -> (t: &'static str)
    ensures
        t@ == "Game Engine"@,
{
    "Game Engine"
}

/// The name of the animated uniform.
pub fn uniform_name() -> (n: &'static str)
    ensures
        n@ == "z"@,
{
    "z"
}

/// The drawing commands of one frame, as plain values.
#[derive(Clone, Copy, PartialEq, Eq, Structural, Debug)]
pub struct FrameCommands {
    /// Clear color, red channel, in millionths.
    pub clear_red_micro: u32,
    /// Clear color, green channel, in millionths.
    pub clear_green_micro: u32,
    /// Clear color, blue channel, in millionths.
    pub clear_blue_micro: u32,
    /// Clear color, alpha channel, in millionths.
    pub clear_alpha_micro: u32,
    /// Value assigned to the animated uniform, in millionths.
    pub uniform_level_micro: u32,
    /// Number of indices the draw call covers.
    pub index_count: u32,
}

/// The render loop's whole evolving state: whether it still runs, and the
/// time accumulator.
#[derive(Clone, Copy, PartialEq, Eq, Structural, Debug)]
pub struct RenderLoop {
    /// Running or closing.
    pub state: LoopState,
    /// Elapsed animation time.
    pub time: TimeAccumulator,
}

impl RenderLoop {
    /// The accumulator keeps its exact-step invariant.
    pub open spec fn wf(self) -> bool {
        self.time.wf()
    }

    /// Start the loop, but only over a shader build whose every stage
    /// succeeded: a failed setup never reaches the loop.
    pub fn start(build: &ShaderBuild) -> (r: Option<RenderLoop>)
        ensures
            r is Some <==> *build == ShaderBuild::Ready,
            r matches Some(rl) ==> rl.wf() && rl.state == LoopState::Running
                && rl.time.frames == 0 && rl.time.micros == 0,
    {
        match build {
            ShaderBuild::Ready => Some(
                RenderLoop { state: LoopState::Running, time: TimeAccumulator::new() },
            ),
            _ => None,
        }
    }

    /// Whether the loop, observed at the top of an iteration, may render
    /// another frame.
    pub fn should_render(&self) -> (r: bool)
        ensures
            r == (self.state == LoopState::Running),
    {
        match self.state {
            LoopState::Running => true,
            LoopState::Closing => false,
        }
    }

    /// One iteration of the loop, begun in the running state: decide the
    /// action of every polled event and the state the loop is in
    /// afterwards, fix this frame's clear color, uniform value and draw
    /// call, and advance the time accumulator by one step.
    ///
    /// The sine sample is taken of the elapsed time before the step is
    /// added, in millionths of a unit; the uniform lands in the unit
    /// interval for every admissible sample.
    pub fn frame(&mut self, events: &Vec<WindowEvent>, sin_micro: i32) -> (r: (
        Vec<EventAction>,
        FrameCommands,
    ))
        requires
            old(self).wf(),
            old(self).state == LoopState::Running,
            old(self).time.micros + TIME_STEP_MICROS <= u64::MAX,
            -UNIT_SCALE <= sin_micro <= UNIT_SCALE,
        ensures
            final(self).wf(),
            r.0@ == actions_for(events@),
            r.0@.len() == events@.len(),
            forall|i: int| 0 <= i < events@.len() ==> r.0@[i] == action_for(events@[i]),
            final(self).state == state_after(LoopState::Running, events@),
            r.1.uniform_level_micro == spec_animation_level(sin_micro as int),
            0 <= r.1.uniform_level_micro <= UNIT_SCALE,
            r.1.clear_red_micro == CLEAR_RED_MICRO,
            r.1.clear_green_micro == CLEAR_GREEN_MICRO,
            r.1.clear_blue_micro == CLEAR_BLUE_MICRO,
            r.1.clear_alpha_micro == CLEAR_ALPHA_MICRO,
            r.1.index_count == QUAD_INDEX_COUNT,
            final(self).time.frames == old(self).time.frames + 1,
            final(self).time.micros == old(self).time.micros + TIME_STEP_MICROS,
    {
        let (st, actions) = process_events(self.state, events);
        self.state = st;
        let level = animation_level(sin_micro);
        let commands = FrameCommands {
            clear_red_micro: CLEAR_RED_MICRO,
            clear_green_micro: CLEAR_GREEN_MICRO,
            clear_blue_micro: CLEAR_BLUE_MICRO,
            clear_alpha_micro: CLEAR_ALPHA_MICRO,
            uniform_level_micro: level,
            index_count: QUAD_INDEX_COUNT,
        };
        self.time.advance();
        (actions, commands)
    }
}

} // verus!
