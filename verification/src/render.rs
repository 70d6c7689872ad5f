//! The render loop and what it draws: a full-screen quad, shaded by one
//! program that reads the elapsed time.
//!
//! Time is logical. It advances by one frame of 1/60 second per iteration,
//! whatever the wall clock says, and is counted in whole frames so that the
//! end of the run falls on an exact frame.

use crate::pipeline::{Pipeline, PipelineView};
use vstd::prelude::*;

verus! {

/// Frames per second of logical time: one iteration advances time by the
/// reciprocal of this.
pub const FRAMES_PER_SECOND: u32 = 60;

/// The length of the run in seconds.
pub const DEMO_LENGTH: u32 = 75;

/// The length of the music in seconds: three times the run, to allow for lag.
pub const MUSIC_LENGTH: u32 = DEMO_LENGTH * 3;

/// Elapsed logical time in frames of 1/60 second.
#[derive(Clone, Copy, Debug, PartialEq, Eq, Structural)]
pub struct Tick {
    /// The number of frames that have passed.
    pub frames: u64,
}

impl Tick {
    /// Whether this time lies beyond `seconds`: more than 60 frames have
    /// passed for each of them.
    pub open spec fn spec_exceeds(self, seconds: u32) -> bool {
        self.frames > 60 * seconds
    }

    /// Whether this time lies beyond `seconds`.
    pub fn exceeds(self, seconds: u32) -> (beyond: bool)
        ensures
            beyond == self.spec_exceeds(seconds),
    {
        assert(FRAMES_PER_SECOND * seconds == 60 * seconds) by (nonlinear_arith)
            requires
                FRAMES_PER_SECOND == 60,
        ;
        let limit: u64 = FRAMES_PER_SECOND as u64 * seconds as u64;
        self.frames > limit
    }

    /// The whole seconds that have passed, and the frames since the last of them.
    pub fn seconds_and_frames(self) -> (parts: (u64, u64))
        ensures
            parts.0 == self.frames / 60,
            parts.1 == self.frames % 60,
    {
        (self.frames / FRAMES_PER_SECOND as u64, self.frames % FRAMES_PER_SECOND as u64)
    }
}

/// The two states of the render loop.
#[derive(Clone, Copy, Debug, PartialEq, Eq, Structural)]
pub enum LoopState {
    /// Frames are being drawn.
    Running,
    /// The loop has ended; the process exits with the success status.
    Stopped,
}

/// How the vertices of a draw call form triangles.
#[derive(Clone, Copy, Debug, PartialEq, Eq, Structural)]
pub enum Topology {
    /// Each vertex after the second forms a triangle with the two before it.
    TriangleStrip,
}

/// A colour with four channels, each from 0 (none) to 255 (full).
#[derive(Clone, Copy, Debug, PartialEq, Eq, Structural)]
pub struct Color {
    pub red: u8,
    pub green: u8,
    pub blue: u8,
    pub alpha: u8,
}

/// Everything one iteration puts on the screen. [`Frame::commands`] gives
/// the GPU commands that draw it, in their order.
#[derive(Clone, Copy, Debug, PartialEq, Eq, Structural)]
pub struct Frame {
    /// The colour the buffer is cleared to.
    pub clear_color: Color,
    /// The program to activate.
    pub program: u32,
    /// Where the program takes the time.
    pub time_location: i32,
    /// The time to write there.
    pub time: Tick,
    /// The vertex array to bind.
    pub vertex_array: u32,
    /// How the draw call reads the vertices.
    pub topology: Topology,
    /// The first vertex of the draw call.
    pub first: i32,
    /// The number of vertices of the draw call.
    pub count: i32,
}

/// One GPU command of a frame.
#[derive(Clone, Copy, Debug, PartialEq, Eq, Structural)]
pub enum Command {
    /// Clear the colour buffer to `color`.
    Clear { color: Color },
    /// Activate `program`.
    UseProgram { program: u32 },
    /// Write `time` into the input of the active program at `location`.
    SetTime { location: i32, time: Tick },
    /// Bind the vertex array `array`.
    BindVertexArray { array: u32 },
    /// Draw `count` vertices of the bound array, from `first` on.
    DrawArrays { topology: Topology, first: i32, count: i32 },
    /// Present the frame by swapping the buffers of the surface.
    Present,
}

impl Frame {
    /// The commands that draw the frame, in the order they are issued:
    /// clear the colour buffer, activate the program, write the time into
    /// its time input, bind the vertex array, issue the one draw call, and
    /// present.
    pub open spec fn spec_commands(self) -> Seq<Command> {
        seq![
            Command::Clear { color: self.clear_color },
            Command::UseProgram { program: self.program },
            Command::SetTime { location: self.time_location, time: self.time },
            Command::BindVertexArray { array: self.vertex_array },
            Command::DrawArrays { topology: self.topology, first: self.first, count: self.count },
            Command::Present,
        ]
    }

    /// The commands that draw the frame, in the order they are issued.
    pub fn commands(&self) -> (commands: [Command; 6])
        ensures
            commands@ == self.spec_commands(),
    {
        let commands = [
            Command::Clear { color: self.clear_color },
            Command::UseProgram { program: self.program },
            Command::SetTime { location: self.time_location, time: self.time },
            Command::BindVertexArray { array: self.vertex_array },
            Command::DrawArrays { topology: self.topology, first: self.first, count: self.count },
            Command::Present,
        ];
        assert(commands@ =~= self.spec_commands());
        commands
    }
}

/// What the program is to do in one iteration of the loop.
#[derive(Clone, Copy, Debug, PartialEq, Eq, Structural)]
pub enum FrameAction {
    /// Draw and present `frame`.
    Draw { frame: Frame },
    /// Draw nothing: the loop has stopped.
    Halt,
}

/// What a [`RenderLoop`] holds.
pub struct LoopView {
    /// The objects the loop draws with.
    pub pipeline: PipelineView,
    /// Whether the loop still runs.
    pub state: LoopState,
    /// The time of the next frame.
    pub tick: Tick,
    /// The length of the run in seconds.
    pub length: u32,
}

/// The loop before its first iteration: running, at time 0.
pub open spec fn fresh(pipeline: PipelineView, length: u32) -> LoopView {
    LoopView { pipeline, state: LoopState::Running, tick: Tick { frames: 0 }, length }
}

/// The frame drawn with `pipeline` at time `tick`: cleared to transparent
/// black, then the four vertices of the quad as one triangle strip.
pub open spec fn frame_of(pipeline: PipelineView, tick: Tick) -> Frame {
    Frame {
        clear_color: Color { red: 0, green: 0, blue: 0, alpha: 0 },
        program: pipeline.program,
        time_location: pipeline.time_location,
        time: tick,
        vertex_array: pipeline.vertex_array,
        topology: Topology::TriangleStrip,
        first: 0,
        count: 4,
    }
}

/// What an iteration does: a running loop that is told to keep running
/// draws the frame of the current time; otherwise nothing is drawn.
pub open spec fn action_of(view: LoopView, keep_running: bool) -> FrameAction {
    if view.state == LoopState::Running && keep_running {
        FrameAction::Draw { frame: frame_of(view.pipeline, view.tick) }
    } else {
        FrameAction::Halt
    }
}

/// The loop after an iteration. A stopped loop stays as it is. A running
/// loop that is told to stop stops at once. Otherwise time advances by one
/// frame, and the loop stops if the new time lies beyond the length of the run.
pub open spec fn stepped(view: LoopView, keep_running: bool) -> LoopView {
    if view.state == LoopState::Stopped {
        view
    } else if !keep_running {
        LoopView { state: LoopState::Stopped, ..view }
    } else {
        let tick = Tick { frames: (view.tick.frames + 1) as u64 };
        LoopView {
            tick,
            state: if tick.spec_exceeds(view.length) {
                LoopState::Stopped
            } else {
                LoopState::Running
            },
            ..view
        }
    }
}

/// What holds of every loop: time never lies more than one frame beyond the
/// length of the run, and while the loop runs it does not lie beyond it.
pub open spec fn well_formed(view: LoopView) -> bool {
    &&& view.tick.frames <= 60 * view.length + 1
    &&& view.state == LoopState::Running ==> view.tick.frames <= 60 * view.length
}

/// The per-frame driver. The program polls the message pump, hands the
/// result to [`step`](RenderLoop::step), and draws what it is told to.
#[derive(Debug)]
pub struct RenderLoop {
    pipeline: Pipeline,
    state: LoopState,
    tick: Tick,
    length: u32,
}

impl View for RenderLoop {
    type V = LoopView;

    closed spec fn view(&self) -> LoopView {
        LoopView {
            pipeline: self.pipeline@,
            state: self.state,
            tick: self.tick,
            length: self.length,
        }
    }
}

impl RenderLoop {
    #[verifier::type_invariant]
    spec fn inv(self) -> bool {
        well_formed(self@)
    }

    /// A loop over `pipeline` that runs for [`DEMO_LENGTH`] seconds.
    pub fn new(pipeline: Pipeline) -> (render_loop: Self)
        ensures
            render_loop@ == fresh(pipeline@, DEMO_LENGTH),
            well_formed(render_loop@),
    {
        RenderLoop::with_length(pipeline, DEMO_LENGTH)
    }

    /// A loop over `pipeline` that runs for `seconds` seconds.
    pub fn with_length(pipeline: Pipeline, seconds: u32) -> (render_loop: Self)
        ensures
            render_loop@ == fresh(pipeline@, seconds),
            well_formed(render_loop@),
    {
        RenderLoop {
            pipeline,
            state: LoopState::Running,
            tick: Tick { frames: 0 },
            length: seconds,
        }
    }

    /// The state of the loop.
    pub fn state(&self) -> (state: LoopState)
        ensures
            state == self@.state,
    {
        self.state
    }

    /// Whether the loop still runs.
    pub fn is_running(&self) -> (running: bool)
        ensures
            running == (self@.state == LoopState::Running),
    {
        self.state == LoopState::Running
    }

    /// The time of the next frame.
    pub fn tick(&self) -> (tick: Tick)
        ensures
            tick == self@.tick,
    {
        self.tick
    }

    /// The length of the run in seconds.
    pub fn length(&self) -> (seconds: u32)
        ensures
            seconds == self@.length,
    {
        self.length
    }

    /// The objects the loop draws with.
    pub fn pipeline(&self) -> (pipeline: &Pipeline)
        ensures
            pipeline@ == self@.pipeline,
    {
        &self.pipeline
    }

    /// Runs one iteration. `keep_running` is what the message pump
    /// reported just before. The result says what to draw; the loop moves
    /// to its next state.
    pub fn step(&mut self, keep_running: bool) -> (action: FrameAction)
        ensures
            action == action_of(old(self)@, keep_running),
            final(self)@ == stepped(old(self)@, keep_running),
            well_formed(final(self)@),
    {
        proof {
            use_type_invariant(&*self);
        }
        match self.state {
            LoopState::Stopped => FrameAction::Halt,
            LoopState::Running => {
                if !keep_running {
                    self.state = LoopState::Stopped;
                    FrameAction::Halt
                } else {
                    let frame = Frame {
                        clear_color: Color { red: 0, green: 0, blue: 0, alpha: 0 },
                        program: self.pipeline.program(),
                        time_location: self.pipeline.time_location(),
                        time: self.tick,
                        vertex_array: self.pipeline.vertex_array(),
                        topology: Topology::TriangleStrip,
                        first: 0,
                        count: 4,
                    };
                    let tick = Tick { frames: self.tick.frames + 1 };
                    if tick.exceeds(self.length) {
                        self.state = LoopState::Stopped;
                    }
                    self.tick = tick;
                    FrameAction::Draw { frame }
                }
            },
        }
    }
}

/// The loop after one iteration for each entry of `events`, each entry being
/// what the message pump reported in that iteration.
pub open spec fn ran(view: LoopView, events: Seq<bool>) -> LoopView
    decreases events.len(),
{
    if events.len() == 0 {
        view
    } else {
        ran(stepped(view, events[0]), events.drop_first())
    }
}

/// The number of frames drawn during those iterations.
pub open spec fn drawn(view: LoopView, events: Seq<bool>) -> nat
    decreases events.len(),
{
    if events.len() == 0 {
        0
    } else {
        let here: nat = if action_of(view, events[0]) is Draw {
            1
        } else {
            0
        };
        here + drawn(stepped(view, events[0]), events.drop_first())
    }
}

/// `n` iterations in which the pump never asks to stop.
pub open spec fn uninterrupted(n: nat) -> Seq<bool> {
    Seq::new(n, |i: int| true)
}

/// An iteration keeps a loop well formed and never turns time back.
pub proof fn lemma_step_keeps_well_formed(view: LoopView, keep_running: bool)
    requires
        well_formed(view),
    ensures
        well_formed(stepped(view, keep_running)),
        stepped(view, keep_running).tick.frames >= view.tick.frames,
        stepped(view, keep_running).pipeline == view.pipeline,
        stepped(view, keep_running).length == view.length,
{
}

/// Running over a single entry is one iteration.
pub proof fn lemma_one_iteration(view: LoopView, keep_running: bool)
    ensures
        ran(view, seq![keep_running]) == stepped(view, keep_running),
        drawn(view, seq![keep_running]) == if action_of(view, keep_running) is Draw {
            1nat
        } else {
            0nat
        },
{
    let events = seq![keep_running];
    assert(events[0] == keep_running);
    assert(events.drop_first() =~= Seq::<bool>::empty());
    reveal_with_fuel(ran, 2);
    reveal_with_fuel(drawn, 2);
}

/// Iterations over `first + second` are iterations over `first` followed
/// by iterations over `second`.
pub proof fn lemma_ran_in_two_parts(view: LoopView, first: Seq<bool>, second: Seq<bool>)
    ensures
        ran(view, first + second) == ran(ran(view, first), second),
        drawn(view, first + second) == drawn(view, first) + drawn(ran(view, first), second),
    decreases first.len(),
{
    if first.len() == 0 {
        assert(first + second =~= second);
    } else {
        assert((first + second)[0] == first[0]);
        assert((first + second).drop_first() =~= first.drop_first() + second);
        lemma_ran_in_two_parts(stepped(view, first[0]), first.drop_first(), second);
    }
}

/// Whatever the pump reports and however long the loop runs, it stays well
/// formed, time never goes back, and the pipeline stays as it was: the four
/// vertices read after any number of iterations are those read before.
pub proof fn lemma_pipeline_is_invariant(view: LoopView, events: Seq<bool>)
    requires
        well_formed(view),
    ensures
        well_formed(ran(view, events)),
        ran(view, events).pipeline == view.pipeline,
        ran(view, events).pipeline.vertices == view.pipeline.vertices,
        ran(view, events).length == view.length,
        ran(view, events).tick.frames >= view.tick.frames,
    decreases events.len(),
{
    if events.len() > 0 {
        lemma_step_keeps_well_formed(view, events[0]);
        lemma_pipeline_is_invariant(stepped(view, events[0]), events.drop_first());
    }
}

/// A stopped loop stays stopped and draws nothing more.
pub proof fn lemma_stopped_is_final(view: LoopView, events: Seq<bool>)
    requires
        view.state == LoopState::Stopped,
    ensures
        ran(view, events) == view,
        drawn(view, events) == 0,
    decreases events.len(),
{
    if events.len() > 0 {
        lemma_stopped_is_final(view, events.drop_first());
    }
}

/// The iteration in which the pump asks to stop ends the loop: the loop is
/// stopped from then on, and no frame is drawn in that iteration or after it.
pub proof fn lemma_close_stops_the_loop(view: LoopView, before: Seq<bool>, after: Seq<bool>)
    ensures
        ran(view, before + seq![false] + after).state == LoopState::Stopped,
        ran(view, before + seq![false] + after) == stepped(ran(view, before), false),
        drawn(view, before + seq![false] + after) == drawn(view, before),
{
    let at_close = ran(view, before);
    let closed = stepped(at_close, false);
    let close = seq![false];
    lemma_one_iteration(at_close, false);
    lemma_ran_in_two_parts(view, before, close);
    lemma_ran_in_two_parts(view, before + close, after);
    lemma_stopped_is_final(closed, after);
}

/// A running loop that is not interrupted keeps running, and draws one
/// frame per iteration, for as long as time does not lie beyond the length
/// of the run.
pub proof fn lemma_running_advances(view: LoopView, n: nat)
    requires
        view.state == LoopState::Running,
        view.tick.frames + n <= 60 * view.length,
    ensures
        ran(view, uninterrupted(n)) == (LoopView {
            tick: Tick { frames: (view.tick.frames + n) as u64 },
            ..view
        }),
        drawn(view, uninterrupted(n)) == n,
    decreases n,
{
    if n > 0 {
        assert(uninterrupted(n).drop_first() =~= uninterrupted((n - 1) as nat));
        lemma_running_advances(stepped(view, true), (n - 1) as nat);
    }
}

/// A run that nothing interrupts. After `n` iterations with `n` frames of
/// time within the length of the run, the loop still runs, stands at time
/// `n`, and has drawn `n` frames. The first iteration that takes time beyond
/// the length, the one after `60 * length` others, draws its frame and
/// stops the loop in that same iteration.
pub proof fn lemma_runs_for_its_length(pipeline: PipelineView, length: u32, n: nat)
    requires
        n <= 60 * length + 1,
    ensures
        n <= 60 * length ==> ran(fresh(pipeline, length), uninterrupted(n)) == (LoopView {
            pipeline,
            state: LoopState::Running,
            tick: Tick { frames: n as u64 },
            length,
        }),
        n == 60 * length + 1 ==> ran(fresh(pipeline, length), uninterrupted(n)) == (LoopView {
            pipeline,
            state: LoopState::Stopped,
            tick: Tick { frames: n as u64 },
            length,
        }),
        drawn(fresh(pipeline, length), uninterrupted(n)) == n,
{
    let start = fresh(pipeline, length);
    if n <= 60 * length {
        lemma_running_advances(start, n);
    } else {
        let full = (n - 1) as nat;
        lemma_running_advances(start, full);
        let last = seq![true];
        assert(uninterrupted(n) =~= uninterrupted(full) + last);
        lemma_one_iteration(ran(start, uninterrupted(full)), true);
        lemma_ran_in_two_parts(start, uninterrupted(full), last);
    }
}

} // verus!
