//! The program as a whole, from its entry point to the end of the process.
//!
//! The program is a state machine: it names the next thing to do, the
//! platform does it and reports back. First the window and its rendering
//! context are created, then the music is started, then the shader pipeline
//! is set up, then frames are drawn until the pump reports the quit message
//! or time runs out. A fault on the way ends the program before a single
//! frame is drawn. Nothing is torn down at the end: the system takes back
//! what the process held.

use crate::bootstrap::{
    create, Bootstrap, BootstrapState, DrawableContext, DrawableView, Request, Stage,
    WindowHandle,
};
use crate::fault::{
    fault_response, spec_fault_response, Fault, FaultPolicy, FaultResponse, EXIT_FAULT,
    EXIT_SUCCESS,
};
use crate::pipeline::{
    spec_quad, PipelineView, Setup, SetupReply, SetupRequest, SetupStage, SetupState,
};
use crate::render::{
    fresh, Frame, FrameAction, LoopState, LoopView, RenderLoop, Tick, DEMO_LENGTH,
};
use vstd::prelude::*;

verus! {

/// What the platform is to do next.
#[derive(Clone, Copy, Debug, PartialEq, Eq)]
pub enum Action {
    /// Perform a request of the window bootstrap and report its answer.
    Platform { request: Request },
    /// Start the music, without waiting for it, and report that it started.
    PlayMusic,
    /// Issue a command of the pipeline setup and report its answer.
    Gpu { command: SetupRequest },
    /// Drain the message queue without blocking and report whether the
    /// program is to keep running.
    PumpMessages,
    /// Draw `frame`, present it on `surface`, and report that it was presented.
    Draw { frame: Frame, surface: isize },
    /// End the process with `status`.
    Exit { status: u32 },
    /// End the process as `response` says.
    Abort { response: FaultResponse },
}

/// What the platform reports back.
#[derive(Clone, Copy, Debug, PartialEq, Eq, Structural)]
pub enum Event {
    /// The answer to a request of the window bootstrap.
    Platform { reply: isize },
    /// The music has been started.
    MusicStarted,
    /// The answer to a command of the pipeline setup.
    Gpu { answer: SetupReply },
    /// The message queue has been drained.
    Pumped { keep_running: bool },
    /// The frame has been presented.
    Presented,
}

/// The state of the program.
pub enum ProgramView {
    /// The window and its context are being created.
    Bootstrapping { bootstrap: BootstrapState },
    /// The window exists; the music is about to start.
    StartingMusic { policy: FaultPolicy, window: isize, context: DrawableView },
    /// The music plays; the pipeline is being set up.
    SettingUp { window: isize, context: DrawableView, setup: SetupState },
    /// The loop waits for the message pump.
    Polling { window: isize, context: DrawableView, render_loop: LoopView },
    /// The loop waits for `frame` to be presented.
    Presenting { window: isize, context: DrawableView, render_loop: LoopView, frame: Frame },
    /// The run is over.
    Exited { status: u32 },
    /// A fault ended the run.
    Aborted { policy: FaultPolicy, fault: Fault },
}

/// The state the program starts in.
pub open spec fn started(policy: FaultPolicy) -> ProgramView {
    ProgramView::Bootstrapping { bootstrap: crate::bootstrap::initial(policy) }
}

/// The context that a finished bootstrap has created.
pub open spec fn context_of(bootstrap: BootstrapState) -> DrawableView {
    DrawableView {
        surface: bootstrap.surface,
        gpu: bootstrap.context,
        pixel_format: bootstrap.format,
    }
}

/// The pipeline that a finished setup has built.
pub open spec fn pipeline_of(setup: SetupState) -> PipelineView {
    PipelineView {
        program: setup.program,
        time_location: setup.time_location,
        vertex_array: setup.vertex_array,
        vertex_buffer: setup.vertex_buffer,
        vertices: spec_quad(),
    }
}

/// What the platform is to do in a state.
pub open spec fn action_of(view: ProgramView) -> Action {
    match view {
        ProgramView::Bootstrapping { bootstrap } => Action::Platform {
            request: crate::bootstrap::request_of(bootstrap),
        },
        ProgramView::StartingMusic { .. } => Action::PlayMusic,
        ProgramView::SettingUp { setup, .. } => Action::Gpu {
            command: crate::pipeline::request_of(setup),
        },
        ProgramView::Polling { .. } => Action::PumpMessages,
        ProgramView::Presenting { context, frame, .. } => Action::Draw {
            frame,
            surface: context.surface,
        },
        ProgramView::Exited { status } => Action::Exit { status },
        ProgramView::Aborted { policy, fault } => Action::Abort {
            response: spec_fault_response(policy, fault),
        },
    }
}

/// The state after `event`. An event that does not answer the action of the
/// state changes nothing, and a program that has ended stays as it is.
///
/// The bootstrap and the setup take their answers; when one of them is
/// ready the next phase begins, and when one fails the program is aborted
/// with its fault. The loop takes the pump's report: it either halts, and the
/// program exits with the success status, or draws a frame. Once the frame
/// is presented the loop polls again, unless that frame was the one that took
/// time beyond the length of the run: then the program exits with the success
/// status.
pub open spec fn advanced(view: ProgramView, event: Event) -> ProgramView {
    match (view, event) {
        (ProgramView::Bootstrapping { bootstrap }, Event::Platform { reply }) => {
            let next = crate::bootstrap::advanced(bootstrap, reply);
            match next.stage {
                Stage::Ready => ProgramView::StartingMusic {
                    policy: next.policy,
                    window: next.window,
                    context: context_of(next),
                },
                Stage::Failed { fault } => ProgramView::Aborted { policy: next.policy, fault },
                _ => ProgramView::Bootstrapping { bootstrap: next },
            }
        },
        (ProgramView::StartingMusic { policy, window, context }, Event::MusicStarted) => {
            ProgramView::SettingUp { window, context, setup: crate::pipeline::initial(policy) }
        },
        (ProgramView::SettingUp { window, context, setup }, Event::Gpu { answer: reply }) => {
            let next = crate::pipeline::advanced(setup, reply);
            match next.stage {
                SetupStage::Ready => ProgramView::Polling {
                    window,
                    context,
                    render_loop: fresh(pipeline_of(next), DEMO_LENGTH),
                },
                SetupStage::Failed { fault } => ProgramView::Aborted {
                    policy: next.policy,
                    fault,
                },
                _ => ProgramView::SettingUp { window, context, setup: next },
            }
        },
        (ProgramView::Polling { window, context, render_loop }, Event::Pumped { keep_running }) => {
            match crate::render::action_of(render_loop, keep_running) {
                FrameAction::Draw { frame } => ProgramView::Presenting {
                    window,
                    context,
                    render_loop: crate::render::stepped(render_loop, keep_running),
                    frame,
                },
                FrameAction::Halt => ProgramView::Exited { status: EXIT_SUCCESS },
            }
        },
        (ProgramView::Presenting { window, context, render_loop, .. }, Event::Presented) => {
            if render_loop.state == LoopState::Running {
                ProgramView::Polling { window, context, render_loop }
            } else {
                ProgramView::Exited { status: EXIT_SUCCESS }
            }
        },
        _ => view,
    }
}

/// The program. Ask for the [`action`](Program::action), perform it, hand
/// what happened to [`advance`](Program::advance), until the action is
/// `Exit` or `Abort`.
#[derive(Debug)]
pub enum Program {
    Bootstrapping { bootstrap: Bootstrap },
    StartingMusic { policy: FaultPolicy, window: WindowHandle, context: DrawableContext },
    SettingUp { window: WindowHandle, context: DrawableContext, setup: Setup },
    Polling { window: WindowHandle, context: DrawableContext, render_loop: RenderLoop },
    Presenting {
        window: WindowHandle,
        context: DrawableContext,
        render_loop: RenderLoop,
        frame: Frame,
    },
    Exited { status: u32 },
    Aborted { policy: FaultPolicy, fault: Fault },
}

impl View for Program {
    type V = ProgramView;

    open spec fn view(&self) -> ProgramView {
        match *self {
            Program::Bootstrapping { bootstrap } => ProgramView::Bootstrapping {
                bootstrap: bootstrap@,
            },
            Program::StartingMusic { policy, window, context } => ProgramView::StartingMusic {
                policy,
                window: window@,
                context: context@,
            },
            Program::SettingUp { window, context, setup } => ProgramView::SettingUp {
                window: window@,
                context: context@,
                setup: setup@,
            },
            Program::Polling { window, context, render_loop } => ProgramView::Polling {
                window: window@,
                context: context@,
                render_loop: render_loop@,
            },
            Program::Presenting { window, context, render_loop, frame } => {
                ProgramView::Presenting {
                    window: window@,
                    context: context@,
                    render_loop: render_loop@,
                    frame,
                }
            },
            Program::Exited { status } => ProgramView::Exited { status },
            Program::Aborted { policy, fault } => ProgramView::Aborted { policy, fault },
        }
    }
}

/// Starts the program under `policy`: the state in which the entry point of
/// the executable begins.
#[allow(non_snake_case)]
pub fn WinMainCRTStartup(policy: FaultPolicy) -> (program: Program)
    ensures
        program@ == started(policy),
{
    Program::Bootstrapping { bootstrap: create(policy) }
}

impl Program {
    /// What the platform is to do next.
    pub fn action(&self) -> (action: Action)
        ensures
            action == action_of(self@),
    {
        match self {
            Program::Bootstrapping { bootstrap } => Action::Platform {
                request: bootstrap.request(),
            },
            Program::StartingMusic { .. } => Action::PlayMusic,
            Program::SettingUp { setup, .. } => Action::Gpu { command: setup.request() },
            Program::Polling { .. } => Action::PumpMessages,
            Program::Presenting { context, frame, .. } => Action::Draw {
                frame: *frame,
                surface: context.surface(),
            },
            Program::Exited { status } => Action::Exit { status: *status },
            Program::Aborted { policy, fault } => Action::Abort {
                response: fault_response(*policy, *fault),
            },
        }
    }

    /// Takes what the platform reports and moves on.
    pub fn advance(self, event: Event) -> (next: Program)
        ensures
            next@ == advanced(self@, event),
    {
        match (self, event) {
            (Program::Bootstrapping { bootstrap }, Event::Platform { reply }) => {
                let mut bootstrap = bootstrap;
                bootstrap.advance(reply);
                let policy = bootstrap.policy();
                match bootstrap.stage() {
                    Stage::Ready => match bootstrap.finish() {
                        Some((window, context)) => Program::StartingMusic {
                            policy,
                            window,
                            context,
                        },
                        None => Program::Aborted { policy, fault: Fault::Invariant },
                    },
                    Stage::Failed { fault } => Program::Aborted { policy, fault },
                    _ => Program::Bootstrapping { bootstrap },
                }
            },
            (Program::StartingMusic { policy, window, context }, Event::MusicStarted) => {
                Program::SettingUp { window, context, setup: Setup::new(policy) }
            },
            (Program::SettingUp { window, context, setup }, Event::Gpu { answer: reply }) => {
                let mut setup = setup;
                setup.advance(reply);
                let policy = setup.policy();
                match setup.stage() {
                    SetupStage::Ready => match setup.finish() {
                        Some(pipeline) => Program::Polling {
                            window,
                            context,
                            render_loop: RenderLoop::new(pipeline),
                        },
                        None => Program::Aborted { policy, fault: Fault::Invariant },
                    },
                    SetupStage::Failed { fault } => Program::Aborted { policy, fault },
                    _ => Program::SettingUp { window, context, setup },
                }
            },
            (
                Program::Polling { window, context, render_loop },
                Event::Pumped { keep_running },
            ) => {
                let mut render_loop = render_loop;
                match render_loop.step(keep_running) {
                    FrameAction::Draw { frame } => Program::Presenting {
                        window,
                        context,
                        render_loop,
                        frame,
                    },
                    FrameAction::Halt => Program::Exited { status: EXIT_SUCCESS },
                }
            },
            (Program::Presenting { window, context, render_loop, frame }, Event::Presented) => {
                if render_loop.is_running() {
                    Program::Polling { window, context, render_loop }
                } else {
                    Program::Exited { status: EXIT_SUCCESS }
                }
            },
            (program, _) => program,
        }
    }
}

/// Whether the program has ended, by exit or by abort.
pub open spec fn ended(view: ProgramView) -> bool {
    view is Exited || view is Aborted
}

/// What holds of every state the program reaches: while the bootstrap or the
/// setup is under way it has not ended, the loop runs whenever the program
/// polls, and the loop is always well formed.
pub open spec fn well_formed(view: ProgramView) -> bool {
    match view {
        ProgramView::Bootstrapping { bootstrap } => !crate::bootstrap::ended(bootstrap.stage),
        ProgramView::SettingUp { setup, .. } => !crate::pipeline::ended(setup.stage),
        ProgramView::Polling { render_loop, .. } => render_loop.state == LoopState::Running
            && crate::render::well_formed(render_loop),
        ProgramView::Presenting { render_loop, .. } => crate::render::well_formed(render_loop),
        _ => true,
    }
}

/// The state after `events`, one after the other.
pub open spec fn run(view: ProgramView, events: Seq<Event>) -> ProgramView
    decreases events.len(),
{
    if events.len() == 0 {
        view
    } else {
        run(advanced(view, events[0]), events.drop_first())
    }
}

/// The number of frames the program is told to draw while `events` arrive:
/// the number of times it goes from polling to presenting.
pub open spec fn frames_drawn(view: ProgramView, events: Seq<Event>) -> nat
    decreases events.len(),
{
    if events.len() == 0 {
        0
    } else {
        let next = advanced(view, events[0]);
        let here: nat = if view is Polling && next is Presenting {
            1
        } else {
            0
        };
        here + frames_drawn(next, events.drop_first())
    }
}

/// `n` iterations of the loop in which the pump never asks to stop: the
/// pump's report and the presentation of the frame, `n` times over.
pub open spec fn uninterrupted(n: nat) -> Seq<Event>
    decreases n,
{
    if n == 0 {
        Seq::<Event>::empty()
    } else {
        seq![Event::Pumped { keep_running: true }, Event::Presented] + uninterrupted(
            (n - 1) as nat,
        )
    }
}

/// The program starts well formed and every event keeps it so.
pub proof fn lemma_stays_well_formed(policy: FaultPolicy, view: ProgramView, event: Event)
    ensures
        well_formed(started(policy)),
        well_formed(view) ==> well_formed(advanced(view, event)),
{
    if well_formed(view) {
        match view {
            ProgramView::Polling { render_loop, .. } => {
                match event {
                    Event::Pumped { keep_running } => {
                        crate::render::lemma_step_keeps_well_formed(render_loop, keep_running);
                    },
                    _ => {},
                }
            },
            _ => {},
        }
    }
}

/// A program that has ended stays as it is and draws nothing more.
pub proof fn lemma_ended_is_final(view: ProgramView, events: Seq<Event>)
    requires
        ended(view),
    ensures
        run(view, events) == view,
        frames_drawn(view, events) == 0,
    decreases events.len(),
{
    if events.len() > 0 {
        lemma_ended_is_final(view, events.drop_first());
    }
}

/// Running over `first + second` is running over `first` and then over
/// `second`.
pub proof fn lemma_run_in_two_parts(view: ProgramView, first: Seq<Event>, second: Seq<Event>)
    ensures
        run(view, first + second) == run(run(view, first), second),
        frames_drawn(view, first + second) == frames_drawn(view, first) + frames_drawn(
            run(view, first),
            second,
        ),
    decreases first.len(),
{
    if first.len() == 0 {
        assert(first + second =~= second);
    } else {
        assert((first + second)[0] == first[0]);
        assert((first + second).drop_first() =~= first.drop_first() + second);
        lemma_run_in_two_parts(advanced(view, first[0]), first.drop_first(), second);
    }
}

/// Under the diagnostic policy a checked step of the bootstrap that is
/// answered with 0 aborts the program with that step's fault. The next action
/// shows the error notification and ends the process with a nonzero status.
/// Whatever is reported after, the program stays aborted: it never sets up
/// the pipeline, never polls, and never draws a frame.
pub proof fn lemma_failed_bootstrap_aborts(
    bootstrap: BootstrapState,
    fault: Fault,
    rest: Seq<Event>,
)
    requires
        bootstrap.policy == FaultPolicy::Diagnostic,
        crate::bootstrap::check_of(bootstrap.stage) == Some(fault),
    ensures
        ({
            let view = ProgramView::Bootstrapping { bootstrap };
            let failure = seq![Event::Platform { reply: 0 }];
            let aborted = ProgramView::Aborted { policy: FaultPolicy::Diagnostic, fault };
            &&& advanced(view, Event::Platform { reply: 0 }) == aborted
            &&& action_of(aborted) == Action::Abort {
                response: spec_fault_response(FaultPolicy::Diagnostic, fault),
            }
            &&& spec_fault_response(FaultPolicy::Diagnostic, fault) matches FaultResponse::Abort {
                status,
                ..
            } && status == EXIT_FAULT && status != 0
            &&& run(view, failure + rest) == aborted
            &&& frames_drawn(view, failure + rest) == 0
        }),
{
    let view = ProgramView::Bootstrapping { bootstrap };
    let failure = seq![Event::Platform { reply: 0 }];
    let aborted = ProgramView::Aborted { policy: FaultPolicy::Diagnostic, fault };
    let events = failure + rest;
    assert(events[0] == Event::Platform { reply: 0 });
    assert(events.drop_first() =~= rest);
    assert(advanced(view, events[0]) == aborted);
    lemma_ended_is_final(aborted, rest);
}

/// Under the diagnostic policy a shader that does not compile or a program
/// that does not link aborts the program with that fault, for good and
/// before any frame is drawn.
pub proof fn lemma_failed_setup_aborts(
    window: isize,
    context: DrawableView,
    setup: SetupState,
    fault: Fault,
    reply: SetupReply,
    rest: Seq<Event>,
)
    requires
        setup.policy == FaultPolicy::Diagnostic,
        crate::pipeline::check_of(setup.stage) == Some(fault),
        crate::pipeline::object_of(reply) == 0,
    ensures
        ({
            let view = ProgramView::SettingUp { window, context, setup };
            let aborted = ProgramView::Aborted { policy: FaultPolicy::Diagnostic, fault };
            &&& advanced(view, Event::Gpu { answer: reply }) == aborted
            &&& run(view, seq![Event::Gpu { answer: reply }] + rest) == aborted
            &&& frames_drawn(view, seq![Event::Gpu { answer: reply }] + rest) == 0
        }),
{
    let view = ProgramView::SettingUp { window, context, setup };
    let aborted = ProgramView::Aborted { policy: FaultPolicy::Diagnostic, fault };
    let events = seq![Event::Gpu { answer: reply }] + rest;
    assert(events[0] == Event::Gpu { answer: reply });
    assert(events.drop_first() =~= rest);
    assert(advanced(view, events[0]) == aborted);
    lemma_ended_is_final(aborted, rest);
}

/// When the pump reports the quit message the program exits in that same
/// iteration with the success status, and no frame is drawn in that
/// iteration or after it.
pub proof fn lemma_quit_exits_at_once(
    window: isize,
    context: DrawableView,
    render_loop: LoopView,
    rest: Seq<Event>,
)
    ensures
        ({
            let view = ProgramView::Polling { window, context, render_loop };
            let quit = seq![Event::Pumped { keep_running: false }];
            let exited = ProgramView::Exited { status: EXIT_SUCCESS };
            &&& advanced(view, Event::Pumped { keep_running: false }) == exited
            &&& action_of(exited) == Action::Exit { status: 0 }
            &&& run(view, quit + rest) == exited
            &&& frames_drawn(view, quit + rest) == 0
        }),
{
    let view = ProgramView::Polling { window, context, render_loop };
    let exited = ProgramView::Exited { status: EXIT_SUCCESS };
    let events = seq![Event::Pumped { keep_running: false }] + rest;
    assert(events[0] == Event::Pumped { keep_running: false });
    assert(events.drop_first() =~= rest);
    assert(advanced(view, events[0]) == exited);
    lemma_ended_is_final(exited, rest);
}

/// One uninterrupted iteration of a running loop draws the frame of the
/// current time; after it the program polls again with time one frame on,
/// unless that takes time beyond the length of the run: then it has exited
/// with the success status.
pub proof fn lemma_one_iteration(window: isize, context: DrawableView, render_loop: LoopView)
    requires
        render_loop.state == LoopState::Running,
        crate::render::well_formed(render_loop),
    ensures
        ({
            let view = ProgramView::Polling { window, context, render_loop };
            let next = LoopView {
                tick: Tick { frames: (render_loop.tick.frames + 1) as u64 },
                ..render_loop
            };
            &&& advanced(view, Event::Pumped { keep_running: true }) == ProgramView::Presenting {
                window,
                context,
                render_loop: crate::render::stepped(render_loop, true),
                frame: crate::render::frame_of(render_loop.pipeline, render_loop.tick),
            }
            &&& run(view, uninterrupted(1)) == if render_loop.tick.frames + 1 <= 60
                * render_loop.length {
                ProgramView::Polling { window, context, render_loop: next }
            } else {
                ProgramView::Exited { status: EXIT_SUCCESS }
            }
            &&& frames_drawn(view, uninterrupted(1)) == 1
        }),
{
    let view = ProgramView::Polling { window, context, render_loop };
    let events = uninterrupted(1);
    reveal_with_fuel(uninterrupted, 2);
    assert(events =~= seq![Event::Pumped { keep_running: true }, Event::Presented]);
    let rest = events.drop_first();
    assert(rest =~= seq![Event::Presented]);
    assert(rest.drop_first() =~= Seq::<Event>::empty());
    reveal_with_fuel(run, 3);
    reveal_with_fuel(frames_drawn, 3);
}

/// A run that nothing interrupts. Starting from a loop at time 0, after `n`
/// iterations with `n` frames of time within the length of the run the
/// program polls again, its loop stands at time `n`, and `n` frames have been
/// drawn. The iteration after `60 * length` others draws its frame, takes
/// time beyond the length, and the program exits with the success status.
pub proof fn lemma_runs_for_its_length(
    window: isize,
    context: DrawableView,
    pipeline: PipelineView,
    length: u32,
    n: nat,
)
    requires
        n <= 60 * length + 1,
    ensures
        ({
            let view = ProgramView::Polling {
                window,
                context,
                render_loop: fresh(pipeline, length),
            };
            &&& n <= 60 * length ==> run(view, uninterrupted(n)) == ProgramView::Polling {
                window,
                context,
                render_loop: LoopView {
                    tick: Tick { frames: n as u64 },
                    ..fresh(pipeline, length)
                },
            }
            &&& n == 60 * length + 1 ==> run(view, uninterrupted(n)) == ProgramView::Exited {
                status: EXIT_SUCCESS,
            }
            &&& frames_drawn(view, uninterrupted(n)) == n
        }),
{
    lemma_running_advances(window, context, fresh(pipeline, length), n);
}

/// The same from any running loop: `n` uninterrupted iterations advance
/// time by `n` frames and draw `n` frames, and the program exits with the
/// success status in the iteration that takes time beyond the length.
pub proof fn lemma_running_advances(
    window: isize,
    context: DrawableView,
    render_loop: LoopView,
    n: nat,
)
    requires
        render_loop.state == LoopState::Running,
        crate::render::well_formed(render_loop),
        render_loop.tick.frames + n <= 60 * render_loop.length + 1,
    ensures
        ({
            let view = ProgramView::Polling { window, context, render_loop };
            &&& render_loop.tick.frames + n <= 60 * render_loop.length ==> run(
                view,
                uninterrupted(n),
            ) == ProgramView::Polling {
                window,
                context,
                render_loop: LoopView {
                    tick: Tick { frames: (render_loop.tick.frames + n) as u64 },
                    ..render_loop
                },
            }
            &&& n > 0 && render_loop.tick.frames + n == 60 * render_loop.length + 1 ==> run(
                view,
                uninterrupted(n),
            ) == ProgramView::Exited { status: EXIT_SUCCESS }
            &&& frames_drawn(view, uninterrupted(n)) == n
        }),
    decreases n,
{
    let view = ProgramView::Polling { window, context, render_loop };
    if n > 0 {
        let rest = (n - 1) as nat;
        assert(uninterrupted(n) == uninterrupted(1) + uninterrupted(rest)) by {
            reveal_with_fuel(uninterrupted, 2);
            assert(uninterrupted(1) =~= seq![
                Event::Pumped { keep_running: true },
                Event::Presented,
            ]);
        }
        lemma_one_iteration(window, context, render_loop);
        lemma_run_in_two_parts(view, uninterrupted(1), uninterrupted(rest));
        if render_loop.tick.frames + 1 <= 60 * render_loop.length {
            let next = LoopView {
                tick: Tick { frames: (render_loop.tick.frames + 1) as u64 },
                ..render_loop
            };
            lemma_running_advances(window, context, next, rest);
        } else {
            lemma_ended_is_final(
                ProgramView::Exited { status: EXIT_SUCCESS },
                uninterrupted(rest),
            );
        }
    }
}

/// The pipeline that the loop of a state draws with, once there is a loop.
pub open spec fn pipeline_in(view: ProgramView) -> Option<PipelineView> {
    match view {
        ProgramView::Polling { render_loop, .. } => Some(render_loop.pipeline),
        ProgramView::Presenting { render_loop, .. } => Some(render_loop.pipeline),
        _ => None,
    }
}

/// From the first poll to the end of the run the pipeline stays as it was
/// set up: the program, the buffer and its four vertices are the same after
/// any number of iterations as before them.
pub proof fn lemma_pipeline_never_changes(view: ProgramView, events: Seq<Event>)
    requires
        pipeline_in(view) is Some,
    ensures
        pipeline_in(run(view, events)) is Some ==> pipeline_in(run(view, events)) == pipeline_in(
            view,
        ),
    decreases events.len(),
{
    if events.len() > 0 {
        let next = advanced(view, events[0]);
        if pipeline_in(next) is Some {
            lemma_pipeline_never_changes(next, events.drop_first());
        } else {
            lemma_ended_is_final(next, events.drop_first());
        }
    }
}

} // verus!
