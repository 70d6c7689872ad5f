//! The bootstrap that leads from nothing to one visible window with a
//! current rendering context.
//!
//! The bootstrap is a state machine. It decides what the platform is to do
//! next and judges each answer; the program around the library makes the
//! calls. Under the diagnostic policy each step that can fail is checked and
//! the first failure ends the bootstrap; under the release policy no answer
//! is checked.

use crate::fault::{sanity_assert, spec_sanity_assert, Fault, FaultPolicy};
use crate::platform::{
    cs_hredraw, cs_vredraw, cw_usedefault, pfd_doublebuffer, pfd_draw_to_window,
    pfd_support_opengl, pfd_type_rgba, ws_overlappedwindow, ws_visible,
};
use vstd::prelude::*;

verus! {

/// The number of vertical refreshes to wait before a frame is presented.
pub const SWAP_INTERVAL: i32 = 1;

/// The cursor a window class shows over its windows.
#[derive(Clone, Copy, Debug, PartialEq, Eq, Structural)]
pub enum Cursor {
    /// The system's standard arrow.
    Arrow,
}

/// The window class to register.
#[derive(Clone, Copy, Debug, PartialEq, Eq)]
pub struct WindowClass {
    /// Class style bits: redraw on a change of width or of height.
    pub style: u32,
    /// The module that owns the class.
    pub instance: isize,
    /// The class name.
    pub name: &'static str,
    /// The cursor of the class.
    pub cursor: Cursor,
    /// Extra bytes after the class structure.
    pub class_extra: i32,
    /// Extra bytes after each window instance.
    pub window_extra: i32,
    /// The class icon; 0 for none.
    pub icon: isize,
    /// The background brush; 0 for none.
    pub background: isize,
}

/// The window to create.
#[derive(Clone, Copy, Debug, PartialEq, Eq)]
pub struct WindowRequest {
    /// Extended style bits.
    pub extended_style: u32,
    /// The name of the registered class.
    pub class_name: &'static str,
    /// The text in the title bar.
    pub title: &'static str,
    /// Style bits: an ordinary framed top-level window, visible at once.
    pub style: u32,
    /// Horizontal position.
    pub x: i32,
    /// Vertical position.
    pub y: i32,
    /// Width.
    pub width: i32,
    /// Height.
    pub height: i32,
    /// The parent window; 0 for none.
    pub parent: isize,
    /// The menu; 0 for none.
    pub menu: isize,
    /// The module that owns the window.
    pub instance: isize,
}

/// What the program asks of a pixel format.
#[derive(Clone, Copy, Debug, PartialEq, Eq, Structural)]
pub struct PixelFormat {
    /// The version of the descriptor.
    pub version: u16,
    /// Capability bits: draw to a window, accelerated rendering, double buffering.
    pub flags: u32,
    /// The kind of pixel data.
    pub pixel_type: u8,
    /// Bits of colour per pixel.
    pub color_bits: u8,
    /// Bits of alpha per pixel.
    pub alpha_bits: u8,
    /// Bits of depth per pixel.
    pub depth_bits: u8,
}

/// The title under each policy: a warning under the diagnostic policy, none
/// under the release policy.
pub open spec fn spec_title(policy: FaultPolicy) -> &'static str {
    match policy {
        FaultPolicy::Diagnostic => "Demo intro (RUNNING IN SANITY MODE, DO NOT SUBMIT)",
        FaultPolicy::Release => "",
    }
}

/// The class that the bootstrap registers for the module `instance`: style
/// bits 0x0003 (redraw on horizontal, 0x0002, or vertical, 0x0001, change),
/// named "window", with the arrow cursor and nothing else.
pub open spec fn spec_window_class(instance: isize) -> WindowClass {
    WindowClass {
        style: 0x0003,
        instance,
        name: "window",
        cursor: Cursor::Arrow,
        class_extra: 0,
        window_extra: 0,
        icon: 0,
        background: 0,
    }
}

/// The window that the bootstrap creates: of the registered class, a visible
/// framed top-level window (style bits 0x10CF_0000: visible, 0x1000_0000,
/// with the frame of an overlapped window, 0x00CF_0000), position and size
/// left to the system (each coordinate the least `i32`), without parent or menu.
pub open spec fn spec_window_request(policy: FaultPolicy, instance: isize) -> WindowRequest {
    WindowRequest {
        extended_style: 0,
        class_name: "window",
        title: spec_title(policy),
        style: 0x10CF_0000,
        x: i32::MIN,
        y: i32::MIN,
        width: i32::MIN,
        height: i32::MIN,
        parent: 0,
        menu: 0,
        instance,
    }
}

/// The pixel format that the bootstrap asks for: version 1, capability bits
/// 0x0025 (draw to a window, 0x0004; accelerated rendering, 0x0020; double
/// buffering, 0x0001), red-green-blue-alpha pixels (type 0), 32 bits of
/// colour, 8 of alpha and 24 of depth.
pub open spec fn spec_pixel_format() -> PixelFormat {
    PixelFormat {
        version: 1,
        flags: 0x0025,
        pixel_type: 0,
        color_bits: 32,
        alpha_bits: 8,
        depth_bits: 24,
    }
}

/// The window title under `policy`.
pub fn title(policy: FaultPolicy) -> (text: &'static str)
    ensures
        text == spec_title(policy),
{
    match policy {
        FaultPolicy::Diagnostic => "Demo intro (RUNNING IN SANITY MODE, DO NOT SUBMIT)",
        FaultPolicy::Release => "",
    }
}

/// The window class to register for the module `instance`.
pub fn window_class(instance: isize) -> (class: WindowClass)
    ensures
        class == spec_window_class(instance),
{
    let style = cs_hredraw() | cs_vredraw();
    assert(0x0002u32 | 0x0001u32 == 0x0003u32) by (bit_vector);
    WindowClass {
        style,
        instance,
        name: "window",
        cursor: Cursor::Arrow,
        class_extra: 0,
        window_extra: 0,
        icon: 0,
        background: 0,
    }
}

/// The window to create under `policy` for the module `instance`.
pub fn window_request(policy: FaultPolicy, instance: isize) -> (window: WindowRequest)
    ensures
        window == spec_window_request(policy, instance),
{
    let style = ws_overlappedwindow() | ws_visible();
    assert(0x00CF_0000u32 | 0x1000_0000u32 == 0x10CF_0000u32) by (bit_vector);
    WindowRequest {
        extended_style: 0,
        class_name: "window",
        title: title(policy),
        style,
        x: cw_usedefault(),
        y: cw_usedefault(),
        width: cw_usedefault(),
        height: cw_usedefault(),
        parent: 0,
        menu: 0,
        instance,
    }
}

/// The pixel format to negotiate.
pub fn pixel_format() -> (format: PixelFormat)
    ensures
        format == spec_pixel_format(),
{
    let flags = pfd_draw_to_window() | pfd_support_opengl() | pfd_doublebuffer();
    assert(0x0004u32 | 0x0020u32 | 0x0001u32 == 0x0025u32) by (bit_vector);
    PixelFormat {
        version: 1,
        flags,
        pixel_type: pfd_type_rgba(),
        color_bits: 32,
        alpha_bits: 8,
        depth_bits: 24,
    }
}

/// Where the bootstrap stands: the step whose result it waits for, or how
/// it ended.
#[derive(Clone, Copy, Debug, PartialEq, Eq, Structural)]
pub enum Stage {
    /// Waiting for the handle of the running module.
    LoadInstance,
    /// Waiting for the registration of the window class.
    RegisterClass,
    /// Waiting for the window.
    CreateWindow,
    /// Waiting for the window's drawable surface.
    AcquireSurface,
    /// Waiting for the index of a matching pixel format.
    ChooseFormat,
    /// Waiting for the pixel format to be applied to the surface.
    ApplyFormat,
    /// Waiting for the rendering context.
    CreateContext,
    /// Waiting for the rendering context to become current.
    ActivateContext,
    /// Waiting for the GPU entry points to be resolved.
    LoadGpu,
    /// Waiting for presentation to be tied to the display's refresh.
    SetSwapInterval,
    /// Window and context exist and the context is current.
    Ready,
    /// A check did not hold; nothing more is attempted.
    Failed { fault: Fault },
}

/// What the platform is to do next for the bootstrap. Each request but the
/// last two is answered with one number, handed to [`Bootstrap::advance`]:
/// the handle, atom, index or status that the platform returned, or anything
/// where the platform returns nothing.
#[derive(Clone, Copy, Debug, PartialEq, Eq)]
pub enum Request {
    /// Get the handle of the running module.
    ModuleHandle,
    /// Register `class` with the window procedure; answers with the class atom.
    RegisterClass { class: WindowClass },
    /// Create the window that `request` describes; answers with its handle.
    CreateWindow { request: WindowRequest },
    /// Get the drawable surface of `window`; answers with its handle.
    GetSurface { window: isize },
    /// Find a pixel format of `surface` that matches `format`; answers with
    /// its index.
    ChoosePixelFormat { surface: isize, format: PixelFormat },
    /// Apply the pixel format `index` to `surface`; answers with a status.
    SetPixelFormat { surface: isize, index: isize, format: PixelFormat },
    /// Create a rendering context for `surface`; answers with its handle.
    CreateContext { surface: isize },
    /// Make `context` current on this thread for `surface`; answers with a status.
    MakeCurrent { surface: isize, context: isize },
    /// Resolve the GPU entry points.
    LoadGpu,
    /// Wait `interval` vertical refreshes before each presentation.
    SwapInterval { interval: i32 },
    /// Nothing is left to do: take the window and its context with
    /// [`Bootstrap::finish`].
    Done,
    /// A check did not hold: end the process as the fault policy says.
    Abort { fault: Fault },
}

/// The state of a bootstrap: the policy it runs under, its stage, and the
/// answers recorded so far (0 where none has been given yet).
pub struct BootstrapState {
    pub policy: FaultPolicy,
    pub stage: Stage,
    pub instance: isize,
    pub window: isize,
    pub surface: isize,
    pub format: isize,
    pub context: isize,
}

/// The state every bootstrap starts in.
pub open spec fn initial(policy: FaultPolicy) -> BootstrapState {
    BootstrapState {
        policy,
        stage: Stage::LoadInstance,
        instance: 0,
        window: 0,
        surface: 0,
        format: 0,
        context: 0,
    }
}

/// The request that belongs to a state.
pub open spec fn request_of(state: BootstrapState) -> Request {
    match state.stage {
        Stage::LoadInstance => Request::ModuleHandle,
        Stage::RegisterClass => Request::RegisterClass {
            class: spec_window_class(state.instance),
        },
        Stage::CreateWindow => Request::CreateWindow {
            request: spec_window_request(state.policy, state.instance),
        },
        Stage::AcquireSurface => Request::GetSurface { window: state.window },
        Stage::ChooseFormat => Request::ChoosePixelFormat {
            surface: state.surface,
            format: spec_pixel_format(),
        },
        Stage::ApplyFormat => Request::SetPixelFormat {
            surface: state.surface,
            index: state.format,
            format: spec_pixel_format(),
        },
        Stage::CreateContext => Request::CreateContext { surface: state.surface },
        Stage::ActivateContext => Request::MakeCurrent {
            surface: state.surface,
            context: state.context,
        },
        Stage::LoadGpu => Request::LoadGpu,
        Stage::SetSwapInterval => Request::SwapInterval { interval: SWAP_INTERVAL },
        Stage::Ready => Request::Done,
        Stage::Failed { fault } => Request::Abort { fault },
    }
}

/// The fault that an answer of 0 means at a stage, for the stages whose
/// answer is checked.
pub open spec fn check_of(stage: Stage) -> Option<Fault> {
    match stage {
        Stage::RegisterClass => Some(Fault::ClassRegistration),
        Stage::CreateWindow => Some(Fault::WindowCreation),
        Stage::ChooseFormat => Some(Fault::PixelFormatChoice),
        Stage::ApplyFormat => Some(Fault::PixelFormatSelection),
        Stage::CreateContext => Some(Fault::ContextCreation),
        Stage::ActivateContext => Some(Fault::ContextActivation),
        _ => None,
    }
}

/// The stage that follows a stage whose answer was accepted.
pub open spec fn next_stage(stage: Stage) -> Stage {
    match stage {
        Stage::LoadInstance => Stage::RegisterClass,
        Stage::RegisterClass => Stage::CreateWindow,
        Stage::CreateWindow => Stage::AcquireSurface,
        Stage::AcquireSurface => Stage::ChooseFormat,
        Stage::ChooseFormat => Stage::ApplyFormat,
        Stage::ApplyFormat => Stage::CreateContext,
        Stage::CreateContext => Stage::ActivateContext,
        Stage::ActivateContext => Stage::LoadGpu,
        Stage::LoadGpu => Stage::SetSwapInterval,
        Stage::SetSwapInterval => Stage::Ready,
        Stage::Ready => Stage::Ready,
        Stage::Failed { fault } => Stage::Failed { fault },
    }
}

/// The state with `reply` recorded as the answer of the current stage.
pub open spec fn recorded(state: BootstrapState, reply: isize) -> BootstrapState {
    match state.stage {
        Stage::LoadInstance => BootstrapState { instance: reply, ..state },
        Stage::CreateWindow => BootstrapState { window: reply, ..state },
        Stage::AcquireSurface => BootstrapState { surface: reply, ..state },
        Stage::ChooseFormat => BootstrapState { format: reply, ..state },
        Stage::CreateContext => BootstrapState { context: reply, ..state },
        _ => state,
    }
}

/// Whether the bootstrap has ended, well or badly.
pub open spec fn ended(stage: Stage) -> bool {
    stage is Ready || stage is Failed
}

/// The state after `reply` has answered the current request. An ended
/// bootstrap stays as it is. Otherwise, if the stage is checked, the policy
/// makes checks and the answer is 0, the bootstrap fails with the stage's
/// fault; else the answer is recorded and the next stage begins.
pub open spec fn advanced(state: BootstrapState, reply: isize) -> BootstrapState {
    if ended(state.stage) {
        state
    } else {
        let checked = match check_of(state.stage) {
            Some(fault) => spec_sanity_assert(state.policy, reply != 0, fault),
            None => Ok(()),
        };
        match checked {
            Err(fault) => BootstrapState { stage: Stage::Failed { fault }, ..state },
            Ok(_) => BootstrapState { stage: next_stage(state.stage), ..recorded(state, reply) },
        }
    }
}

/// The window created by the bootstrap. The value stands for the one window
/// of the process and cannot be copied.
#[derive(Debug)]
pub struct WindowHandle {
    id: isize,
}

impl View for WindowHandle {
    type V = isize;

    closed spec fn view(&self) -> isize {
        self.id
    }
}

impl WindowHandle {
    /// The handle as the platform knows it.
    pub fn id(&self) -> (id: isize)
        ensures
            id == self@,
    {
        self.id
    }
}

/// What a [`DrawableContext`] holds.
pub struct DrawableView {
    /// The handle of the window's drawable surface.
    pub surface: isize,
    /// The handle of the rendering context bound to the surface.
    pub gpu: isize,
    /// The index of the negotiated pixel format.
    pub pixel_format: isize,
}

/// The drawable surface of the window together with the rendering context
/// bound to it. The value stands for the one context of the process and
/// cannot be copied.
#[derive(Debug)]
pub struct DrawableContext {
    surface: isize,
    gpu: isize,
    pixel_format: isize,
}

impl View for DrawableContext {
    type V = DrawableView;

    closed spec fn view(&self) -> DrawableView {
        DrawableView { surface: self.surface, gpu: self.gpu, pixel_format: self.pixel_format }
    }
}

impl DrawableContext {
    /// The handle of the drawable surface.
    pub fn surface(&self) -> (handle: isize)
        ensures
            handle == self@.surface,
    {
        self.surface
    }

    /// The handle of the rendering context.
    pub fn gpu(&self) -> (handle: isize)
        ensures
            handle == self@.gpu,
    {
        self.gpu
    }

    /// The index of the negotiated pixel format.
    pub fn pixel_format(&self) -> (index: isize)
        ensures
            index == self@.pixel_format,
    {
        self.pixel_format
    }
}

/// The bootstrap that leads from nothing to a window with a current
/// rendering context. It decides; the platform acts: ask for the
/// [`request`](Bootstrap::request), perform it, hand the answer to
/// [`advance`](Bootstrap::advance), until the request is `Done` or `Abort`.
#[derive(Debug)]
pub struct Bootstrap {
    policy: FaultPolicy,
    stage: Stage,
    instance: isize,
    window: isize,
    surface: isize,
    format: isize,
    context: isize,
}

impl View for Bootstrap {
    type V = BootstrapState;

    closed spec fn view(&self) -> BootstrapState {
        BootstrapState {
            policy: self.policy,
            stage: self.stage,
            instance: self.instance,
            window: self.window,
            surface: self.surface,
            format: self.format,
            context: self.context,
        }
    }
}

/// Starts the bootstrap under `policy`.
pub fn create(policy: FaultPolicy) -> (bootstrap: Bootstrap)
    ensures
        bootstrap@ == initial(policy),
{
    Bootstrap {
        policy,
        stage: Stage::LoadInstance,
        instance: 0,
        window: 0,
        surface: 0,
        format: 0,
        context: 0,
    }
}

impl Bootstrap {
    /// The policy the bootstrap runs under.
    pub fn policy(&self) -> (policy: FaultPolicy)
        ensures
            policy == self@.policy,
    {
        self.policy
    }

    /// The stage the bootstrap stands at.
    pub fn stage(&self) -> (stage: Stage)
        ensures
            stage == self@.stage,
    {
        self.stage
    }

    /// What the platform is to do next.
    pub fn request(&self) -> (request: Request)
        ensures
            request == request_of(self@),
    {
        match self.stage {
            Stage::LoadInstance => Request::ModuleHandle,
            Stage::RegisterClass => Request::RegisterClass { class: window_class(self.instance) },
            Stage::CreateWindow => Request::CreateWindow {
                request: window_request(self.policy, self.instance),
            },
            Stage::AcquireSurface => Request::GetSurface { window: self.window },
            Stage::ChooseFormat => Request::ChoosePixelFormat {
                surface: self.surface,
                format: pixel_format(),
            },
            Stage::ApplyFormat => Request::SetPixelFormat {
                surface: self.surface,
                index: self.format,
                format: pixel_format(),
            },
            Stage::CreateContext => Request::CreateContext { surface: self.surface },
            Stage::ActivateContext => Request::MakeCurrent {
                surface: self.surface,
                context: self.context,
            },
            Stage::LoadGpu => Request::LoadGpu,
            Stage::SetSwapInterval => Request::SwapInterval { interval: SWAP_INTERVAL },
            Stage::Ready => Request::Done,
            Stage::Failed { fault } => Request::Abort { fault },
        }
    }

    /// Takes the platform's answer to the current request and moves on.
    pub fn advance(&mut self, reply: isize)
        ensures
            final(self)@ == advanced(old(self)@, reply),
    {
        let checked: Result<(), Fault> = match self.stage {
            Stage::RegisterClass => sanity_assert(
                self.policy,
                reply != 0,
                Fault::ClassRegistration,
            ),
            Stage::CreateWindow => sanity_assert(self.policy, reply != 0, Fault::WindowCreation),
            Stage::ChooseFormat => sanity_assert(
                self.policy,
                reply != 0,
                Fault::PixelFormatChoice,
            ),
            Stage::ApplyFormat => sanity_assert(
                self.policy,
                reply != 0,
                Fault::PixelFormatSelection,
            ),
            Stage::CreateContext => sanity_assert(
                self.policy,
                reply != 0,
                Fault::ContextCreation,
            ),
            Stage::ActivateContext => sanity_assert(
                self.policy,
                reply != 0,
                Fault::ContextActivation,
            ),
            _ => Ok(()),
        };
        match checked {
            Err(fault) => {
                self.stage = Stage::Failed { fault };
            },
            Ok(()) => {
                match self.stage {
                    Stage::LoadInstance => {
                        self.instance = reply;
                        self.stage = Stage::RegisterClass;
                    },
                    Stage::RegisterClass => {
                        self.stage = Stage::CreateWindow;
                    },
                    Stage::CreateWindow => {
                        self.window = reply;
                        self.stage = Stage::AcquireSurface;
                    },
                    Stage::AcquireSurface => {
                        self.surface = reply;
                        self.stage = Stage::ChooseFormat;
                    },
                    Stage::ChooseFormat => {
                        self.format = reply;
                        self.stage = Stage::ApplyFormat;
                    },
                    Stage::ApplyFormat => {
                        self.stage = Stage::CreateContext;
                    },
                    Stage::CreateContext => {
                        self.context = reply;
                        self.stage = Stage::ActivateContext;
                    },
                    Stage::ActivateContext => {
                        self.stage = Stage::LoadGpu;
                    },
                    Stage::LoadGpu => {
                        self.stage = Stage::SetSwapInterval;
                    },
                    Stage::SetSwapInterval => {
                        self.stage = Stage::Ready;
                    },
                    Stage::Ready => {},
                    Stage::Failed { .. } => {},
                }
            },
        }
    }

    /// Hands out the window and its context once the bootstrap is ready;
    /// `None` at every other stage.
    pub fn finish(self) -> (outcome: Option<(WindowHandle, DrawableContext)>)
        ensures
            self@.stage is Ready <==> outcome is Some,
            outcome matches Some((window, context)) ==> window@ == self@.window && context@
                == (DrawableView {
                surface: self@.surface,
                gpu: self@.context,
                pixel_format: self@.format,
            }),
    {
        match self.stage {
            Stage::Ready => Some(
                (
                    WindowHandle { id: self.window },
                    DrawableContext {
                        surface: self.surface,
                        gpu: self.context,
                        pixel_format: self.format,
                    },
                ),
            ),
            _ => None,
        }
    }
}

/// The state after the platform has given `replies`, one after the other.
pub open spec fn run(state: BootstrapState, replies: Seq<isize>) -> BootstrapState
    decreases replies.len(),
{
    if replies.len() == 0 {
        state
    } else {
        run(advanced(state, replies[0]), replies.drop_first())
    }
}

/// An ended bootstrap stays where it is, whatever answers still arrive: a
/// failed one never becomes ready.
pub proof fn lemma_ended_is_final(state: BootstrapState, replies: Seq<isize>)
    requires
        ended(state.stage),
    ensures
        run(state, replies) == state,
    decreases replies.len(),
{
    if replies.len() > 0 {
        lemma_ended_is_final(state, replies.drop_first());
    }
}

/// Under the diagnostic policy the first checked answer that is 0 ends the
/// bootstrap with that stage's fault: the request becomes `Abort`, and no
/// later answer brings the bootstrap to `Ready`.
pub proof fn lemma_first_failure_is_final(
    state: BootstrapState,
    fault: Fault,
    rest: Seq<isize>,
)
    requires
        state.policy == FaultPolicy::Diagnostic,
        check_of(state.stage) == Some(fault),
    ensures
        advanced(state, 0).stage == (Stage::Failed { fault }),
        request_of(advanced(state, 0)) == (Request::Abort { fault }),
        run(state, seq![0isize] + rest).stage == (Stage::Failed { fault }),
{
    let replies = seq![0isize] + rest;
    assert(replies[0] == 0);
    assert(replies.drop_first() =~= rest);
    lemma_ended_is_final(advanced(state, 0), rest);
}

/// Under the release policy no answer makes the bootstrap fail.
pub proof fn lemma_release_never_fails(state: BootstrapState, replies: Seq<isize>)
    requires
        state.policy == FaultPolicy::Release,
        !(state.stage is Failed),
    ensures
        !(run(state, replies).stage is Failed),
        run(state, replies).policy == FaultPolicy::Release,
    decreases replies.len(),
{
    if replies.len() > 0 {
        lemma_release_never_fails(advanced(state, replies[0]), replies.drop_first());
    }
}

/// Whether `replies` answers every checked request with something other
/// than 0: the class atom, the window, the format index, the status of
/// applying it, the context, and the status of activating it.
pub open spec fn all_checks_hold(replies: Seq<isize>) -> bool {
    &&& replies.len() == 10
    &&& replies[1] != 0
    &&& replies[2] != 0
    &&& replies[4] != 0
    &&& replies[5] != 0
    &&& replies[6] != 0
    &&& replies[7] != 0
}

/// Ten answers bring a new bootstrap to `Ready` with the answers recorded,
/// provided every check holds or the policy makes none.
pub proof fn lemma_ten_answers_make_ready(policy: FaultPolicy, replies: Seq<isize>)
    requires
        replies.len() == 10,
        policy == FaultPolicy::Diagnostic ==> all_checks_hold(replies),
    ensures
        run(initial(policy), replies) == (BootstrapState {
            policy,
            stage: Stage::Ready,
            instance: replies[0],
            window: replies[2],
            surface: replies[3],
            format: replies[4],
            context: replies[6],
        }),
{
    let s0 = initial(policy);
    let s1 = advanced(s0, replies[0]);
    let s2 = advanced(s1, replies[1]);
    let s3 = advanced(s2, replies[2]);
    let s4 = advanced(s3, replies[3]);
    let s5 = advanced(s4, replies[4]);
    let s6 = advanced(s5, replies[5]);
    let s7 = advanced(s6, replies[6]);
    let s8 = advanced(s7, replies[7]);
    let s9 = advanced(s8, replies[8]);
    let s10 = advanced(s9, replies[9]);
    let r1 = replies.drop_first();
    let r2 = r1.drop_first();
    let r3 = r2.drop_first();
    let r4 = r3.drop_first();
    let r5 = r4.drop_first();
    let r6 = r5.drop_first();
    let r7 = r6.drop_first();
    let r8 = r7.drop_first();
    let r9 = r8.drop_first();
    let r10 = r9.drop_first();
    assert(run(s0, replies) == run(s1, r1));
    assert(r1[0] == replies[1] && run(s1, r1) == run(s2, r2));
    assert(r2[0] == replies[2] && run(s2, r2) == run(s3, r3));
    assert(r3[0] == replies[3] && run(s3, r3) == run(s4, r4));
    assert(r4[0] == replies[4] && run(s4, r4) == run(s5, r5));
    assert(r5[0] == replies[5] && run(s5, r5) == run(s6, r6));
    assert(r6[0] == replies[6] && run(s6, r6) == run(s7, r7));
    assert(r7[0] == replies[7] && run(s7, r7) == run(s8, r8));
    assert(r8[0] == replies[8] && run(s8, r8) == run(s9, r9));
    assert(r9[0] == replies[9] && run(s9, r9) == run(s10, r10));
    assert(run(s10, r10) == s10);
}

} // verus!
