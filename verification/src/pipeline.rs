//! The shader pipeline: one program, linked from a vertex and a fragment
//! shader, and one static buffer with the four vertices of a full-screen quad.
//!
//! The setup is a state machine like the window bootstrap. It names each GPU
//! command in turn and takes its answer; the program around the library
//! issues the commands. A shader that does not compile or a program that
//! does not link is a defect of the build: under the diagnostic policy it
//! ends the setup with a fault, under the release policy it goes unnoticed.

use crate::fault::{sanity_assert, spec_sanity_assert, Fault, FaultPolicy};
use vstd::prelude::*;

verus! {

/// The number of vertices of the quad.
pub const VERTEX_COUNT: usize = 4;

/// The number of bytes of one vertex component, a 32-bit float.
pub const COMPONENT_BYTES: usize = 4;

/// The name of the shader's time input.
pub open spec fn spec_time_uniform() -> &'static str {
    "v"
}

/// The name of the shader's time input.
pub fn time_uniform() -> (name: &'static str)
    ensures
        name == spec_time_uniform(),
{
    "v"
}

/// One corner of the quad in normalized device coordinates.
#[derive(Clone, Copy, Debug, PartialEq, Eq, Structural)]
pub struct Vertex {
    pub x: i8,
    pub y: i8,
    pub z: i8,
}

/// The static geometry: the four corners of a quad.
#[derive(Clone, Copy, Debug, PartialEq, Eq, Structural)]
pub struct Quad {
    pub bottom_left: Vertex,
    pub bottom_right: Vertex,
    pub top_left: Vertex,
    pub top_right: Vertex,
}

/// The full-screen quad: it spans the whole normalized device area, from -1
/// to 1 on both axes, at depth 0.
pub open spec fn spec_quad() -> Quad {
    Quad {
        bottom_left: Vertex { x: -1i8, y: -1i8, z: 0 },
        bottom_right: Vertex { x: 1, y: -1i8, z: 0 },
        top_left: Vertex { x: -1i8, y: 1, z: 0 },
        top_right: Vertex { x: 1, y: 1, z: 0 },
    }
}

/// The full-screen quad.
pub fn quad() -> (quad: Quad)
    ensures
        quad == spec_quad(),
{
    Quad {
        bottom_left: Vertex { x: -1, y: -1, z: 0 },
        bottom_right: Vertex { x: 1, y: -1, z: 0 },
        top_left: Vertex { x: -1, y: 1, z: 0 },
        top_right: Vertex { x: 1, y: 1, z: 0 },
    }
}

impl Quad {
    /// The corners in the order a triangle strip takes them: bottom left,
    /// bottom right, top left, top right.
    pub open spec fn strip(self) -> Seq<Vertex> {
        seq![self.bottom_left, self.bottom_right, self.top_left, self.top_right]
    }

    /// The corners in triangle-strip order, as they are stored in the buffer.
    pub fn vertices(&self) -> (vertices: [Vertex; 4])
        ensures
            vertices@ == self.strip(),
    {
        let vertices = [self.bottom_left, self.bottom_right, self.top_left, self.top_right];
        assert(vertices@ =~= self.strip());
        vertices
    }
}

/// How the vertex buffer feeds a vertex attribute.
#[derive(Clone, Copy, Debug, PartialEq, Eq, Structural)]
pub struct VertexLayout {
    /// The index of the attribute.
    pub attribute: u32,
    /// The number of components per vertex.
    pub components: i32,
    /// Whether fixed-point values are normalized when read.
    pub normalized: bool,
    /// The distance in bytes from one vertex to the next.
    pub stride: i32,
    /// The offset in bytes of the first vertex.
    pub offset: usize,
}

/// The layout of the quad's buffer: attribute 0 reads three floats per
/// vertex, unnormalized, tightly packed from the start of the buffer.
pub open spec fn spec_vertex_layout() -> VertexLayout {
    VertexLayout { attribute: 0, components: 3, normalized: false, stride: 12, offset: 0 }
}

/// The layout of the quad's buffer.
pub fn vertex_layout() -> (layout: VertexLayout)
    ensures
        layout == spec_vertex_layout(),
        layout.stride == layout.components * COMPONENT_BYTES,
{
    VertexLayout { attribute: 0, components: 3, normalized: false, stride: 12, offset: 0 }
}

/// The size of the quad's buffer in bytes.
pub fn buffer_bytes() -> (bytes: usize)
    ensures
        bytes == 48,
        bytes == VERTEX_COUNT * spec_vertex_layout().stride,
{
    VERTEX_COUNT * 3 * COMPONENT_BYTES
}

/// What a [`Pipeline`] holds.
pub struct PipelineView {
    /// The linked shader program.
    pub program: u32,
    /// The location of the program's time input.
    pub time_location: i32,
    /// The vertex array that describes the quad.
    pub vertex_array: u32,
    /// The buffer that holds the quad.
    pub vertex_buffer: u32,
    /// The contents of the buffer.
    pub vertices: Quad,
}

/// The GPU objects that the loop draws with, created once before the loop
/// starts and never changed after.
#[derive(Debug)]
pub struct Pipeline {
    program: u32,
    time_location: i32,
    vertex_array: u32,
    vertex_buffer: u32,
    vertices: Quad,
}

impl View for Pipeline {
    type V = PipelineView;

    closed spec fn view(&self) -> PipelineView {
        PipelineView {
            program: self.program,
            time_location: self.time_location,
            vertex_array: self.vertex_array,
            vertex_buffer: self.vertex_buffer,
            vertices: self.vertices,
        }
    }
}

impl Pipeline {
    /// The linked shader program.
    pub fn program(&self) -> (id: u32)
        ensures
            id == self@.program,
    {
        self.program
    }

    /// The location of the program's time input.
    pub fn time_location(&self) -> (location: i32)
        ensures
            location == self@.time_location,
    {
        self.time_location
    }

    /// The vertex array that describes the quad.
    pub fn vertex_array(&self) -> (id: u32)
        ensures
            id == self@.vertex_array,
    {
        self.vertex_array
    }

    /// The buffer that holds the quad.
    pub fn vertex_buffer(&self) -> (id: u32)
        ensures
            id == self@.vertex_buffer,
    {
        self.vertex_buffer
    }

    /// The contents of the vertex buffer.
    pub fn vertices(&self) -> (vertices: Quad)
        ensures
            vertices == self@.vertices,
    {
        self.vertices
    }
}

/// The two shaders of the program.
#[derive(Clone, Copy, Debug, PartialEq, Eq, Structural)]
pub enum ShaderKind {
    /// The shader that places the vertices.
    Vertex,
    /// The shader that colours the pixels.
    Fragment,
}

/// Where the setup stands: the command whose answer it waits for, or how
/// it ended.
#[derive(Clone, Copy, Debug, PartialEq, Eq, Structural)]
pub enum SetupStage {
    /// Waiting for the compiled vertex shader.
    CompileVertex,
    /// Waiting for the compiled fragment shader.
    CompileFragment,
    /// Waiting for the linked program.
    LinkProgram,
    /// Waiting for the name of a new buffer.
    CreateBuffer,
    /// Waiting for the name of a new vertex array.
    CreateVertexArray,
    /// Waiting for the vertex array to be bound.
    BindVertexArray,
    /// Waiting for the buffer to be bound.
    BindBuffer,
    /// Waiting for the quad to be stored in the buffer.
    UploadVertices,
    /// Waiting for the vertex attribute to be switched on.
    EnableAttribute,
    /// Waiting for the layout of the attribute to be set.
    DescribeAttribute,
    /// Waiting for the location of the program's time input.
    ResolveTime,
    /// Program and buffer exist.
    Ready,
    /// A check did not hold; nothing more is attempted.
    Failed { fault: Fault },
}

/// The GPU command that the setup asks for next.
#[derive(Clone, Copy, Debug, PartialEq, Eq)]
pub enum SetupRequest {
    /// Compile the embedded source of the `kind` shader; answered with the
    /// shader object, 0 if it did not compile.
    Compile { kind: ShaderKind },
    /// Link the two shaders into a program; answered with the program
    /// object, 0 if it did not link.
    Link { vertex: u32, fragment: u32 },
    /// Create a buffer; answered with its name.
    CreateBuffer,
    /// Create a vertex array; answered with its name.
    CreateVertexArray,
    /// Bind the vertex array.
    BindVertexArray { array: u32 },
    /// Bind the buffer as the source of vertex data.
    BindBuffer { buffer: u32 },
    /// Store `vertices`, in triangle-strip order as `bytes` bytes of 32-bit
    /// floats, in the bound buffer, to be written once and drawn many times.
    Upload { bytes: usize, vertices: Quad },
    /// Switch on the vertex attribute.
    EnableAttribute { attribute: u32 },
    /// Set how the attribute reads the bound buffer.
    DescribeAttribute { layout: VertexLayout },
    /// Look up the input called `name` in the program; answered with its
    /// location.
    ResolveUniform { program: u32, name: &'static str },
    /// Nothing is left to do: take the pipeline with [`Setup::finish`].
    Done,
    /// A check did not hold: end the process as the fault policy says.
    Abort { fault: Fault },
}

/// The answer to a command.
#[derive(Clone, Copy, Debug, PartialEq, Eq, Structural)]
pub enum SetupReply {
    /// The object or name that the command returned.
    Object { id: u32 },
    /// The location that the lookup returned.
    Location { index: i32 },
    /// The command returns nothing.
    Nothing,
}

/// The object that a reply names; 0, which names no object, for a reply that
/// names none.
pub open spec fn object_of(reply: SetupReply) -> u32 {
    match reply {
        SetupReply::Object { id } => id,
        _ => 0,
    }
}

/// The location that a reply holds; -1, the location of no input, for a
/// reply that holds none.
pub open spec fn location_of(reply: SetupReply) -> i32 {
    match reply {
        SetupReply::Location { index } => index,
        _ => -1i32,
    }
}

/// The state of a setup: the policy it runs under, its stage, and the
/// answers recorded so far (0 where none has been given yet).
pub struct SetupState {
    pub policy: FaultPolicy,
    pub stage: SetupStage,
    pub vertex_shader: u32,
    pub fragment_shader: u32,
    pub program: u32,
    pub vertex_buffer: u32,
    pub vertex_array: u32,
    pub time_location: i32,
}

/// The state every setup starts in.
pub open spec fn initial(policy: FaultPolicy) -> SetupState {
    SetupState {
        policy,
        stage: SetupStage::CompileVertex,
        vertex_shader: 0,
        fragment_shader: 0,
        program: 0,
        vertex_buffer: 0,
        vertex_array: 0,
        time_location: 0,
    }
}

/// The command that belongs to a state.
pub open spec fn request_of(state: SetupState) -> SetupRequest {
    match state.stage {
        SetupStage::CompileVertex => SetupRequest::Compile { kind: ShaderKind::Vertex },
        SetupStage::CompileFragment => SetupRequest::Compile { kind: ShaderKind::Fragment },
        SetupStage::LinkProgram => SetupRequest::Link {
            vertex: state.vertex_shader,
            fragment: state.fragment_shader,
        },
        SetupStage::CreateBuffer => SetupRequest::CreateBuffer,
        SetupStage::CreateVertexArray => SetupRequest::CreateVertexArray,
        SetupStage::BindVertexArray => SetupRequest::BindVertexArray {
            array: state.vertex_array,
        },
        SetupStage::BindBuffer => SetupRequest::BindBuffer { buffer: state.vertex_buffer },
        SetupStage::UploadVertices => SetupRequest::Upload {
            bytes: 48,
            vertices: spec_quad(),
        },
        SetupStage::EnableAttribute => SetupRequest::EnableAttribute { attribute: 0 },
        SetupStage::DescribeAttribute => SetupRequest::DescribeAttribute {
            layout: spec_vertex_layout(),
        },
        SetupStage::ResolveTime => SetupRequest::ResolveUniform {
            program: state.program,
            name: spec_time_uniform(),
        },
        SetupStage::Ready => SetupRequest::Done,
        SetupStage::Failed { fault } => SetupRequest::Abort { fault },
    }
}

/// The fault that an answer naming no object means at a stage, for the
/// stages whose answer is checked.
pub open spec fn check_of(stage: SetupStage) -> Option<Fault> {
    match stage {
        SetupStage::CompileVertex => Some(Fault::ShaderCompilation),
        SetupStage::CompileFragment => Some(Fault::ShaderCompilation),
        SetupStage::LinkProgram => Some(Fault::ProgramLink),
        _ => None,
    }
}

/// The stage that follows a stage whose answer was accepted.
pub open spec fn next_stage(stage: SetupStage) -> SetupStage {
    match stage {
        SetupStage::CompileVertex => SetupStage::CompileFragment,
        SetupStage::CompileFragment => SetupStage::LinkProgram,
        SetupStage::LinkProgram => SetupStage::CreateBuffer,
        SetupStage::CreateBuffer => SetupStage::CreateVertexArray,
        SetupStage::CreateVertexArray => SetupStage::BindVertexArray,
        SetupStage::BindVertexArray => SetupStage::BindBuffer,
        SetupStage::BindBuffer => SetupStage::UploadVertices,
        SetupStage::UploadVertices => SetupStage::EnableAttribute,
        SetupStage::EnableAttribute => SetupStage::DescribeAttribute,
        SetupStage::DescribeAttribute => SetupStage::ResolveTime,
        SetupStage::ResolveTime => SetupStage::Ready,
        SetupStage::Ready => SetupStage::Ready,
        SetupStage::Failed { fault } => SetupStage::Failed { fault },
    }
}

/// The state with `reply` recorded as the answer of the current stage.
pub open spec fn recorded(state: SetupState, reply: SetupReply) -> SetupState {
    match state.stage {
        SetupStage::CompileVertex => SetupState { vertex_shader: object_of(reply), ..state },
        SetupStage::CompileFragment => SetupState { fragment_shader: object_of(reply), ..state },
        SetupStage::LinkProgram => SetupState { program: object_of(reply), ..state },
        SetupStage::CreateBuffer => SetupState { vertex_buffer: object_of(reply), ..state },
        SetupStage::CreateVertexArray => SetupState { vertex_array: object_of(reply), ..state },
        SetupStage::ResolveTime => SetupState { time_location: location_of(reply), ..state },
        _ => state,
    }
}

/// Whether the setup has ended, well or badly.
pub open spec fn ended(stage: SetupStage) -> bool {
    stage is Ready || stage is Failed
}

/// The state after `reply` has answered the current command. An ended setup
/// stays as it is. Otherwise, if the stage is checked, the policy makes
/// checks and the reply names no object, the setup fails with the stage's
/// fault; else the answer is recorded and the next stage begins.
pub open spec fn advanced(state: SetupState, reply: SetupReply) -> SetupState {
    if ended(state.stage) {
        state
    } else {
        let checked = match check_of(state.stage) {
            Some(fault) => spec_sanity_assert(state.policy, object_of(reply) != 0, fault),
            None => Ok(()),
        };
        match checked {
            Err(fault) => SetupState { stage: SetupStage::Failed { fault }, ..state },
            Ok(_) => SetupState { stage: next_stage(state.stage), ..recorded(state, reply) },
        }
    }
}

/// The state after the GPU has given `replies`, one after the other.
pub open spec fn run(state: SetupState, replies: Seq<SetupReply>) -> SetupState
    decreases replies.len(),
{
    if replies.len() == 0 {
        state
    } else {
        run(advanced(state, replies[0]), replies.drop_first())
    }
}

/// The setup of the pipeline. It decides; the program acts: ask for the
/// [`request`](Setup::request), issue it, hand the answer to
/// [`advance`](Setup::advance), until the request is `Done` or `Abort`.
#[derive(Debug)]
pub struct Setup {
    policy: FaultPolicy,
    stage: SetupStage,
    vertex_shader: u32,
    fragment_shader: u32,
    program: u32,
    vertex_buffer: u32,
    vertex_array: u32,
    time_location: i32,
}

impl View for Setup {
    type V = SetupState;

    closed spec fn view(&self) -> SetupState {
        SetupState {
            policy: self.policy,
            stage: self.stage,
            vertex_shader: self.vertex_shader,
            fragment_shader: self.fragment_shader,
            program: self.program,
            vertex_buffer: self.vertex_buffer,
            vertex_array: self.vertex_array,
            time_location: self.time_location,
        }
    }
}

impl SetupReply {
    /// The object that the reply names, 0 if it names none.
    pub fn object(self) -> (id: u32)
        ensures
            id == object_of(self),
    {
        match self {
            SetupReply::Object { id } => id,
            _ => 0,
        }
    }

    /// The location that the reply holds, -1 if it holds none.
    pub fn location(self) -> (index: i32)
        ensures
            index == location_of(self),
    {
        match self {
            SetupReply::Location { index } => index,
            _ => -1,
        }
    }
}

impl Setup {
    /// Starts the setup under `policy`.
    pub fn new(policy: FaultPolicy) -> (setup: Self)
        ensures
            setup@ == initial(policy),
    {
        Setup {
            policy,
            stage: SetupStage::CompileVertex,
            vertex_shader: 0,
            fragment_shader: 0,
            program: 0,
            vertex_buffer: 0,
            vertex_array: 0,
            time_location: 0,
        }
    }

    /// The policy the setup runs under.
    pub fn policy(&self) -> (policy: FaultPolicy)
        ensures
            policy == self@.policy,
    {
        self.policy
    }

    /// The stage the setup stands at.
    pub fn stage(&self) -> (stage: SetupStage)
        ensures
            stage == self@.stage,
    {
        self.stage
    }

    /// The command to issue next.
    pub fn request(&self) -> (request: SetupRequest)
        ensures
            request == request_of(self@),
    {
        match self.stage {
            SetupStage::CompileVertex => SetupRequest::Compile { kind: ShaderKind::Vertex },
            SetupStage::CompileFragment => SetupRequest::Compile { kind: ShaderKind::Fragment },
            SetupStage::LinkProgram => SetupRequest::Link {
                vertex: self.vertex_shader,
                fragment: self.fragment_shader,
            },
            SetupStage::CreateBuffer => SetupRequest::CreateBuffer,
            SetupStage::CreateVertexArray => SetupRequest::CreateVertexArray,
            SetupStage::BindVertexArray => SetupRequest::BindVertexArray {
                array: self.vertex_array,
            },
            SetupStage::BindBuffer => SetupRequest::BindBuffer { buffer: self.vertex_buffer },
            SetupStage::UploadVertices => SetupRequest::Upload {
                bytes: buffer_bytes(),
                vertices: quad(),
            },
            SetupStage::EnableAttribute => SetupRequest::EnableAttribute {
                attribute: vertex_layout().attribute,
            },
            SetupStage::DescribeAttribute => SetupRequest::DescribeAttribute {
                layout: vertex_layout(),
            },
            SetupStage::ResolveTime => SetupRequest::ResolveUniform {
                program: self.program,
                name: time_uniform(),
            },
            SetupStage::Ready => SetupRequest::Done,
            SetupStage::Failed { fault } => SetupRequest::Abort { fault },
        }
    }

    /// Takes the answer to the current command and moves on.
    pub fn advance(&mut self, reply: SetupReply)
        ensures
            final(self)@ == advanced(old(self)@, reply),
    {
        let named = reply.object() != 0;
        let checked: Result<(), Fault> = match self.stage {
            SetupStage::CompileVertex => sanity_assert(
                self.policy,
                named,
                Fault::ShaderCompilation,
            ),
            SetupStage::CompileFragment => sanity_assert(
                self.policy,
                named,
                Fault::ShaderCompilation,
            ),
            SetupStage::LinkProgram => sanity_assert(self.policy, named, Fault::ProgramLink),
            _ => Ok(()),
        };
        match checked {
            Err(fault) => {
                self.stage = SetupStage::Failed { fault };
            },
            Ok(()) => {
                match self.stage {
                    SetupStage::CompileVertex => {
                        self.vertex_shader = reply.object();
                        self.stage = SetupStage::CompileFragment;
                    },
                    SetupStage::CompileFragment => {
                        self.fragment_shader = reply.object();
                        self.stage = SetupStage::LinkProgram;
                    },
                    SetupStage::LinkProgram => {
                        self.program = reply.object();
                        self.stage = SetupStage::CreateBuffer;
                    },
                    SetupStage::CreateBuffer => {
                        self.vertex_buffer = reply.object();
                        self.stage = SetupStage::CreateVertexArray;
                    },
                    SetupStage::CreateVertexArray => {
                        self.vertex_array = reply.object();
                        self.stage = SetupStage::BindVertexArray;
                    },
                    SetupStage::BindVertexArray => {
                        self.stage = SetupStage::BindBuffer;
                    },
                    SetupStage::BindBuffer => {
                        self.stage = SetupStage::UploadVertices;
                    },
                    SetupStage::UploadVertices => {
                        self.stage = SetupStage::EnableAttribute;
                    },
                    SetupStage::EnableAttribute => {
                        self.stage = SetupStage::DescribeAttribute;
                    },
                    SetupStage::DescribeAttribute => {
                        self.stage = SetupStage::ResolveTime;
                    },
                    SetupStage::ResolveTime => {
                        self.time_location = reply.location();
                        self.stage = SetupStage::Ready;
                    },
                    SetupStage::Ready => {},
                    SetupStage::Failed { .. } => {},
                }
            },
        }
    }

    /// Hands out the pipeline once the setup is ready; `None` at every
    /// other stage. The pipeline's buffer holds the quad.
    pub fn finish(self) -> (outcome: Option<Pipeline>)
        ensures
            self@.stage is Ready <==> outcome is Some,
            outcome matches Some(pipeline) ==> pipeline@ == (PipelineView {
                program: self@.program,
                time_location: self@.time_location,
                vertex_array: self@.vertex_array,
                vertex_buffer: self@.vertex_buffer,
                vertices: spec_quad(),
            }),
    {
        match self.stage {
            SetupStage::Ready => Some(
                Pipeline {
                    program: self.program,
                    time_location: self.time_location,
                    vertex_array: self.vertex_array,
                    vertex_buffer: self.vertex_buffer,
                    vertices: quad(),
                },
            ),
            _ => None,
        }
    }
}

/// An ended setup stays where it is, whatever answers still arrive: a failed
/// one never becomes ready.
pub proof fn lemma_ended_is_final(state: SetupState, replies: Seq<SetupReply>)
    requires
        ended(state.stage),
    ensures
        run(state, replies) == state,
    decreases replies.len(),
{
    if replies.len() > 0 {
        lemma_ended_is_final(state, replies.drop_first());
    }
}

/// Under the diagnostic policy the first checked answer that names no
/// object ends the setup with that stage's fault, for good.
pub proof fn lemma_first_failure_is_final(
    state: SetupState,
    fault: Fault,
    reply: SetupReply,
    rest: Seq<SetupReply>,
)
    requires
        state.policy == FaultPolicy::Diagnostic,
        check_of(state.stage) == Some(fault),
        object_of(reply) == 0,
    ensures
        advanced(state, reply).stage == (SetupStage::Failed { fault }),
        run(state, seq![reply] + rest).stage == (SetupStage::Failed { fault }),
{
    let replies = seq![reply] + rest;
    assert(replies[0] == reply);
    assert(replies.drop_first() =~= rest);
    lemma_ended_is_final(advanced(state, reply), rest);
}

/// Under the release policy no answer makes the setup fail.
pub proof fn lemma_release_never_fails(state: SetupState, replies: Seq<SetupReply>)
    requires
        state.policy == FaultPolicy::Release,
        !(state.stage is Failed),
    ensures
        !(run(state, replies).stage is Failed),
        run(state, replies).policy == FaultPolicy::Release,
    decreases replies.len(),
{
    if replies.len() > 0 {
        lemma_release_never_fails(advanced(state, replies[0]), replies.drop_first());
    }
}

/// Eleven answers bring a new setup to `Ready` with the answers recorded,
/// provided both shaders and the program exist or the policy makes no check.
pub proof fn lemma_eleven_answers_make_ready(policy: FaultPolicy, replies: Seq<SetupReply>)
    requires
        replies.len() == 11,
        policy == FaultPolicy::Diagnostic ==> object_of(replies[0]) != 0 && object_of(replies[1])
            != 0 && object_of(replies[2]) != 0,
    ensures
        run(initial(policy), replies) == (SetupState {
            policy,
            stage: SetupStage::Ready,
            vertex_shader: object_of(replies[0]),
            fragment_shader: object_of(replies[1]),
            program: object_of(replies[2]),
            vertex_buffer: object_of(replies[3]),
            vertex_array: object_of(replies[4]),
            time_location: location_of(replies[10]),
        }),
{
    let s0 = initial(policy);
    let s1 = advanced(s0, replies[0]);
    let s2 = advanced(s1, replies[1]);
    let s3 = advanced(s2, replies[2]);
    let s4 = advanced(s3, replies[3]);
    let s5 = advanced(s4, replies[4]);
    let s6 = advanced(s5, replies[5]);
    let s7 = advanced(s6, replies[6]);
    let s8 = advanced(s7, replies[7]);
    let s9 = advanced(s8, replies[8]);
    let s10 = advanced(s9, replies[9]);
    let s11 = advanced(s10, replies[10]);
    let r1 = replies.drop_first();
    let r2 = r1.drop_first();
    let r3 = r2.drop_first();
    let r4 = r3.drop_first();
    let r5 = r4.drop_first();
    let r6 = r5.drop_first();
    let r7 = r6.drop_first();
    let r8 = r7.drop_first();
    let r9 = r8.drop_first();
    let r10 = r9.drop_first();
    let r11 = r10.drop_first();
    assert(run(s0, replies) == run(s1, r1));
    assert(r1[0] == replies[1] && run(s1, r1) == run(s2, r2));
    assert(r2[0] == replies[2] && run(s2, r2) == run(s3, r3));
    assert(r3[0] == replies[3] && run(s3, r3) == run(s4, r4));
    assert(r4[0] == replies[4] && run(s4, r4) == run(s5, r5));
    assert(r5[0] == replies[5] && run(s5, r5) == run(s6, r6));
    assert(r6[0] == replies[6] && run(s6, r6) == run(s7, r7));
    assert(r7[0] == replies[7] && run(s7, r7) == run(s8, r8));
    assert(r8[0] == replies[8] && run(s8, r8) == run(s9, r9));
    assert(r9[0] == replies[9] && run(s9, r9) == run(s10, r10));
    assert(r10[0] == replies[10] && run(s10, r10) == run(s11, r11));
    assert(run(s11, r11) == s11);
}

} // verus!
