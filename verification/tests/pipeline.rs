use intro_core::fault::{Fault, FaultPolicy};
use intro_core::pipeline::{
    buffer_bytes, quad, time_uniform, vertex_layout, Quad, Setup, SetupReply, SetupRequest,
    SetupStage, ShaderKind, Vertex, VertexLayout, COMPONENT_BYTES, VERTEX_COUNT,
};

const VERTEX_SHADER: u32 = 1;
const FRAGMENT_SHADER: u32 = 2;
const PROGRAM: u32 = 3;
const BUFFER: u32 = 11;
const ARRAY: u32 = 21;
const LOCATION: i32 = 5;

fn good() -> [SetupReply; 11] {
    [
        SetupReply::Object { id: VERTEX_SHADER },
        SetupReply::Object { id: FRAGMENT_SHADER },
        SetupReply::Object { id: PROGRAM },
        SetupReply::Object { id: BUFFER },
        SetupReply::Object { id: ARRAY },
        SetupReply::Nothing,
        SetupReply::Nothing,
        SetupReply::Nothing,
        SetupReply::Nothing,
        SetupReply::Nothing,
        SetupReply::Location { index: LOCATION },
    ]
}

fn run(policy: FaultPolicy, replies: &[SetupReply]) -> Setup {
    let mut setup = Setup::new(policy);
    for reply in replies {
        setup.advance(*reply);
    }
    setup
}

#[test]
fn quad_spans_the_normalized_device_area() {
    let quad = quad();
    assert_eq!(
        quad,
        Quad {
            bottom_left: Vertex { x: -1, y: -1, z: 0 },
            bottom_right: Vertex { x: 1, y: -1, z: 0 },
            top_left: Vertex { x: -1, y: 1, z: 0 },
            top_right: Vertex { x: 1, y: 1, z: 0 },
        }
    );
    assert_eq!(
        quad.vertices(),
        [
            Vertex { x: -1, y: -1, z: 0 },
            Vertex { x: 1, y: -1, z: 0 },
            Vertex { x: -1, y: 1, z: 0 },
            Vertex { x: 1, y: 1, z: 0 },
        ]
    );
    assert_eq!(quad.vertices().len(), VERTEX_COUNT);
}

#[test]
fn quad_as_floats_matches_the_buffer_layout() {
    let mut floats: Vec<f32> = Vec::new();
    for vertex in quad().vertices() {
        floats.push(vertex.x as f32);
        floats.push(vertex.y as f32);
        floats.push(vertex.z as f32);
    }
    assert_eq!(floats, vec![-1., -1., 0., 1., -1., 0., -1., 1., 0., 1., 1., 0.]);
    assert_eq!(floats.len() * COMPONENT_BYTES, buffer_bytes());
}

#[test]
fn layout_is_three_tightly_packed_floats() {
    assert_eq!(
        vertex_layout(),
        VertexLayout { attribute: 0, components: 3, normalized: false, stride: 12, offset: 0 }
    );
    assert_eq!(buffer_bytes(), 48);
    assert_eq!(COMPONENT_BYTES, 4);
    assert_eq!(VERTEX_COUNT, 4);
}

#[test]
fn time_input_is_called_v() {
    assert_eq!(time_uniform(), "v");
}

#[test]
fn replies_name_objects_and_locations() {
    assert_eq!(SetupReply::Object { id: 9 }.object(), 9);
    assert_eq!(SetupReply::Location { index: 9 }.object(), 0);
    assert_eq!(SetupReply::Nothing.object(), 0);
    assert_eq!(SetupReply::Location { index: 4 }.location(), 4);
    assert_eq!(SetupReply::Location { index: -1 }.location(), -1);
    assert_eq!(SetupReply::Object { id: 4 }.location(), -1);
    assert_eq!(SetupReply::Nothing.location(), -1);
}

#[test]
fn setup_issues_every_command_in_order() {
    let replies = good();
    let mut setup = Setup::new(FaultPolicy::Diagnostic);
    let expected = [
        (SetupStage::CompileVertex, SetupRequest::Compile { kind: ShaderKind::Vertex }),
        (SetupStage::CompileFragment, SetupRequest::Compile { kind: ShaderKind::Fragment }),
        (
            SetupStage::LinkProgram,
            SetupRequest::Link { vertex: VERTEX_SHADER, fragment: FRAGMENT_SHADER },
        ),
        (SetupStage::CreateBuffer, SetupRequest::CreateBuffer),
        (SetupStage::CreateVertexArray, SetupRequest::CreateVertexArray),
        (SetupStage::BindVertexArray, SetupRequest::BindVertexArray { array: ARRAY }),
        (SetupStage::BindBuffer, SetupRequest::BindBuffer { buffer: BUFFER }),
        (SetupStage::UploadVertices, SetupRequest::Upload { bytes: 48, vertices: quad() }),
        (SetupStage::EnableAttribute, SetupRequest::EnableAttribute { attribute: 0 }),
        (
            SetupStage::DescribeAttribute,
            SetupRequest::DescribeAttribute { layout: vertex_layout() },
        ),
        (SetupStage::ResolveTime, SetupRequest::ResolveUniform { program: PROGRAM, name: "v" }),
    ];
    for (step, (stage, request)) in expected.iter().enumerate() {
        assert_eq!(setup.stage(), *stage);
        assert_eq!(setup.request(), *request);
        setup.advance(replies[step]);
    }
    assert_eq!(setup.stage(), SetupStage::Ready);
    assert_eq!(setup.request(), SetupRequest::Done);
    let pipeline = setup.finish().unwrap();
    assert_eq!(pipeline.program(), PROGRAM);
    assert_eq!(pipeline.time_location(), LOCATION);
    assert_eq!(pipeline.vertex_array(), ARRAY);
    assert_eq!(pipeline.vertex_buffer(), BUFFER);
    assert_eq!(pipeline.vertices(), quad());
}

#[test]
fn unfinished_setup_hands_out_nothing() {
    let replies = good();
    for answered in 0..11 {
        assert!(run(FaultPolicy::Release, &replies[..answered]).finish().is_none());
    }
    assert!(run(FaultPolicy::Release, &replies).finish().is_some());
}

#[test]
fn shader_that_does_not_compile_is_a_fault_in_diagnostic_mode() {
    let mut replies = good();
    replies[0] = SetupReply::Object { id: 0 };
    let setup = run(FaultPolicy::Diagnostic, &replies);
    assert_eq!(setup.stage(), SetupStage::Failed { fault: Fault::ShaderCompilation });
    assert_eq!(setup.request(), SetupRequest::Abort { fault: Fault::ShaderCompilation });
    assert!(setup.finish().is_none());

    let mut replies = good();
    replies[1] = SetupReply::Nothing;
    let setup = run(FaultPolicy::Diagnostic, &replies);
    assert_eq!(setup.stage(), SetupStage::Failed { fault: Fault::ShaderCompilation });
}

#[test]
fn program_that_does_not_link_is_a_fault_in_diagnostic_mode() {
    let mut replies = good();
    replies[2] = SetupReply::Object { id: 0 };
    let setup = run(FaultPolicy::Diagnostic, &replies);
    assert_eq!(setup.stage(), SetupStage::Failed { fault: Fault::ProgramLink });
    assert_eq!(setup.request(), SetupRequest::Abort { fault: Fault::ProgramLink });
}

#[test]
fn release_setup_checks_nothing() {
    let setup = run(FaultPolicy::Release, &[SetupReply::Object { id: 0 }; 11]);
    assert_eq!(setup.stage(), SetupStage::Ready);
    let pipeline = setup.finish().unwrap();
    assert_eq!(pipeline.program(), 0);
    assert_eq!(pipeline.time_location(), -1);
    assert_eq!(pipeline.vertices(), quad());
}

#[test]
fn missing_time_input_is_not_checked() {
    let mut replies = good();
    replies[10] = SetupReply::Location { index: -1 };
    let setup = run(FaultPolicy::Diagnostic, &replies);
    assert_eq!(setup.stage(), SetupStage::Ready);
    assert_eq!(setup.finish().unwrap().time_location(), -1);
}
