use intro_core::bootstrap::Request;
use intro_core::entry::{Action, Event, Program, WinMainCRTStartup};
use intro_core::fault::{show_error, Fault, FaultPolicy, FaultResponse};
use intro_core::pipeline::{SetupReply, SetupRequest, ShaderKind};
use intro_core::window::{handle_message, MessageQueue};
use windows_sys::Win32::UI::WindowsAndMessaging::{WM_PAINT, WM_QUIT};

const SURFACE: isize = 0x77;
const PLATFORM: [isize; 10] = [0x40_0000, 0xC001, 0x5_0A12, SURFACE, 7, 1, 0x2_0000, 1, 0, 0];

fn gpu() -> [SetupReply; 11] {
    [
        SetupReply::Object { id: 1 },
        SetupReply::Object { id: 2 },
        SetupReply::Object { id: 3 },
        SetupReply::Object { id: 11 },
        SetupReply::Object { id: 21 },
        SetupReply::Nothing,
        SetupReply::Nothing,
        SetupReply::Nothing,
        SetupReply::Nothing,
        SetupReply::Nothing,
        SetupReply::Location { index: 5 },
    ]
}

/// A program that has come through bootstrap, music and setup and polls
/// for the first time.
fn program_at_first_poll(policy: FaultPolicy) -> Program {
    let mut program = WinMainCRTStartup(policy);
    for reply in PLATFORM {
        assert!(matches!(program.action(), Action::Platform { .. }));
        program = program.advance(Event::Platform { reply });
    }
    assert_eq!(program.action(), Action::PlayMusic);
    program = program.advance(Event::MusicStarted);
    for reply in gpu() {
        assert!(matches!(program.action(), Action::Gpu { .. }));
        program = program.advance(Event::Gpu { answer: reply });
    }
    assert_eq!(program.action(), Action::PumpMessages);
    program
}

#[test]
fn program_starts_with_the_bootstrap() {
    let program = WinMainCRTStartup(FaultPolicy::Release);
    assert_eq!(program.action(), Action::Platform { request: Request::ModuleHandle });
}

#[test]
fn music_starts_after_the_window_and_before_the_shaders() {
    let mut program = WinMainCRTStartup(FaultPolicy::Diagnostic);
    for reply in PLATFORM {
        assert!(matches!(program.action(), Action::Platform { .. }));
        program = program.advance(Event::Platform { reply });
    }
    assert_eq!(program.action(), Action::PlayMusic);
    program = program.advance(Event::MusicStarted);
    assert_eq!(
        program.action(),
        Action::Gpu { command: SetupRequest::Compile { kind: ShaderKind::Vertex } }
    );
}

#[test]
fn events_that_answer_nothing_are_ignored() {
    let mut program = WinMainCRTStartup(FaultPolicy::Diagnostic);
    for event in [
        Event::MusicStarted,
        Event::Gpu { answer: SetupReply::Nothing },
        Event::Pumped { keep_running: false },
        Event::Presented,
    ] {
        program = program.advance(event);
        assert_eq!(program.action(), Action::Platform { request: Request::ModuleHandle });
    }
    let mut program = program_at_first_poll(FaultPolicy::Diagnostic);
    for event in [
        Event::Platform { reply: 0 },
        Event::MusicStarted,
        Event::Gpu { answer: SetupReply::Object { id: 0 } },
        Event::Presented,
    ] {
        program = program.advance(event);
        assert_eq!(program.action(), Action::PumpMessages);
    }
}

#[test]
fn window_close_on_iteration_ten_ends_the_program_with_success() {
    let mut queue = MessageQueue::new();
    let mut program = program_at_first_poll(FaultPolicy::Release);
    let mut iterations = 0;
    let mut draws = 0u64;
    let status = loop {
        match program.action() {
            Action::PumpMessages => {
                iterations += 1;
                queue.post(WM_PAINT);
                if iterations == 10 {
                    queue.post(WM_QUIT);
                }
                let keep_running = handle_message(&mut queue);
                program = program.advance(Event::Pumped { keep_running });
            }
            Action::Draw { frame, surface } => {
                assert_eq!(frame.time.frames, draws);
                assert_eq!(surface, SURFACE);
                draws += 1;
                program = program.advance(Event::Presented);
            }
            Action::Exit { status } => break status,
            other => panic!("unexpected action {:?}", other),
        }
    };
    assert_eq!(status, 0);
    assert_eq!(iterations, 10);
    assert_eq!(draws, 9);
    // The program has ended: nothing is drawn any more.
    program = program.advance(Event::Pumped { keep_running: true });
    assert_eq!(program.action(), Action::Exit { status: 0 });
    program = program.advance(Event::Presented);
    assert_eq!(program.action(), Action::Exit { status: 0 });
}

#[test]
fn undisturbed_program_runs_for_seventy_five_seconds() {
    let mut program = program_at_first_poll(FaultPolicy::Diagnostic);
    let mut polls = 0u64;
    let mut draws = 0u64;
    let status = loop {
        match program.action() {
            Action::PumpMessages => {
                polls += 1;
                program = program.advance(Event::Pumped { keep_running: true });
            }
            Action::Draw { frame, .. } => {
                assert_eq!(frame.time.frames, draws);
                assert_eq!(frame.program, 3);
                assert_eq!(frame.vertex_array, 21);
                assert_eq!(frame.time_location, 5);
                assert_eq!(frame.count, 4);
                draws += 1;
                program = program.advance(Event::Presented);
                if draws <= 4500 {
                    assert_eq!(program.action(), Action::PumpMessages);
                }
            }
            Action::Exit { status } => break status,
            other => panic!("unexpected action {:?}", other),
        }
    };
    assert_eq!(status, 0);
    assert_eq!(polls, 4501);
    assert_eq!(draws, 4501);
}

#[test]
fn failed_pixel_format_negotiation_ends_the_program_before_the_loop() {
    let mut program = WinMainCRTStartup(FaultPolicy::Diagnostic);
    for reply in &PLATFORM[..4] {
        program = program.advance(Event::Platform { reply: *reply });
    }
    assert!(matches!(
        program.action(),
        Action::Platform { request: Request::ChoosePixelFormat { surface: SURFACE, .. } }
    ));
    program = program.advance(Event::Platform { reply: 0 });
    let expected = Action::Abort {
        response: FaultResponse::Abort {
            fault: Fault::PixelFormatChoice,
            dialog: show_error("panic"),
            status: 1,
        },
    };
    assert_eq!(program.action(), expected);
    // Whatever is reported next, the program stays aborted.
    let later = [
        Event::Platform { reply: 1 },
        Event::MusicStarted,
        Event::Gpu { answer: SetupReply::Object { id: 1 } },
        Event::Pumped { keep_running: true },
        Event::Presented,
    ];
    for event in later {
        program = program.advance(event);
        assert_eq!(program.action(), expected);
    }
}

#[test]
fn failed_shader_ends_the_program_before_the_loop() {
    let mut program = WinMainCRTStartup(FaultPolicy::Diagnostic);
    for reply in PLATFORM {
        program = program.advance(Event::Platform { reply });
    }
    program = program.advance(Event::MusicStarted);
    program = program.advance(Event::Gpu { answer: SetupReply::Object { id: 1 } });
    program = program.advance(Event::Gpu { answer: SetupReply::Object { id: 0 } });
    assert!(matches!(
        program.action(),
        Action::Abort {
            response: FaultResponse::Abort { fault: Fault::ShaderCompilation, status: 1, .. }
        }
    ));
}

#[test]
fn release_program_checks_nothing() {
    let mut program = WinMainCRTStartup(FaultPolicy::Release);
    for _ in 0..10 {
        program = program.advance(Event::Platform { reply: 0 });
    }
    assert_eq!(program.action(), Action::PlayMusic);
    program = program.advance(Event::MusicStarted);
    for _ in 0..11 {
        program = program.advance(Event::Gpu { answer: SetupReply::Nothing });
    }
    assert_eq!(program.action(), Action::PumpMessages);
    program = program.advance(Event::Pumped { keep_running: true });
    match program.action() {
        Action::Draw { frame, surface } => {
            assert_eq!(surface, 0);
            assert_eq!(frame.program, 0);
            assert_eq!(frame.time_location, -1);
            assert_eq!(frame.time.frames, 0);
        }
        other => panic!("unexpected action {:?}", other),
    }
}
