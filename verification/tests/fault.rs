use intro_core::fault::{
    alloc_error, fault_response, sanity_assert, show_error, Fault, FaultPolicy, FaultResponse,
    EXIT_FAULT, EXIT_SUCCESS,
};

#[test]
fn diagnostic_check_reports_the_fault() {
    assert_eq!(
        sanity_assert(FaultPolicy::Diagnostic, false, Fault::WindowCreation),
        Err(Fault::WindowCreation)
    );
    assert_eq!(sanity_assert(FaultPolicy::Diagnostic, true, Fault::WindowCreation), Ok(()));
}

#[test]
fn release_check_is_absent() {
    assert_eq!(sanity_assert(FaultPolicy::Release, false, Fault::PixelFormatChoice), Ok(()));
    assert_eq!(sanity_assert(FaultPolicy::Release, true, Fault::PixelFormatChoice), Ok(()));
}

#[test]
fn error_dialog_has_fixed_caption_and_error_icon() {
    let dialog = show_error("shader");
    assert_eq!(dialog.owner, 0);
    assert_eq!(dialog.text, "shader");
    assert_eq!(dialog.caption, "Window::create");
    assert_eq!(dialog.style, 0x10);
    assert_eq!(dialog.style, windows_sys::Win32::UI::WindowsAndMessaging::MB_ICONERROR);
}

#[test]
fn diagnostic_fault_shows_panic_and_exits_nonzero() {
    match fault_response(FaultPolicy::Diagnostic, Fault::PixelFormatChoice) {
        FaultResponse::Abort { fault, dialog, status } => {
            assert_eq!(fault, Fault::PixelFormatChoice);
            assert_eq!(status, 1);
            assert_ne!(status, EXIT_SUCCESS);
            assert_eq!(dialog.text, "panic");
            assert_eq!(dialog.caption, "Window::create");
            assert_eq!(dialog.owner, 0);
            assert_eq!(dialog.style, 16);
        }
        FaultResponse::Unreachable => panic!("a diagnostic fault must be reported"),
    }
}

#[test]
fn every_fault_is_reported_under_the_diagnostic_policy() {
    let faults = [
        Fault::OutOfMemory,
        Fault::ClassRegistration,
        Fault::WindowCreation,
        Fault::PixelFormatChoice,
        Fault::PixelFormatSelection,
        Fault::ContextCreation,
        Fault::ContextActivation,
        Fault::ShaderCompilation,
        Fault::ProgramLink,
        Fault::WindowRect,
        Fault::Invariant,
    ];
    for fault in faults {
        assert_eq!(
            fault_response(FaultPolicy::Diagnostic, fault),
            FaultResponse::Abort { fault, dialog: show_error("panic"), status: EXIT_FAULT }
        );
        assert_eq!(fault_response(FaultPolicy::Release, fault), FaultResponse::Unreachable);
    }
}

#[test]
fn release_fault_is_unreachable() {
    assert_eq!(
        fault_response(FaultPolicy::Release, Fault::WindowCreation),
        FaultResponse::Unreachable
    );
}

#[test]
fn allocation_failure_follows_the_policy() {
    assert_eq!(alloc_error(FaultPolicy::Release), FaultResponse::Unreachable);
    assert_eq!(
        alloc_error(FaultPolicy::Diagnostic),
        fault_response(FaultPolicy::Diagnostic, Fault::OutOfMemory)
    );
    assert!(matches!(
        alloc_error(FaultPolicy::Diagnostic),
        FaultResponse::Abort { fault: Fault::OutOfMemory, status: 1, .. }
    ));
}

#[test]
fn exit_statuses() {
    assert_eq!(EXIT_SUCCESS, 0);
    assert_eq!(EXIT_FAULT, 1);
}
