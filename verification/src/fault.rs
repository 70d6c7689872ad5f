//! The process-wide policy for states the program cannot recover from.
//!
//! A build runs under exactly one policy. Under the diagnostic policy every
//! internal check is made and the first fault is shown to the user before the
//! process ends with a nonzero status. Under the release policy no check is
//! made and a fault is a state the program assumes it never reaches.

use crate::platform::mb_iconerror;
use vstd::prelude::*;

verus! {

/// The two operating modes.
#[derive(Clone, Copy, Debug, PartialEq, Eq, Structural)]
pub enum FaultPolicy {
    /// Checks are made; a fault is reported and ends the process.
    Diagnostic,
    /// Checks are absent; faults are assumed impossible.
    Release,
}

/// The unrecoverable states the program knows of.
#[derive(Clone, Copy, Debug, PartialEq, Eq, Structural)]
pub enum Fault {
    /// The heap could not satisfy an allocation.
    OutOfMemory,
    /// The window class could not be registered.
    ClassRegistration,
    /// The window could not be created.
    WindowCreation,
    /// No pixel format matches the request.
    PixelFormatChoice,
    /// The chosen pixel format could not be applied to the surface.
    PixelFormatSelection,
    /// The rendering context could not be created.
    ContextCreation,
    /// The rendering context could not be made current.
    ContextActivation,
    /// A shader did not compile.
    ShaderCompilation,
    /// The shader program did not link.
    ProgramLink,
    /// The window's rectangle could not be read.
    WindowRect,
    /// Some other internal invariant did not hold.
    Invariant,
}

/// The status of a run that reached its end.
pub const EXIT_SUCCESS: u32 = 0;

/// The status of a run that a fault ended.
pub const EXIT_FAULT: u32 = 1;

/// The outcome of an internal check: `fault` if the policy makes checks and
/// the condition does not hold.
pub open spec fn spec_sanity_assert(policy: FaultPolicy, holds: bool, fault: Fault) -> Result<
    (),
    Fault,
> {
    if policy == FaultPolicy::Diagnostic && !holds {
        Err(fault)
    } else {
        Ok(())
    }
}

/// Makes an internal check under `policy`. Under the diagnostic policy a
/// condition that does not hold is the given fault; under the release policy
/// the condition is not looked at.
pub fn sanity_assert(policy: FaultPolicy, holds: bool, fault: Fault) -> (outcome: Result<
    (),
    Fault,
>)
    ensures
        outcome == spec_sanity_assert(policy, holds, fault),
{
    match policy {
        FaultPolicy::Diagnostic => if holds {
            Ok(())
        } else {
            Err(fault)
        },
        FaultPolicy::Release => Ok(()),
    }
}

/// A blocking modal error notification, ready to be shown.
#[derive(Clone, Copy, Debug, PartialEq, Eq)]
pub struct ErrorDialog<'a> {
    /// The window that owns the dialog; 0 for none.
    pub owner: isize,
    /// The text in the dialog.
    pub text: &'a str,
    /// The text in the dialog's title bar.
    pub caption: &'static str,
    /// The dialog's style bits.
    pub style: u32,
}

/// The error notification for `message`: no owner window, the fixed caption,
/// and the style with the error icon, 0x0010.
pub open spec fn spec_show_error<'a>(message: &'a str) -> ErrorDialog<'a> {
    ErrorDialog { owner: 0, text: message, caption: "Window::create", style: 0x0010 }
}

/// Composes the error notification for `message`.
pub fn show_error<'a>(message: &'a str) -> (dialog: ErrorDialog<'a>)
    ensures
        dialog == spec_show_error(message),
{
    ErrorDialog { owner: 0, text: message, caption: "Window::create", style: mb_iconerror() }
}

/// How the process ends once a fault has occurred.
#[derive(Clone, Copy, Debug, PartialEq, Eq)]
pub enum FaultResponse {
    /// Show `dialog`, wait for the user, then end the process with `status`.
    Abort { fault: Fault, dialog: ErrorDialog<'static>, status: u32 },
    /// The state is taken to be unreachable: nothing is shown to the user.
    Unreachable,
}

/// The end of the process after `fault`. Under the diagnostic policy the
/// user is shown the one message the program has for every fault and the
/// process ends with [`EXIT_FAULT`]; under the release policy the fault
/// counts as unreachable.
pub open spec fn spec_fault_response(policy: FaultPolicy, fault: Fault) -> FaultResponse {
    match policy {
        FaultPolicy::Diagnostic => FaultResponse::Abort {
            fault,
            dialog: spec_show_error("panic"),
            status: EXIT_FAULT,
        },
        FaultPolicy::Release => FaultResponse::Unreachable,
    }
}

/// Decides how the process ends after `fault`.
pub fn fault_response(policy: FaultPolicy, fault: Fault) -> (response: FaultResponse)
    ensures
        response == spec_fault_response(policy, fault),
{
    match policy {
        FaultPolicy::Diagnostic => FaultResponse::Abort {
            fault,
            dialog: show_error("panic"),
            status: EXIT_FAULT,
        },
        FaultPolicy::Release => FaultResponse::Unreachable,
    }
}

/// Decides how the process ends when the heap cannot satisfy a request:
/// allocation failure is a fault like any other.
pub fn alloc_error(policy: FaultPolicy) -> (response: FaultResponse)
    ensures
        response == spec_fault_response(policy, Fault::OutOfMemory),
{
    fault_response(policy, Fault::OutOfMemory)
}

} // verus!
