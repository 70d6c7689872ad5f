//! The numbers that the windowing interface assigns to the messages, styles
//! and pixel-format options this library decides on.
//!
//! The values are read from `windows-sys` when the code runs. No function
//! here is verified: each contract repeats the number that the definition in
//! `windows-sys` gives, and the rest of the library is proved against those
//! contracts.

use vstd::prelude::*;
use windows_sys::Win32::Graphics::OpenGL::{
    PFD_DOUBLEBUFFER, PFD_DRAW_TO_WINDOW, PFD_SUPPORT_OPENGL, PFD_TYPE_RGBA,
};
use windows_sys::Win32::UI::WindowsAndMessaging::{
    CS_HREDRAW, CS_VREDRAW, CW_USEDEFAULT, MB_ICONERROR, WM_DESTROY, WM_PAINT, WM_QUIT,
    WS_OVERLAPPEDWINDOW, WS_VISIBLE,
};

verus! {

/// Reads `WM_QUIT` of `windows_sys::Win32::UI::WindowsAndMessaging`, the
/// message that asks the thread to leave its loop. Claimed: the value is 0x0012.
#[verifier::external_body]
pub(crate) fn wm_quit() -> (id: u32)
    ensures
        id == 0x0012,
{
    WM_QUIT
}

/// Reads `WM_PAINT` of `windows_sys::Win32::UI::WindowsAndMessaging`, the
/// message that asks a window to repaint. Claimed: the value is 0x000F.
#[verifier::external_body]
pub(crate) fn wm_paint() -> (id: u32)
    ensures
        id == 0x000F,
{
    WM_PAINT
}

/// Reads `WM_DESTROY` of `windows_sys::Win32::UI::WindowsAndMessaging`, the
/// message a window receives while it is destroyed. Claimed: the value is 0x0002.
#[verifier::external_body]
pub(crate) fn wm_destroy() -> (id: u32)
    ensures
        id == 0x0002,
{
    WM_DESTROY
}

/// Reads `CS_HREDRAW` of `windows_sys::Win32::UI::WindowsAndMessaging`, the
/// class style that redraws on a change of width. Claimed: the value is 0x0002.
#[verifier::external_body]
pub(crate) fn cs_hredraw() -> (style: u32)
    ensures
        style == 0x0002,
{
    CS_HREDRAW
}

/// Reads `CS_VREDRAW` of `windows_sys::Win32::UI::WindowsAndMessaging`, the
/// class style that redraws on a change of height. Claimed: the value is 0x0001.
#[verifier::external_body]
pub(crate) fn cs_vredraw() -> (style: u32)
    ensures
        style == 0x0001,
{
    CS_VREDRAW
}

/// Reads `WS_OVERLAPPEDWINDOW` of `windows_sys::Win32::UI::WindowsAndMessaging`,
/// the style of an ordinary framed top-level window. Claimed: the value is
/// 0x00CF_0000 (13565952).
#[verifier::external_body]
pub(crate) fn ws_overlappedwindow() -> (style: u32)
    ensures
        style == 0x00CF_0000,
{
    WS_OVERLAPPEDWINDOW
}

/// Reads `WS_VISIBLE` of `windows_sys::Win32::UI::WindowsAndMessaging`, the
/// style of a window that is shown as soon as it exists. Claimed: the value is
/// 0x1000_0000 (268435456).
#[verifier::external_body]
pub(crate) fn ws_visible() -> (style: u32)
    ensures
        style == 0x1000_0000,
{
    WS_VISIBLE
}

/// Reads `CW_USEDEFAULT` of `windows_sys::Win32::UI::WindowsAndMessaging`, the
/// coordinate that leaves position or size to the system. Claimed: the value
/// is -2147483648, the least `i32`.
#[verifier::external_body]
pub(crate) fn cw_usedefault() -> (coordinate: i32)
    ensures
        coordinate == -0x8000_0000,
{
    CW_USEDEFAULT
}

/// Reads `MB_ICONERROR` of `windows_sys::Win32::UI::WindowsAndMessaging`, the
/// message-box style with the error icon. Claimed: the value is 0x0010.
#[verifier::external_body]
pub(crate) fn mb_iconerror() -> (style: u32)
    ensures
        style == 0x0010,
{
    MB_ICONERROR
}

/// Reads `PFD_DRAW_TO_WINDOW` of `windows_sys::Win32::Graphics::OpenGL`, the
/// pixel-format flag for drawing to a window. Claimed: the value is 0x0004.
#[verifier::external_body]
pub(crate) fn pfd_draw_to_window() -> (flag: u32)
    ensures
        flag == 0x0004,
{
    PFD_DRAW_TO_WINDOW
}

/// Reads `PFD_SUPPORT_OPENGL` of `windows_sys::Win32::Graphics::OpenGL`, the
/// pixel-format flag for accelerated rendering. Claimed: the value is 0x0020.
#[verifier::external_body]
pub(crate) fn pfd_support_opengl() -> (flag: u32)
    ensures
        flag == 0x0020,
{
    PFD_SUPPORT_OPENGL
}

/// Reads `PFD_DOUBLEBUFFER` of `windows_sys::Win32::Graphics::OpenGL`, the
/// pixel-format flag for double buffering. Claimed: the value is 0x0001.
#[verifier::external_body]
pub(crate) fn pfd_doublebuffer() -> (flag: u32)
    ensures
        flag == 0x0001,
{
    PFD_DOUBLEBUFFER
}

/// Reads `PFD_TYPE_RGBA` of `windows_sys::Win32::Graphics::OpenGL`, the pixel
/// type with red, green, blue and alpha channels. Claimed: the value is 0.
#[verifier::external_body]
pub(crate) fn pfd_type_rgba() -> (pixel_type: u8)
    ensures
        pixel_type == 0,
{
    PFD_TYPE_RGBA
}

} // verus!
