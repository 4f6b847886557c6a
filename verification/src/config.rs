//! Startup configuration: everything the harness decides before the first
//! frame, as data with pinned values.
//!
//! The shell asks the context provider for a window and a context with
//! exactly these parameters. Keeping them here, behind contracts, makes the
//! bootstrap a matter of executing data rather than of scattered literals.

use vstd::prelude::*;

verus! {

/// The window and context parameters the harness starts with: framebuffer
/// size in pixels, the context version and profile to negotiate, whether the
/// window may be resized, whether the forward-compatibility flag is set on
/// the platform family that demands it, and how many display refresh cycles
/// each presented frame waits for.
#[derive(Clone, Copy, Debug, PartialEq, Eq, Structural)]
pub struct WindowConfig {
    pub width: u32,
    pub height: u32,
    pub context_major: u32,
    pub context_minor: u32,
    pub core_profile: bool,
    pub resizable: bool,
    pub forward_compat: bool,
    pub swap_interval: u32,
}

/// The fixed startup configuration: an 800 by 600 non-resizable window, a
/// core-profile context of version 3.3, forward compatibility where required,
/// and presentation synchronized to every display refresh.
pub fn startup_config() -> (c: WindowConfig)
    ensures
        c == (WindowConfig {
            width: 800,
            height: 600,
            context_major: 3,
            context_minor: 3,
            core_profile: true,
            resizable: false,
            forward_compat: true,
            swap_interval: 1,
        }),
{
    WindowConfig {
        width: 800,
        height: 600,
        context_major: 3,
        context_minor: 3,
        core_profile: true,
        resizable: false,
        forward_compat: true,
        swap_interval: 1,
    }
}

/// The title of the harness's window.
pub fn window_title() -> (t: &'static str)
    ensures
        t@ == "OpenGL playground"@,
{
    "OpenGL playground"
}

/// The name of the program's per-frame color uniform.
pub fn uniform_name() -> (t: &'static str)
    ensures
        t@ == "albedo"@,
{
    "albedo"
}

} // verus!
