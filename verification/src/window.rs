//! Window-mode utilities: the configuration the window plugin installs
//! and the decision of which mode a toggle switches to.

use vstd::prelude::*;

verus! {

/// Which flavor of full screen the toggle switches into.
#[derive(Clone, Copy, PartialEq, Eq, Structural, Debug)]
pub enum FullScreenConfig {
    Fullscreen,
    BorderlessFullscreen,
}

/// The window configuration: a preferred size and the full-screen flavor
/// the toggle uses.
#[derive(Clone, Copy, Debug)]
pub struct WindowConfigs {
    pub size: (u32, u32),
    pub full_screen_mode: FullScreenConfig,
}

impl WindowConfigs {
    pub fn new(size: (u32, u32), full_screen_mode: FullScreenConfig) -> (configs: WindowConfigs)
        ensures
            configs.size == size,
            configs.full_screen_mode == full_screen_mode,
    {
        WindowConfigs { size, full_screen_mode }
    }
}

/// The mode a window is in, as far as the toggle distinguishes them.
#[derive(Clone, Copy, PartialEq, Eq, Structural, Debug)]
pub enum WindowModeKind {
    Windowed,
    Fullscreen,
    BorderlessFullscreen,
}

/// The mode a toggle keypress switches to: a windowed window enters the
/// configured full-screen flavor, and any full-screen mode returns to
/// windowed.
pub open spec fn spec_next_window_mode(current: WindowModeKind, config: FullScreenConfig) -> WindowModeKind {
    match current {
        WindowModeKind::Windowed => match config {
            FullScreenConfig::Fullscreen => WindowModeKind::Fullscreen,
            FullScreenConfig::BorderlessFullscreen => WindowModeKind::BorderlessFullscreen,
        },
        _ => WindowModeKind::Windowed,
    }
}

/// Computes the window mode a toggle keypress switches to.
pub fn next_window_mode(current: WindowModeKind, config: &FullScreenConfig) -> (next: WindowModeKind)
    ensures
        next == spec_next_window_mode(current, *config),
{
    match current {
        WindowModeKind::Windowed => match config {
            FullScreenConfig::Fullscreen => WindowModeKind::Fullscreen,
            FullScreenConfig::BorderlessFullscreen => WindowModeKind::BorderlessFullscreen,
        },
        _ => WindowModeKind::Windowed,
    }
}

/// The window utility plugin: decides the configuration installed at
/// startup; an external runtime wires the toggle to its input events.
#[derive(Clone, Default)]
pub struct WindowUtilPlugin;

impl WindowUtilPlugin {
    /// The configuration the plugin installs at startup: a 512 by 512
    /// preferred size and the exclusive full-screen flavor.
    pub fn initial_window_configs(&self) -> (configs: WindowConfigs)
        ensures
            configs.size == (512u32, 512u32),
            configs.full_screen_mode is Fullscreen,
    {
        WindowConfigs::new((512, 512), FullScreenConfig::Fullscreen)
    }
}

} // verus!
