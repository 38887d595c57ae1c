//! How each window of the shell is presented.

use vstd::prelude::*;
use crate::window_name::WindowName;

verus! {

/// What the size of a window means.
#[derive(Clone, Copy, Debug, PartialEq, Eq, Structural)]
pub enum SizeRule {
    /// The window is never smaller than this, and may grow.
    Minimum,
    /// The window has exactly this size.
    Fixed,
}

/// The presentation of a window, as the windowing system is asked for it.
/// Sizes are in logical pixels of the inner area.
#[derive(Clone, Copy, Debug, PartialEq, Eq)]
pub struct WindowConfig {
    pub name: WindowName,
    /// The page of the embedded interface that the window shows.
    pub url: &'static str,
    pub title: &'static str,
    pub width: u32,
    pub height: u32,
    pub size: SizeRule,
    pub resizable: bool,
    pub centered: bool,
}

/// A `WindowConfig` as a mathematical value.
pub ghost struct WindowParams {
    pub name: WindowName,
    pub url: Seq<char>,
    pub title: Seq<char>,
    pub width: nat,
    pub height: nat,
    pub size: SizeRule,
    pub resizable: bool,
    pub centered: bool,
}

impl View for WindowConfig {
    type V = WindowParams;

    open spec fn view(&self) -> WindowParams {
        WindowParams {
            name: self.name,
            url: self.url@,
            title: self.title@,
            width: self.width as nat,
            height: self.height as nat,
            size: self.size,
            resizable: self.resizable,
            centered: self.centered,
        }
    }
}

/// The main window: at least 800 by 600, resizable, in the middle of the
/// screen.
pub open spec fn main_window() -> WindowParams {
    WindowParams {
        name: WindowName::Main,
        url: "windows/main.html"@,
        title: "Open 2E: Open Ended Evaluation"@,
        width: 800,
        height: 600,
        size: SizeRule::Minimum,
        resizable: true,
        centered: true,
    }
}

/// The setup window: exactly 800 by 600, not resizable, in the middle of
/// the screen.
pub open spec fn setup_window() -> WindowParams {
    WindowParams {
        name: WindowName::Setup,
        url: "windows/setup.html"@,
        title: "Open2E: Initialization"@,
        width: 800,
        height: 600,
        size: SizeRule::Fixed,
        resizable: false,
        centered: true,
    }
}

impl WindowConfig {
    /// The presentation of the main window.
    pub fn main() -> (config: WindowConfig)
        ensures
            config@ == main_window(),
    {
        WindowConfig {
            name: WindowName::Main,
            url: "windows/main.html",
            title: "Open 2E: Open Ended Evaluation",
            width: 800,
            height: 600,
            size: SizeRule::Minimum,
            resizable: true,
            centered: true,
        }
    }

    /// The presentation of the setup window.
    pub fn setup() -> (config: WindowConfig)
        ensures
            config@ == setup_window(),
    {
        WindowConfig {
            name: WindowName::Setup,
            url: "windows/setup.html",
            title: "Open2E: Initialization",
            width: 800,
            height: 600,
            size: SizeRule::Fixed,
            resizable: false,
            centered: true,
        }
    }
}

} // verus!
