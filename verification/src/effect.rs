//! What the controller asks the shell to do: operations on the two
//! surfaces and one-way notifications to their content.

use vstd::prelude::*;
use vstd::string::StringExecFns;
use crate::geometry::Size;
use crate::geometry::TopLeft;

verus! {

/// The two top-level surfaces of the application.
#[derive(Clone, Copy, Debug, PartialEq, Eq, Structural)]
pub enum Surface {
    Main,
    TrayMenu,
}

impl Surface {
    /// The logical name under which the surface is registered.
    pub open spec fn label_of(self) -> Seq<char> {
        match self {
            Surface::Main => "main"@,
            Surface::TrayMenu => "tray-menu"@,
        }
    }

    /// The surface registered under `label`, if it is one of the two.
    pub open spec fn named(label: Seq<char>) -> Option<Surface> {
        if label == "main"@ {
            Some(Surface::Main)
        } else if label == "tray-menu"@ {
            Some(Surface::TrayMenu)
        } else {
            None
        }
    }

    pub fn label(self) -> (label: &'static str)
        ensures
            label@ == self.label_of(),
    {
        match self {
            Surface::Main => "main",
            Surface::TrayMenu => "tray-menu",
        }
    }

    pub fn from_label(label: &str) -> (surface: Option<Surface>)
        ensures
            surface == Surface::named(label@),
    {
        let given = String::from_str(label);
        if given == String::from_str("main") {
            Some(Surface::Main)
        } else if given == String::from_str("tray-menu") {
            Some(Surface::TrayMenu)
        } else {
            None
        }
    }
}

/// Labels and surfaces correspond one to one.
pub proof fn lemma_label_round_trip(surface: Surface)
    ensures
        Surface::named(surface.label_of()) == Some(surface),
{
    reveal_strlit("main");
    reveal_strlit("tray-menu");
    assert("main"@.len() != "tray-menu"@.len());
}

/// A one-way message to the content of a surface. Nothing is awaited in
/// return.
#[derive(Clone, Debug, PartialEq, Eq)]
pub enum Notification {
    /// Where the tray was clicked, so that the menu can draw itself
    /// relative to that point.
    TrayMenuPosition { x: i32, y: i32 },
    /// Asks the main content to go to `path`.
    Navigate { path: String, replace: bool },
    TrayQuit,
    TrayToggleSync,
    TraySetAutoSync { enabled: bool },
    WindowCloseRequested,
}

impl Notification {
    /// The event name under which the content listens for the notification.
    pub open spec fn name_of(self) -> Seq<char> {
        match self {
            Notification::TrayMenuPosition { .. } => "tray-menu-position"@,
            Notification::Navigate { .. } => "efgh:navigate"@,
            Notification::TrayQuit => "tray-quit"@,
            Notification::TrayToggleSync => "tray-toggle-sync"@,
            Notification::TraySetAutoSync { .. } => "tray-set-auto-sync"@,
            Notification::WindowCloseRequested => "window-close-requested"@,
        }
    }

    pub fn name(&self) -> (name: &'static str)
        ensures
            name@ == self.name_of(),
    {
        match self {
            Notification::TrayMenuPosition { .. } => "tray-menu-position",
            Notification::Navigate { .. } => "efgh:navigate",
            Notification::TrayQuit => "tray-quit",
            Notification::TrayToggleSync => "tray-toggle-sync",
            Notification::TraySetAutoSync { .. } => "tray-set-auto-sync",
            Notification::WindowCloseRequested => "window-close-requested",
        }
    }
}

/// How a surface is to be built.
#[derive(Clone, Copy, Debug, PartialEq, Eq, Structural)]
pub struct WindowOptions {
    pub size: Size,
    pub decorations: bool,
    pub resizable: bool,
    pub always_on_top: bool,
    pub skip_taskbar: bool,
    pub transparent: bool,
    pub shadow: bool,
    pub visible: bool,
    pub focused: bool,
}

impl WindowOptions {
    /// A bare, transparent, topmost surface that is built out of sight, so
    /// that its first paint is over before it is first shown.
    pub open spec fn prewarmed_options(size: Size) -> WindowOptions {
        WindowOptions {
            size,
            decorations: false,
            resizable: false,
            always_on_top: true,
            skip_taskbar: true,
            transparent: true,
            shadow: false,
            visible: false,
            focused: false,
        }
    }

    pub fn prewarmed(size: Size) -> (options: WindowOptions)
        ensures
            options == WindowOptions::prewarmed_options(size),
    {
        WindowOptions {
            size,
            decorations: false,
            resizable: false,
            always_on_top: true,
            skip_taskbar: true,
            transparent: true,
            shadow: false,
            visible: false,
            focused: false,
        }
    }
}

/// One step for the shell to carry out. Steps on a surface that does not
/// exist, or that the system rejects, are skipped silently.
#[derive(Clone, Debug, PartialEq, Eq)]
pub enum Effect {
    /// Build the tray menu surface.
    CreateTrayMenu(WindowOptions),
    Show(Surface),
    Hide(Surface),
    Unminimize(Surface),
    Focus(Surface),
    Resize(Surface, Size),
    MoveTo(Surface, TopLeft),
    /// Send the notification to the content of the surface.
    Emit(Surface, Notification),
    /// Keep the surface open although its close was requested.
    PreventClose(Surface),
    /// End the process, but not before the delay has passed.
    ExitAfter { millis: u64 },
}

/// The steps that bring the main window in front of the user.
pub open spec fn reveal_main_effects() -> Seq<Effect> {
    seq![
        Effect::Unminimize(Surface::Main),
        Effect::Show(Surface::Main),
        Effect::Focus(Surface::Main),
    ]
}

/// Brings the main window in front of the user.
pub fn show_main_window() -> (effects: Vec<Effect>)
    ensures
        effects@ == reveal_main_effects(),
{
    let mut effects: Vec<Effect> = Vec::new();
    effects.push(Effect::Unminimize(Surface::Main));
    effects.push(Effect::Show(Surface::Main));
    effects.push(Effect::Focus(Surface::Main));
    assert(effects@ =~= reveal_main_effects());
    effects
}

/// Appends `more` to `effects`.
pub fn extend(effects: &mut Vec<Effect>, more: Vec<Effect>)
    ensures
        final(effects)@ == old(effects)@ + more@,
{
    let mut more = more;
    effects.append(&mut more);
}

} // verus!
