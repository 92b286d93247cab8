//! Window events: a close request on the main window is handed to its
//! content instead of being carried out, and the tray menu goes away when
//! it loses the focus.

use vstd::prelude::*;
use crate::effect::Effect;
use crate::effect::Notification;
use crate::effect::Surface;
use crate::popup::hidden;
use crate::popup::hide_effects;
use crate::popup::TrayMenu;

verus! {

/// An event on one of the surfaces.
#[derive(Clone, Copy, Debug, PartialEq, Eq, Structural)]
pub enum WindowEvent {
    /// The user asked to close the surface.
    CloseRequested,
    /// The surface gained (`true`) or lost (`false`) the focus.
    Focused(bool),
    Other,
}

/// What is done about a window event.
#[derive(Clone, Copy, Debug, PartialEq, Eq, Structural)]
pub enum WindowPolicy {
    /// Keep the main window open and tell its content about the request.
    InterceptClose,
    /// Take the tray menu off the screen.
    DismissMenu,
    /// Let the event take its usual course.
    Pass,
}

/// Only two events are acted upon: a close request on the main window and
/// a loss of focus on the tray menu.
pub open spec fn policy_of(label: Seq<char>, event: WindowEvent) -> WindowPolicy {
    match (Surface::named(label), event) {
        (Some(Surface::Main), WindowEvent::CloseRequested) => WindowPolicy::InterceptClose,
        (Some(Surface::TrayMenu), WindowEvent::Focused(false)) => WindowPolicy::DismissMenu,
        _ => WindowPolicy::Pass,
    }
}

/// The steps that turn a close request on the main window into a
/// notification: the window stays, and its content hears of the request
/// once.
pub open spec fn intercept_close_effects() -> Seq<Effect> {
    seq![
        Effect::PreventClose(Surface::Main),
        Effect::Emit(Surface::Main, Notification::WindowCloseRequested),
    ]
}

/// Decides what is done about `event` on the surface registered as `label`.
pub fn decide(label: &str, event: WindowEvent) -> (policy: WindowPolicy)
    ensures
        policy == policy_of(label@, event),
{
    match Surface::from_label(label) {
        Some(Surface::Main) => match event {
            WindowEvent::CloseRequested => WindowPolicy::InterceptClose,
            _ => WindowPolicy::Pass,
        },
        Some(Surface::TrayMenu) => match event {
            WindowEvent::Focused(focused) => if focused {
                WindowPolicy::Pass
            } else {
                WindowPolicy::DismissMenu
            },
            _ => WindowPolicy::Pass,
        },
        None => WindowPolicy::Pass,
    }
}

/// Answers `event` on the surface registered as `label`.
pub fn on_window_event(menu: &mut TrayMenu, label: &str, event: WindowEvent) -> (effects: Vec<
    Effect,
>)
    ensures
        final(menu)@.size == old(menu)@.size,
        final(menu)@.margin == old(menu)@.margin,
        match policy_of(label@, event) {
            WindowPolicy::InterceptClose => {
                &&& final(menu)@ == old(menu)@
                &&& effects@ == intercept_close_effects()
            },
            WindowPolicy::DismissMenu => {
                &&& final(menu)@.state == hidden(old(menu)@.state)
                &&& effects@ == hide_effects(old(menu)@.state)
            },
            WindowPolicy::Pass => {
                &&& final(menu)@ == old(menu)@
                &&& effects@ == Seq::<Effect>::empty()
            },
        },
{
    match decide(label, event) {
        WindowPolicy::InterceptClose => {
            let mut effects: Vec<Effect> = Vec::new();
            effects.push(Effect::PreventClose(Surface::Main));
            effects.push(Effect::Emit(Surface::Main, Notification::WindowCloseRequested));
            assert(effects@ =~= intercept_close_effects());
            effects
        },
        WindowPolicy::DismissMenu => menu.hide_tray_menu(),
        WindowPolicy::Pass => Vec::new(),
    }
}

} // verus!
