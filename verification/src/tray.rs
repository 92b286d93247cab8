//! Pointer events on the tray icon and what they lead to.

use vstd::prelude::*;
use crate::effect::extend;
use crate::effect::reveal_main_effects;
use crate::effect::show_main_window;
use crate::effect::Effect;
use crate::geometry::Bounds;
use crate::geometry::Point;
use crate::popup::hidden;
use crate::popup::hide_effects;
use crate::popup::show_effects;
use crate::popup::toggled;
use crate::popup::TrayMenu;

verus! {

#[derive(Clone, Copy, Debug, PartialEq, Eq, Structural)]
pub enum MouseButton {
    Left,
    Right,
    Middle,
}

#[derive(Clone, Copy, Debug, PartialEq, Eq, Structural)]
pub enum ButtonState {
    Up,
    Down,
}

/// A pointer event on the tray icon.
#[derive(Clone, Copy, Debug, PartialEq, Eq, Structural)]
pub enum TrayEvent {
    Click { button: MouseButton, button_state: ButtonState, position: Point },
    /// Double clicks, and the pointer entering, moving over or leaving the
    /// icon.
    Other,
}

/// What a tray event asks for.
#[derive(Clone, Copy, Debug, PartialEq, Eq, Structural)]
pub enum TrayRoute {
    /// Bring up the main window.
    RevealMain,
    /// Open the tray menu at the point, or close it if it is open.
    ToggleMenu(Point),
    Ignore,
}

/// Releasing the left button reveals the main window, releasing the right
/// button toggles the menu where the pointer is, and nothing else counts.
pub open spec fn route_of(event: TrayEvent) -> TrayRoute {
    match event {
        TrayEvent::Click { button: MouseButton::Left, button_state: ButtonState::Up, .. } => {
            TrayRoute::RevealMain
        },
        TrayEvent::Click {
            button: MouseButton::Right,
            button_state: ButtonState::Up,
            position,
        } => TrayRoute::ToggleMenu(position),
        _ => TrayRoute::Ignore,
    }
}

/// Tells what a tray event asks for.
pub fn classify(event: TrayEvent) -> (route: TrayRoute)
    ensures
        route == route_of(event),
{
    match event {
        TrayEvent::Click { button, button_state, position } => {
            match button_state {
                ButtonState::Up => match button {
                    MouseButton::Left => TrayRoute::RevealMain,
                    MouseButton::Right => TrayRoute::ToggleMenu(position),
                    MouseButton::Middle => TrayRoute::Ignore,
                },
                ButtonState::Down => TrayRoute::Ignore,
            }
        },
        TrayEvent::Other => TrayRoute::Ignore,
    }
}

/// Answers a tray event. Revealing the main window first closes the menu,
/// so that the menu never floats above the window that has just been
/// activated.
pub fn on_tray_event(menu: &mut TrayMenu, event: TrayEvent, monitors: &Vec<Bounds>) -> (effects:
    Vec<Effect>)
    ensures
        final(menu)@.size == old(menu)@.size,
        final(menu)@.margin == old(menu)@.margin,
        match route_of(event) {
            TrayRoute::RevealMain => {
                &&& final(menu)@.state == hidden(old(menu)@.state)
                &&& effects@ == hide_effects(old(menu)@.state) + reveal_main_effects()
            },
            TrayRoute::ToggleMenu(point) => {
                &&& final(menu)@.state == toggled(old(menu)@.state)
                &&& effects@ == show_effects(old(menu)@, point, monitors@)
            },
            TrayRoute::Ignore => {
                &&& final(menu)@ == old(menu)@
                &&& effects@ == Seq::<Effect>::empty()
            },
        },
{
    match classify(event) {
        TrayRoute::RevealMain => {
            let mut effects = menu.hide_tray_menu();
            extend(&mut effects, show_main_window());
            effects
        },
        TrayRoute::ToggleMenu(point) => menu.show_tray_menu(point, monitors),
        TrayRoute::Ignore => Vec::new(),
    }
}

} // verus!
