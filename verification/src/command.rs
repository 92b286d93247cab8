//! Operations that the content of the surfaces can invoke. Each returns as
//! soon as its steps are decided; none waits for the content to answer.

use vstd::prelude::*;
use crate::effect::extend;
use crate::effect::reveal_main_effects;
use crate::effect::show_main_window;
use crate::effect::Effect;
use crate::effect::Notification;
use crate::effect::Surface;
use crate::popup::hidden;
use crate::popup::hide_effects;
use crate::popup::TrayMenu;

verus! {

/// Time left to the main content, in milliseconds, between the notice of
/// quitting and the end of the process.
pub const QUIT_DELAY_MS: u64 = 100;

/// The steps of quitting: the main content is told, the menu goes away if
/// it is on screen, and the process ends after the delay.
pub open spec fn quit_effects(state: crate::popup::PopupState) -> Seq<Effect> {
    seq![Effect::Emit(Surface::Main, Notification::TrayQuit)] + hide_effects(state) + seq![
        Effect::ExitAfter { millis: QUIT_DELAY_MS },
    ]
}

/// Closes the tray menu.
pub fn close_tray_menu(menu: &mut TrayMenu) -> (effects: Vec<Effect>)
    ensures
        final(menu)@.state == hidden(old(menu)@.state),
        final(menu)@.size == old(menu)@.size,
        final(menu)@.margin == old(menu)@.margin,
        effects@ == hide_effects(old(menu)@.state),
{
    menu.hide_tray_menu()
}

/// Brings the main window in front of the user.
pub fn show_main_window_cmd() -> (effects: Vec<Effect>)
    ensures
        effects@ == reveal_main_effects(),
{
    show_main_window()
}

/// Brings up the main window and asks its content to go to `path`, in
/// place of the page it shows.
pub fn navigate_main(path: String) -> (effects: Vec<Effect>)
    ensures
        effects@ == reveal_main_effects().push(
            Effect::Emit(Surface::Main, Notification::Navigate { path, replace: true }),
        ),
{
    let mut effects = show_main_window();
    effects.push(Effect::Emit(Surface::Main, Notification::Navigate { path, replace: true }));
    effects
}

/// Starts quitting.
pub fn quit_app(menu: &mut TrayMenu) -> (effects: Vec<Effect>)
    ensures
        final(menu)@.state == hidden(old(menu)@.state),
        final(menu)@.size == old(menu)@.size,
        final(menu)@.margin == old(menu)@.margin,
        effects@ == quit_effects(old(menu)@.state),
{
    let mut effects: Vec<Effect> = Vec::new();
    effects.push(Effect::Emit(Surface::Main, Notification::TrayQuit));
    extend(&mut effects, menu.hide_tray_menu());
    effects.push(Effect::ExitAfter { millis: QUIT_DELAY_MS });
    assert(effects@ =~= quit_effects(old(menu)@.state));
    effects
}

/// Asks the main content to switch synchronisation on or off, whichever
/// it is not.
pub fn toggle_sync() -> (effects: Vec<Effect>)
    ensures
        effects@ == seq![Effect::Emit(Surface::Main, Notification::TrayToggleSync)],
{
    let mut effects: Vec<Effect> = Vec::new();
    effects.push(Effect::Emit(Surface::Main, Notification::TrayToggleSync));
    assert(effects@ =~= seq![Effect::Emit(Surface::Main, Notification::TrayToggleSync)]);
    effects
}

/// Asks the main content to set automatic synchronisation to `enabled`.
pub fn set_auto_sync(enabled: bool) -> (effects: Vec<Effect>)
    ensures
        effects@ == seq![Effect::Emit(Surface::Main, Notification::TraySetAutoSync { enabled })],
{
    let mut effects: Vec<Effect> = Vec::new();
    effects.push(Effect::Emit(Surface::Main, Notification::TraySetAutoSync { enabled }));
    assert(effects@ =~= seq![
        Effect::Emit(Surface::Main, Notification::TraySetAutoSync { enabled }),
    ]);
    effects
}

/// Quitting always takes the menu off the screen, tells the main content
/// first, and ends the process last and never at once.
pub proof fn lemma_quit_order(state: crate::popup::PopupState)
    ensures
        quit_effects(state).first() == Effect::Emit(Surface::Main, Notification::TrayQuit),
        quit_effects(state).last() == (Effect::ExitAfter { millis: QUIT_DELAY_MS }),
        QUIT_DELAY_MS > 0,
        state == crate::popup::PopupState::Visible ==> quit_effects(state)[1] == Effect::Hide(
            Surface::TrayMenu,
        ),
        hidden(state) != crate::popup::PopupState::Visible,
{
}

} // verus!
