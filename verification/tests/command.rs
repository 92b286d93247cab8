use tray_shell::command::{
    close_tray_menu, navigate_main, quit_app, set_auto_sync, show_main_window_cmd, toggle_sync,
    QUIT_DELAY_MS,
};
use tray_shell::effect::{extend, Effect, Notification, Surface};
use tray_shell::popup::{PopupState, TrayMenu};

fn reveal_main() -> Vec<Effect> {
    vec![
        Effect::Unminimize(Surface::Main),
        Effect::Show(Surface::Main),
        Effect::Focus(Surface::Main),
    ]
}

#[test]
fn close_tray_menu_hides_an_open_menu() {
    let mut menu = TrayMenu::new();
    menu.sync(true, true);
    assert_eq!(close_tray_menu(&mut menu), vec![Effect::Hide(Surface::TrayMenu)]);
    assert_eq!(menu.state(), PopupState::Hidden);
    assert_eq!(close_tray_menu(&mut menu), Vec::new());
    assert_eq!(menu.state(), PopupState::Hidden);
}

#[test]
fn show_main_window_cmd_reveals_the_main_window() {
    assert_eq!(show_main_window_cmd(), reveal_main());
}

#[test]
fn navigate_main_reveals_then_sends_the_path_replacing_history() {
    let mut expected = reveal_main();
    expected.push(Effect::Emit(
        Surface::Main,
        Notification::Navigate { path: String::from("/settings/sync"), replace: true },
    ));
    assert_eq!(navigate_main(String::from("/settings/sync")), expected);
}

#[test]
fn navigate_main_passes_an_empty_path_on() {
    let effects = navigate_main(String::new());
    assert_eq!(
        effects[3],
        Effect::Emit(Surface::Main, Notification::Navigate { path: String::new(), replace: true })
    );
}

#[test]
fn quit_with_the_menu_open_tells_hides_and_exits_after_the_delay() {
    let mut menu = TrayMenu::new();
    menu.sync(true, true);
    assert_eq!(
        quit_app(&mut menu),
        vec![
            Effect::Emit(Surface::Main, Notification::TrayQuit),
            Effect::Hide(Surface::TrayMenu),
            Effect::ExitAfter { millis: 100 },
        ]
    );
    assert_eq!(menu.state(), PopupState::Hidden);
}

#[test]
fn quit_with_the_menu_closed_tells_and_exits_after_the_delay() {
    let mut menu = TrayMenu::new();
    menu.sync(true, false);
    assert_eq!(
        quit_app(&mut menu),
        vec![
            Effect::Emit(Surface::Main, Notification::TrayQuit),
            Effect::ExitAfter { millis: 100 },
        ]
    );
    assert_eq!(menu.state(), PopupState::Hidden);
}

#[test]
fn quit_before_the_menu_is_built_leaves_it_unbuilt() {
    let mut menu = TrayMenu::new();
    let effects = quit_app(&mut menu);
    assert_eq!(effects.len(), 2);
    assert_eq!(menu.state(), PopupState::Uninitialized);
}

#[test]
fn the_quit_delay_is_short_and_not_zero() {
    assert_eq!(QUIT_DELAY_MS, 100);
    assert!(QUIT_DELAY_MS > 0);
}

#[test]
fn toggle_sync_sends_one_notification() {
    assert_eq!(toggle_sync(), vec![Effect::Emit(Surface::Main, Notification::TrayToggleSync)]);
}

#[test]
fn set_auto_sync_sends_the_wanted_setting() {
    assert_eq!(
        set_auto_sync(true),
        vec![Effect::Emit(Surface::Main, Notification::TraySetAutoSync { enabled: true })]
    );
    assert_eq!(
        set_auto_sync(false),
        vec![Effect::Emit(Surface::Main, Notification::TraySetAutoSync { enabled: false })]
    );
}

#[test]
fn extend_appends_in_order() {
    let mut effects = vec![Effect::Show(Surface::Main)];
    extend(&mut effects, vec![Effect::Focus(Surface::Main), Effect::Hide(Surface::TrayMenu)]);
    assert_eq!(
        effects,
        vec![
            Effect::Show(Surface::Main),
            Effect::Focus(Surface::Main),
            Effect::Hide(Surface::TrayMenu),
        ]
    );
}
