use tray_shell::effect::{Effect, Notification, Surface};
use tray_shell::geometry::{Bounds, Point, Size, TopLeft};
use tray_shell::popup::{PopupState, TrayMenu};
use tray_shell::tray::{classify, on_tray_event, ButtonState, MouseButton, TrayEvent, TrayRoute};

fn displays() -> Vec<Bounds> {
    vec![Bounds { x: 0, y: 0, width: 1920, height: 1080 }]
}

fn click(button: MouseButton, button_state: ButtonState) -> TrayEvent {
    TrayEvent::Click { button, button_state, position: Point { x: 1900, y: 1070 } }
}

fn reveal_main() -> Vec<Effect> {
    vec![
        Effect::Unminimize(Surface::Main),
        Effect::Show(Surface::Main),
        Effect::Focus(Surface::Main),
    ]
}

#[test]
fn classify_covers_every_button_and_state() {
    let at = Point { x: 1900, y: 1070 };
    assert_eq!(classify(click(MouseButton::Left, ButtonState::Up)), TrayRoute::RevealMain);
    assert_eq!(classify(click(MouseButton::Right, ButtonState::Up)), TrayRoute::ToggleMenu(at));
    assert_eq!(classify(click(MouseButton::Middle, ButtonState::Up)), TrayRoute::Ignore);
    assert_eq!(classify(click(MouseButton::Left, ButtonState::Down)), TrayRoute::Ignore);
    assert_eq!(classify(click(MouseButton::Right, ButtonState::Down)), TrayRoute::Ignore);
    assert_eq!(classify(click(MouseButton::Middle, ButtonState::Down)), TrayRoute::Ignore);
    assert_eq!(classify(TrayEvent::Other), TrayRoute::Ignore);
}

#[test]
fn left_release_closes_the_menu_before_revealing_the_main_window() {
    let mut menu = TrayMenu::new();
    menu.sync(true, true);
    let effects = on_tray_event(&mut menu, click(MouseButton::Left, ButtonState::Up), &displays());
    let mut expected = vec![Effect::Hide(Surface::TrayMenu)];
    expected.extend(reveal_main());
    assert_eq!(effects, expected);
    assert_eq!(menu.state(), PopupState::Hidden);
}

#[test]
fn left_release_with_the_menu_closed_only_reveals_the_main_window() {
    let mut menu = TrayMenu::new();
    menu.sync(true, false);
    let effects = on_tray_event(&mut menu, click(MouseButton::Left, ButtonState::Up), &displays());
    assert_eq!(effects, reveal_main());
    assert_eq!(menu.state(), PopupState::Hidden);
}

#[test]
fn right_release_opens_the_menu_at_the_pointer() {
    let mut menu = TrayMenu::new();
    menu.sync(true, false);
    let effects = on_tray_event(&mut menu, click(MouseButton::Right, ButtonState::Up), &displays());
    assert_eq!(
        effects,
        vec![
            Effect::Resize(Surface::TrayMenu, Size { width: 236, height: 244 }),
            Effect::MoveTo(Surface::TrayMenu, TopLeft { x: 1676, y: 818 }),
            Effect::Show(Surface::TrayMenu),
            Effect::Focus(Surface::TrayMenu),
            Effect::Emit(Surface::TrayMenu, Notification::TrayMenuPosition { x: 1900, y: 1070 }),
        ]
    );
    assert_eq!(menu.state(), PopupState::Visible);
}

#[test]
fn right_release_on_an_open_menu_closes_it() {
    let mut menu = TrayMenu::new();
    menu.sync(true, true);
    let effects = on_tray_event(&mut menu, click(MouseButton::Right, ButtonState::Up), &displays());
    assert_eq!(effects, vec![Effect::Hide(Surface::TrayMenu)]);
    assert_eq!(menu.state(), PopupState::Hidden);
}

#[test]
fn other_events_change_nothing() {
    for event in [
        click(MouseButton::Left, ButtonState::Down),
        click(MouseButton::Right, ButtonState::Down),
        click(MouseButton::Middle, ButtonState::Up),
        TrayEvent::Other,
    ] {
        let mut menu = TrayMenu::new();
        menu.sync(true, true);
        assert_eq!(on_tray_event(&mut menu, event, &displays()), Vec::new());
        assert_eq!(menu.state(), PopupState::Visible);
    }
}
