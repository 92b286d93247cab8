//! Lifecycle of the tray menu: built once and out of sight, then shown and
//! hidden for as long as the process runs.

use vstd::prelude::*;
use crate::effect::Effect;
use crate::effect::Notification;
use crate::effect::Surface;
use crate::effect::WindowOptions;
use crate::geometry::place;
use crate::geometry::placed;
use crate::geometry::resolve;
use crate::geometry::resolved;
use crate::geometry::Bounds;
use crate::geometry::Point;
use crate::geometry::Size;

verus! {

/// Where the tray menu stands in its life.
#[derive(Clone, Copy, Debug, PartialEq, Eq, Structural)]
pub enum PopupState {
    /// Not built yet.
    Uninitialized,
    /// Built and out of sight.
    Hidden,
    /// On screen.
    Visible,
}

/// Width of the tray menu unless configured otherwise.
pub const MENU_WIDTH: u32 = 236;

/// Height of the tray menu unless configured otherwise.
pub const MENU_HEIGHT: u32 = 244;

/// Free space kept between the tray menu and the edges of its display.
pub const MENU_MARGIN: u32 = 8;

/// Route, within the application, of the page that the tray menu shows.
pub fn tray_menu_route() -> (route: &'static str)
    ensures
        route@ == "/tray-menu"@,
{
    "/tray-menu"
}

/// Title of the tray menu surface.
pub fn tray_menu_title() -> (title: &'static str)
    ensures
        title@ == "托盘菜单"@,
{
    "托盘菜单"
}

/// What a `TrayMenu` stands for: its state and its fixed layout.
pub struct TrayMenuModel {
    pub state: PopupState,
    pub size: Size,
    pub margin: u32,
}

/// Owner of the one tray menu surface.
#[derive(Clone, Copy, Debug, PartialEq, Eq)]
pub struct TrayMenu {
    state: PopupState,
    size: Size,
    margin: u32,
}

impl View for TrayMenu {
    type V = TrayMenuModel;

    closed spec fn view(&self) -> TrayMenuModel {
        TrayMenuModel { state: self.state, size: self.size, margin: self.margin }
    }
}

/// State read off the surface registry: a surface that does not exist is
/// not built, one that exists is hidden or visible.
pub open spec fn observed(exists: bool, visible: bool) -> PopupState {
    if !exists {
        PopupState::Uninitialized
    } else if visible {
        PopupState::Visible
    } else {
        PopupState::Hidden
    }
}

/// State after making sure the surface is built.
pub open spec fn ensured(state: PopupState) -> PopupState {
    match state {
        PopupState::Uninitialized => PopupState::Hidden,
        PopupState::Hidden => PopupState::Hidden,
        PopupState::Visible => PopupState::Visible,
    }
}

/// Steps that make sure the surface is built: one construction, out of
/// sight, if it is not built yet, and nothing otherwise.
pub open spec fn ensure_effects(menu: TrayMenuModel) -> Seq<Effect> {
    if menu.state == PopupState::Uninitialized {
        seq![Effect::CreateTrayMenu(WindowOptions::prewarmed_options(menu.size))]
    } else {
        Seq::empty()
    }
}

/// State after a request to hide.
pub open spec fn hidden(state: PopupState) -> PopupState {
    match state {
        PopupState::Uninitialized => PopupState::Uninitialized,
        PopupState::Hidden => PopupState::Hidden,
        PopupState::Visible => PopupState::Hidden,
    }
}

/// Steps of a request to hide: one if the menu is on screen, none otherwise.
pub open spec fn hide_effects(state: PopupState) -> Seq<Effect> {
    if state == PopupState::Visible {
        seq![Effect::Hide(Surface::TrayMenu)]
    } else {
        Seq::empty()
    }
}

/// State after a request to show: the same request closes an open menu.
pub open spec fn toggled(state: PopupState) -> PopupState {
    match state {
        PopupState::Uninitialized => PopupState::Visible,
        PopupState::Hidden => PopupState::Visible,
        PopupState::Visible => PopupState::Hidden,
    }
}

/// Steps that put a built, hidden menu on screen for a trigger at `point`:
/// fixed size, position on the display of the point, show, focus, and the
/// trigger point itself for the content.
pub open spec fn open_effects(menu: TrayMenuModel, point: Point, monitors: Seq<Bounds>) -> Seq<
    Effect,
> {
    seq![
        Effect::Resize(Surface::TrayMenu, menu.size),
        Effect::MoveTo(
            Surface::TrayMenu,
            placed(point, resolved(point, monitors), menu.size, menu.margin),
        ),
        Effect::Show(Surface::TrayMenu),
        Effect::Focus(Surface::TrayMenu),
        Effect::Emit(Surface::TrayMenu, Notification::TrayMenuPosition { x: point.x, y: point.y }),
    ]
}

/// Steps of a request to show at `point`.
pub open spec fn show_effects(menu: TrayMenuModel, point: Point, monitors: Seq<Bounds>) -> Seq<
    Effect,
> {
    if menu.state == PopupState::Visible {
        seq![Effect::Hide(Surface::TrayMenu)]
    } else {
        ensure_effects(menu) + open_effects(menu, point, monitors)
    }
}

/// Number of constructions among the steps.
pub open spec fn constructions(effects: Seq<Effect>) -> nat
    decreases effects.len(),
{
    if effects.len() == 0 {
        0
    } else {
        let rest = constructions(effects.drop_last());
        if effects.last() is CreateTrayMenu {
            rest + 1
        } else {
            rest
        }
    }
}

impl TrayMenu {
    /// A menu of the usual layout that is not built yet.
    pub fn new() -> (menu: TrayMenu)
        ensures
            menu@.state == PopupState::Uninitialized,
            menu@.size == (Size { width: MENU_WIDTH, height: MENU_HEIGHT }),
            menu@.margin == MENU_MARGIN,
    {
        TrayMenu {
            state: PopupState::Uninitialized,
            size: Size { width: MENU_WIDTH, height: MENU_HEIGHT },
            margin: MENU_MARGIN,
        }
    }

    /// A menu of the given layout that is not built yet.
    pub fn with_layout(size: Size, margin: u32) -> (menu: TrayMenu)
        ensures
            menu@.state == PopupState::Uninitialized,
            menu@.size == size,
            menu@.margin == margin,
    {
        TrayMenu { state: PopupState::Uninitialized, size, margin }
    }

    pub fn state(&self) -> (state: PopupState)
        ensures
            state == self@.state,
    {
        self.state
    }

    pub fn size(&self) -> (size: Size)
        ensures
            size == self@.size,
    {
        self.size
    }

    pub fn margin(&self) -> (margin: u32)
        ensures
            margin == self@.margin,
    {
        self.margin
    }

    /// Takes the state from what the surface registry reports, for a shell
    /// that asks the registry before every operation instead of keeping
    /// the menu between operations. The layout stays.
    pub fn sync(&mut self, exists: bool, visible: bool)
        ensures
            final(self)@.state == observed(exists, visible),
            final(self)@.size == old(self)@.size,
            final(self)@.margin == old(self)@.margin,
    {
        self.state = if !exists {
            PopupState::Uninitialized
        } else if visible {
            PopupState::Visible
        } else {
            PopupState::Hidden
        };
    }

    /// Makes sure the surface is built, out of sight. Does nothing once it
    /// is.
    pub fn ensure_tray_menu_window(&mut self) -> (effects: Vec<Effect>)
        ensures
            final(self)@.state == ensured(old(self)@.state),
            final(self)@.size == old(self)@.size,
            final(self)@.margin == old(self)@.margin,
            effects@ == ensure_effects(old(self)@),
    {
        let mut effects: Vec<Effect> = Vec::new();
        match self.state {
            PopupState::Uninitialized => {
                effects.push(Effect::CreateTrayMenu(WindowOptions::prewarmed(self.size)));
                self.state = PopupState::Hidden;
            },
            _ => {},
        }
        assert(effects@ =~= ensure_effects(old(self)@));
        effects
    }

    /// Answers a trigger at `point`: closes the menu if it is open, else
    /// opens it next to the point on the display the point lies on.
    pub fn show_tray_menu(&mut self, point: Point, monitors: &Vec<Bounds>) -> (effects: Vec<
        Effect,
    >)
        ensures
            final(self)@.state == toggled(old(self)@.state),
            final(self)@.size == old(self)@.size,
            final(self)@.margin == old(self)@.margin,
            effects@ == show_effects(old(self)@, point, monitors@),
    {
        let mut effects = self.ensure_tray_menu_window();
        match self.state {
            PopupState::Visible => {
                effects.push(Effect::Hide(Surface::TrayMenu));
                self.state = PopupState::Hidden;
            },
            _ => {
                let bounds = resolve(point, monitors);
                let at = place(point, bounds, self.size, self.margin);
                effects.push(Effect::Resize(Surface::TrayMenu, self.size));
                effects.push(Effect::MoveTo(Surface::TrayMenu, at));
                effects.push(Effect::Show(Surface::TrayMenu));
                effects.push(Effect::Focus(Surface::TrayMenu));
                effects.push(
                    Effect::Emit(
                        Surface::TrayMenu,
                        Notification::TrayMenuPosition { x: point.x, y: point.y },
                    ),
                );
                self.state = PopupState::Visible;
            },
        }
        assert(effects@ =~= show_effects(old(self)@, point, monitors@));
        effects
    }

    /// Takes the menu off the screen if it is on it. Does nothing otherwise.
    pub fn hide_tray_menu(&mut self) -> (effects: Vec<Effect>)
        ensures
            final(self)@.state == hidden(old(self)@.state),
            final(self)@.size == old(self)@.size,
            final(self)@.margin == old(self)@.margin,
            effects@ == hide_effects(old(self)@.state),
            old(self)@.state != PopupState::Visible ==> effects@.len() == 0 && final(self)@
                == old(self)@,
    {
        let mut effects: Vec<Effect> = Vec::new();
        match self.state {
            PopupState::Visible => {
                effects.push(Effect::Hide(Surface::TrayMenu));
                self.state = PopupState::Hidden;
            },
            _ => {},
        }
        assert(effects@ =~= hide_effects(old(self)@.state));
        effects
    }
}

/// State after `calls` requests to make sure the surface is built.
pub open spec fn ensured_times(state: PopupState, calls: nat) -> PopupState
    decreases calls,
{
    if calls == 0 {
        state
    } else {
        ensured(ensured_times(state, (calls - 1) as nat))
    }
}

/// All steps of `calls` such requests in a row, on a menu that starts as
/// `menu`.
pub open spec fn ensure_effects_times(menu: TrayMenuModel, calls: nat) -> Seq<Effect>
    decreases calls,
{
    if calls == 0 {
        Seq::empty()
    } else {
        let before = (calls - 1) as nat;
        ensure_effects_times(menu, before) + ensure_effects(
            TrayMenuModel { state: ensured_times(menu.state, before), ..menu },
        )
    }
}

/// Hiding a menu that is not on screen changes nothing and asks for
/// nothing; hiding twice is hiding once.
pub proof fn lemma_hide_idempotent(state: PopupState)
    ensures
        state == PopupState::Hidden ==> hidden(state) == PopupState::Hidden && hide_effects(state)
            =~= Seq::<Effect>::empty(),
        hidden(hidden(state)) == hidden(state),
        hide_effects(hidden(state)) =~= Seq::<Effect>::empty(),
{
}

/// Two requests to show in a row, on a menu that is hidden, open it and
/// close it again: the first asks for the steps that open it, the second
/// for the one step that hides it, and the menu ends up hidden.
pub proof fn lemma_show_twice_closes(
    menu: TrayMenuModel,
    first: Point,
    second: Point,
    monitors: Seq<Bounds>,
)
    requires
        menu.state == PopupState::Hidden,
    ensures
        toggled(menu.state) == PopupState::Visible,
        show_effects(menu, first, monitors) =~= open_effects(menu, first, monitors),
        toggled(toggled(menu.state)) == PopupState::Hidden,
        show_effects(TrayMenuModel { state: toggled(menu.state), ..menu }, second, monitors)
            =~= seq![Effect::Hide(Surface::TrayMenu)],
{
}

/// There is never a second surface: a construction is asked for only of a
/// menu that is not built, and then as the very first step.
pub proof fn lemma_builds_only_when_unbuilt(
    menu: TrayMenuModel,
    point: Point,
    monitors: Seq<Bounds>,
    i: int,
)
    ensures
        0 <= i < show_effects(menu, point, monitors).len() && show_effects(
            menu,
            point,
            monitors,
        )[i] is CreateTrayMenu ==> menu.state == PopupState::Uninitialized && i == 0,
        0 <= i < ensure_effects(menu).len() && ensure_effects(menu)[i] is CreateTrayMenu
            ==> menu.state == PopupState::Uninitialized && i == 0,
        0 <= i < hide_effects(menu.state).len() ==> !(hide_effects(
            menu.state,
        )[i] is CreateTrayMenu),
{
}

/// Any number of requests to make sure the surface is built leaves the
/// state that one request leaves, and builds at most one surface: exactly
/// one if none was built before, and none otherwise.
pub proof fn lemma_ensure_builds_once(menu: TrayMenuModel, calls: nat)
    requires
        calls >= 1,
    ensures
        ensured_times(menu.state, calls) == ensured(menu.state),
        constructions(ensure_effects_times(menu, calls)) <= 1,
        constructions(ensure_effects_times(menu, calls)) == 1 <==> menu.state
            == PopupState::Uninitialized,
        ensure_effects_times(menu, calls) =~= ensure_effects(menu),
    decreases calls,
{
    let once = ensure_effects(menu);
    if calls == 1 {
        assert(ensured_times(menu.state, 0) == menu.state);
        assert(ensure_effects_times(menu, 0) =~= Seq::<Effect>::empty());
        assert((TrayMenuModel { state: menu.state, ..menu }) == menu);
        assert(ensure_effects_times(menu, 1) =~= once);
    } else {
        let before = (calls - 1) as nat;
        lemma_ensure_builds_once(menu, before);
        let settled = TrayMenuModel { state: ensured_times(menu.state, before), ..menu };
        assert(settled.state != PopupState::Uninitialized);
        assert(ensure_effects(settled) =~= Seq::<Effect>::empty());
        assert(ensure_effects_times(menu, calls) =~= once);
    }
    if menu.state == PopupState::Uninitialized {
        assert(once.len() == 1);
        assert(once.drop_last() =~= Seq::<Effect>::empty());
        assert(constructions(once.drop_last()) == 0);
        assert(once.last() is CreateTrayMenu);
        assert(constructions(once) == 1);
    } else {
        assert(once.len() == 0);
        assert(constructions(once) == 0);
    }
}

/// Once built, the surface stays built: no operation of the lifecycle
/// leads back to the state before construction.
pub proof fn lemma_never_unbuilt(state: PopupState)
    requires
        state != PopupState::Uninitialized,
    ensures
        ensured(state) != PopupState::Uninitialized,
        toggled(state) != PopupState::Uninitialized,
        hidden(state) != PopupState::Uninitialized,
{
}

} // verus!
