use vstd::prelude::*;

use crate::geometry::{recorded, AnchorPoint, GeometryCache, TrayRect};
use crate::toggle::{toggle_actions, toggle_window_visibility, Action, WindowStatus};

verus! {

/// Identifier of the tray-menu item that shows or hides the window.
pub const SHOW_HIDE_ID: &'static str = "show_hide";

/// Identifier of the tray-menu item that ends the process.
pub const QUIT_ID: &'static str = "quit";

/// Mouse button of a tray click.
#[derive(Clone, Copy, Debug, PartialEq, Eq, Structural)]
pub enum MouseButton {
    Left,
    Right,
    Middle,
}

/// Whether a tray click reports the button going down or coming up.
#[derive(Clone, Copy, Debug, PartialEq, Eq, Structural)]
pub enum ButtonState {
    Up,
    Down,
}

/// Phase of a global hotkey event.
#[derive(Clone, Copy, Debug, PartialEq, Eq, Structural)]
pub enum HotkeyPhase {
    Pressed,
    Released,
}

/// The tray-menu items the shell reacts to.
#[derive(Clone, Copy, Debug, PartialEq, Eq, Structural)]
pub enum MenuChoice {
    ShowHide,
    Quit,
    Other,
}

/// An input event, as delivered by the platform. A tray rectangle is `None`
/// when the platform reported it in logical rather than physical units.
#[derive(Debug, PartialEq, Eq)]
pub enum Trigger {
    TrayClick { button: MouseButton, state: ButtonState, rect: Option<TrayRect> },
    TrayEnter { rect: Option<TrayRect> },
    TrayOther,
    MenuSelect { id: String },
    Hotkey { phase: HotkeyPhase },
}

pub open spec fn menu_choice_of(id: Seq<char>) -> MenuChoice {
    if id == SHOW_HIDE_ID@ {
        MenuChoice::ShowHide
    } else if id == QUIT_ID@ {
        MenuChoice::Quit
    } else {
        MenuChoice::Other
    }
}

/// The rectangle an event carries that updates the geometry cache: that of a
/// left-button release on the tray icon, or of the pointer entering it.
pub open spec fn geometry_of(t: Trigger) -> Option<TrayRect> {
    match t {
        Trigger::TrayClick { button: MouseButton::Left, state: ButtonState::Up, rect } => rect,
        Trigger::TrayEnter { rect } => rect,
        _ => None,
    }
}

/// The cache contents after `t` was handled with `prior` in the cache.
pub open spec fn cache_update(t: Trigger, prior: Option<AnchorPoint>) -> Option<AnchorPoint> {
    match geometry_of(t) {
        Some(rect) => recorded(prior, rect),
        None => prior,
    }
}

/// Whether `t` shows or hides the window.
pub open spec fn toggles(t: Trigger) -> bool {
    match t {
        Trigger::TrayClick { button: MouseButton::Left, state: ButtonState::Up, .. } => true,
        Trigger::MenuSelect { id } => menu_choice_of(id@) == MenuChoice::ShowHide,
        Trigger::Hotkey { phase: HotkeyPhase::Pressed } => true,
        _ => false,
    }
}

/// Whether `t` ends the process.
pub open spec fn quits(t: Trigger) -> bool {
    match t {
        Trigger::MenuSelect { id } => menu_choice_of(id@) == MenuChoice::Quit,
        _ => false,
    }
}

/// The commands answering `t`, once the cache holds `anchor`.
pub open spec fn trigger_response(
    t: Trigger,
    window: Option<WindowStatus>,
    anchor: Option<AnchorPoint>,
) -> Seq<Action> {
    if toggles(t) {
        toggle_actions(window, anchor)
    } else if quits(t) {
        seq![Action::Exit(0)]
    } else {
        Seq::empty()
    }
}

/// Which menu item the identifier `id` names.
pub fn menu_choice(id: &str) -> (r: MenuChoice)
    ensures
        r == menu_choice_of(id@),
{
    let owned = id.to_owned();
    if owned.eq(&SHOW_HIDE_ID.to_owned()) {
        MenuChoice::ShowHide
    } else if owned.eq(&QUIT_ID.to_owned()) {
        MenuChoice::Quit
    } else {
        MenuChoice::Other
    }
}

/// Handles one input event: records the tray geometry it carries, then
/// returns the commands that answer it, in order. A toggle placed by this
/// event uses the geometry the same event carried.
pub fn handle_trigger(trigger: &Trigger, window: Option<WindowStatus>, cache: &mut GeometryCache) -> (r:
    Vec<Action>)
    ensures
        final(cache)@ == cache_update(*trigger, old(cache)@),
        r@ == trigger_response(*trigger, window, final(cache)@),
{
    let (rect, toggle, quit) = match trigger {
        Trigger::TrayClick { button, state, rect } => {
            let left_up = match (button, state) {
                (MouseButton::Left, ButtonState::Up) => true,
                _ => false,
            };
            if left_up {
                (*rect, true, false)
            } else {
                (None, false, false)
            }
        },
        Trigger::TrayEnter { rect } => (*rect, false, false),
        Trigger::TrayOther => (None, false, false),
        Trigger::MenuSelect { id } => {
            let choice = menu_choice(id.as_str());
            match choice {
                MenuChoice::ShowHide => (None, true, false),
                MenuChoice::Quit => (None, false, true),
                MenuChoice::Other => (None, false, false),
            }
        },
        Trigger::Hotkey { phase } => match phase {
            HotkeyPhase::Pressed => (None, true, false),
            HotkeyPhase::Released => (None, false, false),
        },
    };
    if let Some(r) = rect {
        cache.record(r);
    }
    if toggle {
        toggle_window_visibility(window, cache)
    } else if quit {
        let mut actions: Vec<Action> = Vec::new();
        actions.push(Action::Exit(0));
        proof {
            assert(actions@ =~= seq![Action::Exit(0)]);
        }
        actions
    } else {
        let actions: Vec<Action> = Vec::new();
        proof {
            assert(actions@ =~= Seq::<Action>::empty());
        }
        actions
    }
}

/// Choosing "quit" answers with an exit of status 0 and nothing else,
/// whatever the window's state: no hide is announced first.
pub proof fn lemma_quit_only_exits(
    t: Trigger,
    window: Option<WindowStatus>,
    anchor: Option<AnchorPoint>,
)
    requires
        t is MenuSelect,
        t->MenuSelect_id@ == QUIT_ID@,
    ensures
        trigger_response(t, window, anchor) == seq![Action::Exit(0)],
{
    reveal_strlit("quit");
    reveal_strlit("show_hide");
    assert(QUIT_ID@.len() != SHOW_HIDE_ID@.len());
}

} // verus!
