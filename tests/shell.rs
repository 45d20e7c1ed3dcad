use tray_shell::geometry::{store_tray_position, AnchorPoint, GeometryCache, TrayRect};
use tray_shell::placement::{compute_window_origin, size_or_default, Placement, WindowSize};
use tray_shell::router::{
    handle_trigger, menu_choice, ButtonState, HotkeyPhase, MenuChoice, MouseButton, Trigger,
};
use tray_shell::toggle::{toggle_window_visibility, Action, WindowStatus};

fn icon() -> TrayRect {
    TrayRect { x: 780, y: 0, width: 40, height: 22 }
}

fn hidden(width: u32) -> Option<WindowStatus> {
    Some(WindowStatus { visible: false, outer_size: Some(WindowSize { width, height: 500 }) })
}

fn visible() -> Option<WindowStatus> {
    Some(WindowStatus { visible: true, outer_size: Some(WindowSize { width: 400, height: 500 }) })
}

fn left_click(rect: Option<TrayRect>) -> Trigger {
    Trigger::TrayClick { button: MouseButton::Left, state: ButtonState::Up, rect }
}

fn menu(id: &str) -> Trigger {
    Trigger::MenuSelect { id: id.to_string() }
}

#[test]
fn record_then_read_gives_anchor_below_icon() {
    let mut cache = GeometryCache::new();
    cache.record(TrayRect { x: 10, y: 20, width: 31, height: 7 });
    assert_eq!(cache.read(), Some(AnchorPoint { x: 25, y: 31 }));
}

#[test]
fn record_handles_largest_rect() {
    let mut cache = GeometryCache::new();
    cache.record(TrayRect { x: i32::MAX, y: i32::MAX, width: u32::MAX, height: u32::MAX });
    let expected_x = i32::MAX as i64 + (u32::MAX / 2) as i64;
    let expected_y = i32::MAX as i64 + u32::MAX as i64 + 4;
    assert_eq!(cache.read(), Some(AnchorPoint { x: expected_x, y: expected_y }));
}

#[test]
fn fresh_cache_reads_absent() {
    let cache = GeometryCache::new();
    assert_eq!(cache.read(), None);
}

#[test]
fn recording_same_rect_twice_keeps_value() {
    let mut cache = GeometryCache::new();
    cache.record(icon());
    let first = cache.read();
    cache.record(icon());
    assert_eq!(cache.read(), first);
    assert_eq!(first, Some(AnchorPoint { x: 800, y: 26 }));
}

#[test]
fn later_record_overwrites_earlier() {
    let mut cache = GeometryCache::new();
    cache.record(icon());
    cache.record(TrayRect { x: 0, y: 100, width: 20, height: 20 });
    assert_eq!(cache.read(), Some(AnchorPoint { x: 10, y: 124 }));
}

#[test]
fn store_tray_position_adds_height_and_margin() {
    let mut cache = GeometryCache::new();
    store_tray_position(&mut cache, 800, 0, 22);
    assert_eq!(cache.read(), Some(AnchorPoint { x: 800, y: 26 }));
}

#[test]
fn origin_centres_window_under_anchor() {
    let origin = compute_window_origin(
        Some(AnchorPoint { x: 100, y: 50 }),
        Some(WindowSize { width: 400, height: 300 }),
    );
    assert_eq!(origin, Placement::At { x: -100, y: 50 });
}

#[test]
fn origin_without_anchor_is_top_center() {
    assert_eq!(compute_window_origin(None, Some(WindowSize { width: 400, height: 300 })), Placement::TopCenter);
    assert_eq!(compute_window_origin(None, None), Placement::TopCenter);
}

#[test]
fn origin_uses_default_size_when_unknown() {
    assert_eq!(size_or_default(None), WindowSize { width: 400, height: 500 });
    let origin = compute_window_origin(Some(AnchorPoint { x: 800, y: 26 }), None);
    assert_eq!(origin, Placement::At { x: 600, y: 26 });
}

#[test]
fn origin_with_odd_width_rounds_half_down() {
    let origin = compute_window_origin(
        Some(AnchorPoint { x: 800, y: 26 }),
        Some(WindowSize { width: 301, height: 300 }),
    );
    assert_eq!(origin, Placement::At { x: 650, y: 26 });
}

#[test]
fn toggle_hidden_places_then_shows() {
    let mut cache = GeometryCache::new();
    cache.record(icon());
    let actions = toggle_window_visibility(hidden(300), &cache);
    assert_eq!(
        actions,
        vec![
            Action::Place(Placement::At { x: 650, y: 26 }),
            Action::Show,
            Action::Focus,
            Action::EmitDidShow,
        ]
    );
}

#[test]
fn toggle_hidden_without_geometry_uses_top_center() {
    let cache = GeometryCache::new();
    let actions = toggle_window_visibility(hidden(300), &cache);
    assert_eq!(actions[0], Action::Place(Placement::TopCenter));
    assert_eq!(actions.len(), 4);
}

#[test]
fn toggle_visible_announces_then_hides() {
    let cache = GeometryCache::new();
    assert_eq!(toggle_window_visibility(visible(), &cache), vec![Action::EmitWillHide, Action::Hide]);
}

#[test]
fn toggle_without_window_does_nothing() {
    let cache = GeometryCache::new();
    assert!(toggle_window_visibility(None, &cache).is_empty());
}

#[test]
fn toggles_alternate_from_hidden() {
    let cache = GeometryCache::new();
    let mut is_visible = false;
    for _ in 0..5 {
        let status = Some(WindowStatus { visible: is_visible, outer_size: None });
        let actions = toggle_window_visibility(status, &cache);
        if actions.contains(&Action::Show) {
            assert!(!is_visible);
            is_visible = true;
        } else {
            assert_eq!(actions, vec![Action::EmitWillHide, Action::Hide]);
            assert!(is_visible);
            is_visible = false;
        }
    }
    assert!(is_visible);
}

#[test]
fn hover_then_toggle_centres_under_icon() {
    let mut cache = GeometryCache::new();
    let on_enter = handle_trigger(&Trigger::TrayEnter { rect: Some(icon()) }, hidden(400), &mut cache);
    assert!(on_enter.is_empty());
    assert_eq!(cache.read(), Some(AnchorPoint { x: 800, y: 26 }));
    let actions = handle_trigger(&Trigger::Hotkey { phase: HotkeyPhase::Pressed }, hidden(400), &mut cache);
    assert_eq!(actions[0], Action::Place(Placement::At { x: 800 - 200, y: 26 }));
}

#[test]
fn first_click_records_and_shows_at_its_own_anchor() {
    let mut cache = GeometryCache::new();
    let actions = handle_trigger(&left_click(Some(icon())), hidden(400), &mut cache);
    assert_eq!(cache.read(), Some(AnchorPoint { x: 800, y: 26 }));
    assert_eq!(
        actions,
        vec![
            Action::Place(Placement::At { x: 600, y: 26 }),
            Action::Show,
            Action::Focus,
            Action::EmitDidShow,
        ]
    );
}

#[test]
fn quit_while_visible_exits_without_hide() {
    let mut cache = GeometryCache::new();
    let actions = handle_trigger(&menu("quit"), visible(), &mut cache);
    assert_eq!(actions, vec![Action::Exit(0)]);
}

#[test]
fn show_hide_menu_toggles() {
    let mut cache = GeometryCache::new();
    assert_eq!(handle_trigger(&menu("show_hide"), visible(), &mut cache), vec![Action::EmitWillHide, Action::Hide]);
    let shown = handle_trigger(&menu("show_hide"), hidden(400), &mut cache);
    assert_eq!(shown[0], Action::Place(Placement::TopCenter));
    assert_eq!(cache.read(), None);
}

#[test]
fn unknown_menu_item_is_ignored() {
    let mut cache = GeometryCache::new();
    assert!(handle_trigger(&menu("settings"), visible(), &mut cache).is_empty());
    assert!(handle_trigger(&menu("Quit"), visible(), &mut cache).is_empty());
    assert!(handle_trigger(&menu(""), visible(), &mut cache).is_empty());
}

#[test]
fn menu_choice_matches_exact_ids() {
    assert_eq!(menu_choice("show_hide"), MenuChoice::ShowHide);
    assert_eq!(menu_choice("quit"), MenuChoice::Quit);
    assert_eq!(menu_choice("quit "), MenuChoice::Other);
}

#[test]
fn hotkey_release_is_ignored() {
    let mut cache = GeometryCache::new();
    let actions = handle_trigger(&Trigger::Hotkey { phase: HotkeyPhase::Released }, visible(), &mut cache);
    assert!(actions.is_empty());
}

#[test]
fn other_clicks_neither_record_nor_toggle() {
    let mut cache = GeometryCache::new();
    let right = Trigger::TrayClick { button: MouseButton::Right, state: ButtonState::Up, rect: Some(icon()) };
    assert!(handle_trigger(&right, hidden(400), &mut cache).is_empty());
    let press = Trigger::TrayClick { button: MouseButton::Left, state: ButtonState::Down, rect: Some(icon()) };
    assert!(handle_trigger(&press, hidden(400), &mut cache).is_empty());
    assert!(handle_trigger(&Trigger::TrayOther, hidden(400), &mut cache).is_empty());
    assert_eq!(cache.read(), None);
}

#[test]
fn click_without_physical_rect_still_toggles() {
    let mut cache = GeometryCache::new();
    cache.record(icon());
    let actions = handle_trigger(&left_click(None), hidden(400), &mut cache);
    assert_eq!(actions[0], Action::Place(Placement::At { x: 600, y: 26 }));
    assert_eq!(cache.read(), Some(AnchorPoint { x: 800, y: 26 }));
}

#[test]
fn click_without_window_only_records() {
    let mut cache = GeometryCache::new();
    assert!(handle_trigger(&left_click(Some(icon())), None, &mut cache).is_empty());
    assert_eq!(cache.read(), Some(AnchorPoint { x: 800, y: 26 }));
}
