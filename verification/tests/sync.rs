//! Tests of the synchronization protocol, the icon conversion, the event
//! bridge and the native menu projection.

use bevy_tray_icon::plugin::menu_event::menu_events_from_clicks;
use bevy_tray_icon::plugin::{SyncAction, SyncState};
use bevy_tray_icon::native::{NativeItem, NativeMenu};
use bevy_tray_icon::resource::menu_item::{Accelerator, MenuId};
use bevy_tray_icon::resource::{IconHandle, Menu, MenuItem, TrayIcon};

#[test]
fn first_observation_creates() {
    let mut sync = SyncState::new();
    let tray = TrayIcon::default();
    assert_eq!(sync.observe(&tray), SyncAction::Create);
}

#[test]
fn unchanged_state_keeps_quiet() {
    let mut sync = SyncState::new();
    let tray = TrayIcon::default();
    sync.observe(&tray);
    assert_eq!(sync.observe(&tray), SyncAction::Keep);
    assert_eq!(sync.observe(&tray), SyncAction::Keep);
}

#[test]
fn any_single_change_updates_once() {
    let mut sync = SyncState::new();
    let mut tray = TrayIcon::default();
    sync.observe(&tray);
    tray.tooltip = Some("hello".to_owned());
    assert_eq!(sync.observe(&tray), SyncAction::Update);
    assert_eq!(sync.observe(&tray), SyncAction::Keep);
}

#[test]
fn many_changes_coalesce_into_one_update() {
    let mut sync = SyncState::new();
    let mut tray = TrayIcon::default();
    sync.observe(&tray);
    tray.icon = Some(IconHandle(7));
    tray.tooltip = Some("hi".to_owned());
    tray.menu = Menu::new(vec![MenuItem::common("a", "A", true, None)]);
    tray.show_menu_on_left_click = true;
    assert_eq!(sync.observe(&tray), SyncAction::Update);
    assert_eq!(sync.observe(&tray), SyncAction::Keep);
}

#[test]
fn menu_mutation_is_a_change() {
    let mut sync = SyncState::new();
    let mut tray = TrayIcon::default();
    tray.menu = Menu::new(vec![MenuItem::common("a", "A", false, None)]);
    sync.observe(&tray);
    tray.menu.set_enable("a", true).unwrap();
    assert_eq!(sync.observe(&tray), SyncAction::Update);
}

#[test]
fn as_icon_without_declared_icon() {
    let tray = TrayIcon::default();
    assert!(tray.as_icon(Some((vec![0u8; 4], 1, 1))).is_none());
}

#[test]
fn as_icon_while_asset_not_loaded() {
    let mut tray = TrayIcon::default();
    tray.icon = Some(IconHandle(1));
    assert!(tray.as_icon(None).is_none());
}

#[test]
fn as_icon_with_matching_buffer() {
    let mut tray = TrayIcon::default();
    tray.icon = Some(IconHandle(1));
    let icon = tray.as_icon(Some((vec![9u8; 8], 2, 1))).unwrap();
    assert_eq!(icon.width, 2);
    assert_eq!(icon.height, 1);
    assert_eq!(icon.rgba, vec![9u8; 8]);
}

#[test]
fn as_icon_with_wrong_byte_count() {
    let mut tray = TrayIcon::default();
    tray.icon = Some(IconHandle(1));
    assert!(tray.as_icon(Some((vec![0u8; 5], 1, 1))).is_none());
}

#[test]
fn clicks_become_events_in_order() {
    let ids = vec![
        MenuId("a".to_owned()),
        MenuId("b".to_owned()),
        MenuId("c".to_owned()),
    ];
    let events = menu_events_from_clicks(ids);
    assert_eq!(events.len(), 3);
    assert_eq!(events[0].id.0, "a");
    assert_eq!(events[1].id.0, "b");
    assert_eq!(events[2].id.0, "c");
}

#[test]
fn no_clicks_no_events() {
    assert!(menu_events_from_clicks(Vec::new()).is_empty());
}

#[test]
fn empty_menu_has_no_context() {
    assert!(Menu::default().as_context().is_none());
}

#[test]
fn native_projection_keeps_shape() {
    let menu = Menu::new(vec![
        MenuItem::separator(),
        MenuItem::common("a", "A", true, None),
        MenuItem::submenu(
            "sub",
            "Sub",
            false,
            Menu::new(vec![MenuItem::common("deep", "Deep", true, None)]),
        ),
    ]);
    let NativeMenu(nodes) = menu.as_context().unwrap();
    assert_eq!(nodes.len(), 3);
    assert!(matches!(nodes[0], NativeItem::Separator));
    match &nodes[1] {
        NativeItem::Item { id, text, enabled, accelerator } => {
            assert_eq!(id.0, "a");
            assert_eq!(text.as_str(), "A");
            assert!(*enabled);
            assert!(accelerator.is_none());
        }
        _ => panic!("second node is not a native item"),
    }
    match &nodes[2] {
        NativeItem::Sub { id, text, enabled, children } => {
            assert_eq!(id.0, "sub");
            assert_eq!(text.as_str(), "Sub");
            assert!(!*enabled);
            assert_eq!(children.len(), 1);
            match &children[0] {
                NativeItem::Item { id, .. } => assert_eq!(id.0, "deep"),
                _ => panic!("nested node is not a native item"),
            }
        }
        _ => panic!("third node is not a native submenu"),
    }
}

#[test]
fn accelerator_carried_into_native() {
    let accel = Accelerator { mods: 3, key: "KeyA".to_owned() };
    let menu = Menu::new(vec![MenuItem::common("a", "A", true, Some(accel))]);
    let NativeMenu(nodes) = menu.as_context().unwrap();
    match &nodes[0] {
        NativeItem::Item { accelerator, .. } => {
            let accel = accelerator.as_ref().unwrap();
            assert_eq!(accel.mods, 3);
            assert_eq!(accel.key.as_str(), "KeyA");
        }
        _ => panic!("node is not a native item"),
    }
}

#[test]
fn accelerator_takes_part_in_equality() {
    let with_accel = Menu::new(vec![MenuItem::common(
        "a",
        "A",
        true,
        Some(Accelerator { mods: 1, key: "KeyB".to_owned() }),
    )]);
    let without_accel = Menu::new(vec![MenuItem::common("a", "A", true, None)]);
    assert!(with_accel != without_accel);
    assert!(with_accel == with_accel.clone());
}

#[test]
fn show_then_click_hide() {
    let mut tray = TrayIcon::default();
    tray.menu = Menu::new(vec![
        MenuItem::common("show", "Show", false, None),
        MenuItem::common("hide", "Hide", true, None),
    ]);
    tray.menu.set_enable("show", true).unwrap();
    assert_eq!(tray.menu.get_enabled("show"), Some(true));
    let events = menu_events_from_clicks(vec![MenuId("hide".to_owned())]);
    assert_eq!(events.len(), 1);
    assert_eq!(events[0].id.0, "hide");
}
