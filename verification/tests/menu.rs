//! Tests of the menu tree model: construction, id-addressed mutation and
//! lookup.

use bevy_tray_icon::error::Error;
use bevy_tray_icon::resource::{Menu, MenuItem};

fn check_enabled(target_id: &str, menu: &Menu) -> bool {
    for item in menu.0.iter() {
        match item {
            MenuItem::SubMenu { id, menu, enabled, .. } => {
                if id.0 == target_id {
                    return *enabled;
                } else if check_enabled(target_id, menu) {
                    return true;
                }
            }
            MenuItem::Common { id, enabled, .. } => {
                if id.0 == target_id {
                    return *enabled;
                }
            }
            _ => {}
        }
    }
    false
}

#[test]
fn enable_common() {
    let mut menu = Menu::new(vec![MenuItem::common("test", "test", false, None)]);
    menu.set_enable("test", true).unwrap();
    assert!(check_enabled("test", &menu));
}

#[test]
fn enable_submenu() {
    let mut menu = Menu::new(vec![
        MenuItem::common("test", "test", false, None),
        MenuItem::submenu("sub", "sub", false, Menu::default()),
    ]);
    menu.set_enable("sub", true).unwrap();
    assert!(check_enabled("sub", &menu));
}

#[test]
fn enable_item_in_submenu() {
    let mut menu = Menu::new(vec![
        MenuItem::common("test", "test", false, None),
        MenuItem::submenu(
            "sub",
            "sub",
            false,
            Menu::new(vec![MenuItem::common("sub_item", "sub_item", false, None)]),
        ),
    ]);
    menu.set_enable("sub_item", true).unwrap();
    assert!(check_enabled("sub_item", &menu));
}

#[test]
fn disable_then_lookup() {
    let mut menu = Menu::new(vec![
        MenuItem::common("a", "A", true, None),
        MenuItem::common("b", "B", true, None),
    ]);
    menu.set_enable("b", false).unwrap();
    assert_eq!(menu.get_enabled("b"), Some(false));
    assert_eq!(menu.get_enabled("a"), Some(true));
    menu.set_enable("b", true).unwrap();
    assert_eq!(menu.get_enabled("b"), Some(true));
}

#[test]
fn missing_id_errors_and_leaves_tree_unchanged() {
    let mut menu = Menu::new(vec![
        MenuItem::common("a", "A", false, None),
        MenuItem::separator(),
        MenuItem::submenu(
            "sub",
            "Sub",
            true,
            Menu::new(vec![MenuItem::common("deep", "Deep", false, None)]),
        ),
    ]);
    let before = menu.clone();
    let err = menu.set_enable("nope", true).unwrap_err();
    assert_eq!(err, Error::NotFoundMenu("nope".to_owned()));
    assert!(menu == before);
    assert_eq!(menu.get_enabled("nope"), None);
}

#[test]
fn submenu_own_id_wins_over_deeper_duplicate() {
    let mut menu = Menu::new(vec![MenuItem::submenu(
        "dup",
        "Sub",
        false,
        Menu::new(vec![MenuItem::common("dup", "Inner", false, None)]),
    )]);
    menu.set_enable("dup", true).unwrap();
    match &menu.0[0] {
        MenuItem::SubMenu { enabled, menu: inner, .. } => {
            assert!(*enabled);
            match &inner.0[0] {
                MenuItem::Common { enabled, .. } => assert!(!*enabled),
                _ => panic!("inner entry changed shape"),
            }
        }
        _ => panic!("outer entry changed shape"),
    }
}

#[test]
fn first_match_in_sibling_order_wins() {
    let mut menu = Menu::new(vec![
        MenuItem::common("dup", "First", false, None),
        MenuItem::common("dup", "Second", false, None),
    ]);
    menu.set_enable("dup", true).unwrap();
    match (&menu.0[0], &menu.0[1]) {
        (MenuItem::Common { enabled: e0, .. }, MenuItem::Common { enabled: e1, .. }) => {
            assert!(*e0);
            assert!(!*e1);
        }
        _ => panic!("entries changed shape"),
    }
}

#[test]
fn set_enable_twice_equals_once() {
    let build = || {
        Menu::new(vec![
            MenuItem::common("a", "A", false, None),
            MenuItem::submenu(
                "sub",
                "Sub",
                true,
                Menu::new(vec![MenuItem::common("deep", "Deep", false, None)]),
            ),
        ])
    };
    let mut once = build();
    once.set_enable("deep", true).unwrap();
    let mut twice = build();
    twice.set_enable("deep", true).unwrap();
    twice.set_enable("deep", true).unwrap();
    assert!(once == twice);
}

#[test]
fn separator_is_not_addressable() {
    let mut menu = Menu::new(vec![MenuItem::separator()]);
    let err = menu.set_enable("", true).unwrap_err();
    assert_eq!(err, Error::NotFoundMenu(String::new()));
}

#[test]
fn error_message_names_the_id() {
    let err = Error::NotFoundMenu("show".to_owned());
    assert_eq!(err.message(), "not found menu id: show");
}
