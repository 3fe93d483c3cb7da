use fadel_shell::dispatch_menu_action;
use fadel_shell::recent_action_id;
use fadel_shell::u64_to_dec;
use fadel_shell::FatalError;
use fadel_shell::MenuAction;
use fadel_shell::MenuEntry;
use fadel_shell::Shell;
use fadel_shell::ShellWindows;
use fadel_shell::WindowState;

fn recent_children(shell: &Shell) -> &Vec<MenuEntry> {
    match &shell.menu.entries[1] {
        MenuEntry::Submenu { children, .. } => match &children[2] {
            MenuEntry::Submenu { children, .. } => children,
            other => panic!("expected the Recent submenu, got {:?}", other),
        },
        other => panic!("expected the File submenu, got {:?}", other),
    }
}

#[test]
fn menu_construction_is_deterministic() {
    let a = fadel_shell::app_menu();
    let b = fadel_shell::app_menu();
    assert_eq!(a, b);

    let paths = vec!["a.png".to_string(), "b.png".to_string()];
    let t1 = fadel_shell::menu_with_recent(fadel_shell::build_recent_entries(&paths));
    let t2 = fadel_shell::menu_with_recent(fadel_shell::build_recent_entries(&paths));
    assert_eq!(t1, t2);
}

#[test]
fn app_menu_static_surface() {
    let t = fadel_shell::app_menu();
    assert_eq!(t.entries.len(), 3);
    assert!(matches!(t.entries[0], MenuEntry::NativeCopy));

    match &t.entries[1] {
        MenuEntry::Submenu { label, children } => {
            assert_eq!(label, "File");
            assert_eq!(children.len(), 7);
            let expect_action = |e: &MenuEntry, id: &str, label: &str| match e {
                MenuEntry::Action { id: i, label: l } => {
                    assert_eq!(i, id);
                    assert_eq!(l, label);
                }
                other => panic!("expected an action, got {:?}", other),
            };
            expect_action(&children[0], "open", "Open");
            expect_action(&children[1], "openFromURL", "Open Fadel URL");
            match &children[2] {
                MenuEntry::Submenu { label, children } => {
                    assert_eq!(label, "Recent");
                    assert!(children.is_empty());
                }
                other => panic!("expected the Recent submenu, got {:?}", other),
            }
            assert!(matches!(children[3], MenuEntry::Separator));
            expect_action(&children[4], "reset", "Reset");
            assert!(matches!(children[5], MenuEntry::Separator));
            expect_action(&children[6], "quit", "Quit");
        }
        other => panic!("expected the File submenu, got {:?}", other),
    }

    match &t.entries[2] {
        MenuEntry::Submenu { label, children } => {
            assert_eq!(label, "Help");
            assert_eq!(children.len(), 1);
            match &children[0] {
                MenuEntry::About { name, metadata } => {
                    assert_eq!(name, "Fadel - Compare Images");
                    assert_eq!(metadata.version, "1.0.0");
                    assert_eq!(
                        metadata.authors,
                        vec!["Fadel", "Omar Ibrahim", "Abdelrahman Khalil"]
                    );
                    assert_eq!(metadata.license, "MIT");
                    assert_eq!(metadata.website, "https://fadel.pages.dev/");
                    assert_eq!(metadata.website_label, "Fadel Website");
                }
                other => panic!("expected the About entry, got {:?}", other),
            }
        }
        other => panic!("expected the Help submenu, got {:?}", other),
    }
}

#[test]
fn startup_windows() {
    let s = Shell::startup();
    assert!(s.windows.splashscreen.present);
    assert!(s.windows.splashscreen.visible);
    assert!(s.windows.main.present);
    assert!(!s.windows.main.visible);
}

#[test]
fn transition_from_splash_succeeds_once() {
    let mut s = Shell::startup();
    let menu_before = s.menu.entries.len();
    assert_eq!(s.transition_from_splash(), Ok(()));
    assert!(!s.windows.splashscreen.present);
    assert!(s.windows.main.present);
    assert!(s.windows.main.visible);
    assert_eq!(s.menu.entries.len(), menu_before);
}

#[test]
fn transition_without_splashscreen_is_fatal() {
    let mut s = Shell::startup();
    assert_eq!(s.transition_from_splash(), Ok(()));
    let after_first = s.windows;
    assert_eq!(
        s.transition_from_splash(),
        Err(FatalError::MissingSplashscreen)
    );
    assert_eq!(s.windows, after_first);
}

#[test]
fn transition_without_main_is_fatal() {
    let mut w = ShellWindows {
        splashscreen: WindowState {
            present: true,
            visible: true,
        },
        main: WindowState {
            present: false,
            visible: false,
        },
    };
    assert_eq!(w.transition_from_splash(), Err(FatalError::MissingMain));
    assert!(!w.splashscreen.present);
    assert!(!w.main.present);
}

#[test]
fn fatal_error_messages() {
    assert_eq!(
        FatalError::MissingSplashscreen.message(),
        "no window labeled 'splashscreen' found"
    );
    assert_eq!(
        FatalError::MissingMain.message(),
        "no window labeled 'main' found"
    );
}

#[test]
fn dispatch_known_identifiers() {
    let expect_emit = |id: &str, channel: &str, message: &str| match dispatch_menu_action(id) {
        MenuAction::EmitEvent {
            channel: c,
            message: m,
        } => {
            assert_eq!(c, channel);
            assert_eq!(m, message);
        }
        other => panic!("expected an emitted event for {:?}, got {:?}", id, other),
    };
    expect_emit("open", "menu://file/open", "Open Dialog");
    expect_emit("openFromURL", "menu://file/openFromURL", "Open Dialog");
    expect_emit("reset", "menu://file/reset", "Reset");
    assert_eq!(dispatch_menu_action("quit"), MenuAction::Quit);
}

#[test]
fn dispatch_unknown_identifier_is_noop() {
    assert_eq!(dispatch_menu_action("open-recent-0"), MenuAction::NoOp);
    assert_eq!(dispatch_menu_action("open-recent"), MenuAction::NoOp);
    assert_eq!(dispatch_menu_action(""), MenuAction::NoOp);
    assert_eq!(dispatch_menu_action("Open"), MenuAction::NoOp);
}

#[test]
fn recent_list_round_trip() {
    let mut s = Shell::startup();
    assert!(recent_children(&s).is_empty());

    let paths = vec![
        "a.png".to_string(),
        "b.png".to_string(),
        "c.png".to_string(),
    ];
    s.on_recent_file_paths_changed(Some(paths.clone()));
    let entries = recent_children(&s);
    assert_eq!(entries.len(), 3);
    for (i, entry) in entries.iter().enumerate() {
        match entry {
            MenuEntry::Action { id, label } => {
                assert_eq!(*id, format!("open-recent-{}", i));
                assert_eq!(*label, paths[i]);
            }
            other => panic!("expected an action, got {:?}", other),
        }
    }
}

#[test]
fn recent_list_replaces_prior_contents() {
    let mut s = Shell::startup();
    s.on_recent_file_paths_changed(Some(vec![
        "a.png".to_string(),
        "b.png".to_string(),
        "c.png".to_string(),
    ]));
    s.on_recent_file_paths_changed(Some(vec!["x.png".to_string()]));
    let entries = recent_children(&s);
    assert_eq!(entries.len(), 1);
    match &entries[0] {
        MenuEntry::Action { id, label } => {
            assert_eq!(id, "open-recent-0");
            assert_eq!(label, "x.png");
        }
        other => panic!("expected an action, got {:?}", other),
    }
}

#[test]
fn empty_path_list_empties_recent_submenu() {
    let mut s = Shell::startup();
    s.on_recent_file_paths_changed(Some(vec!["a.png".to_string()]));
    s.on_recent_file_paths_changed(Some(vec![]));
    assert!(recent_children(&s).is_empty());
}

#[test]
fn malformed_payload_degrades_to_empty() {
    let parsed: Result<std::collections::BTreeMap<String, Vec<String>>, serde_json::Error> =
        serde_json::from_str("{not json");
    assert!(parsed.is_err());

    let mut s = Shell::startup();
    s.on_recent_file_paths_changed(Some(vec!["a.png".to_string()]));
    s.on_recent_file_paths_changed(None);
    assert!(recent_children(&s).is_empty());
}

#[test]
fn decimal_rendering() {
    assert_eq!(u64_to_dec(0), "0");
    assert_eq!(u64_to_dec(7), "7");
    assert_eq!(u64_to_dec(10), "10");
    assert_eq!(u64_to_dec(42), "42");
    assert_eq!(u64_to_dec(999), "999");
    assert_eq!(u64_to_dec(18446744073709551615), "18446744073709551615");
}

#[test]
fn recent_action_identifiers() {
    assert_eq!(recent_action_id(0), "open-recent-0");
    assert_eq!(recent_action_id(2), "open-recent-2");
    assert_eq!(recent_action_id(12), "open-recent-12");
}
