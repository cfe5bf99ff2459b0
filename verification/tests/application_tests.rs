use cosmic_application_template::application::{AppAction, ExampleApplication};
use cosmic_application_template::settings::SettingsStore;
use cosmic_application_template::{app_id, version};

#[test]
fn new_application_has_no_window() {
    let app = ExampleApplication::new();
    assert!(app.window.is_none());
    assert!(!app.quit_requested);

    let by_default = ExampleApplication::default();
    assert_eq!(by_default, app);
}

#[test]
fn activate_builds_and_presents_the_window() {
    let store = SettingsStore::new(600, 400);
    let mut app = ExampleApplication::new();
    app.activate(Some(store), false);

    let w = app.window.expect("window after activation");
    assert!(w.visible);
    assert!(w.is_open);
    assert_eq!(w.width, 600);
    assert_eq!(w.height, 400);
}

#[test]
fn second_activation_keeps_the_window() {
    let mut store = SettingsStore::new(600, 400);
    let mut app = ExampleApplication::new();
    app.activate(Some(store), false);

    // A store handed in later no longer matters: the window exists.
    store.window_width = 50;
    app.activate(Some(store), false);
    assert_eq!(app.window.unwrap().width, 600);
}

#[test]
fn quit_closes_the_window_and_persists_its_geometry() {
    let store = SettingsStore::new(600, 400);
    let mut app = ExampleApplication::new();
    app.activate(Some(store), false);
    if let Some(w) = app.window.as_mut() {
        w.set_default_size(777, 555);
        w.maximize();
    }

    let out = app.handle_action(AppAction::Quit, Some(store), false);
    assert!(app.quit_requested);
    assert!(!out.show_about);
    assert!(!out.save_warning);

    let w = app.window.expect("window survives as a closed model");
    assert!(!w.is_open);
    assert!(!w.visible);
    let s = w.settings.expect("store still attached");
    assert_eq!(s.window_width, 777);
    assert_eq!(s.window_height, 555);
    assert!(s.is_maximized);
}

#[test]
fn quit_without_a_window_builds_one_first() {
    let store = SettingsStore::new(640, 480);
    let mut app = ExampleApplication::new();
    let out = app.handle_action(AppAction::Quit, Some(store), false);

    assert!(app.quit_requested);
    assert!(!out.save_warning);
    let w = app.window.expect("window built by the quit action");
    assert!(!w.is_open);
    assert_eq!(w.settings.unwrap().window_width, 640);
}

#[test]
fn quit_over_a_refused_store_still_quits_but_warns() {
    let mut store = SettingsStore::new(600, 400);
    store.writable = false;
    let mut app = ExampleApplication::new();
    app.activate(Some(store), false);

    let out = app.handle_action(AppAction::Quit, Some(store), false);
    assert!(app.quit_requested);
    assert!(out.save_warning);
    assert!(!app.window.unwrap().is_open);
    // The refused store is untouched.
    assert_eq!(app.window.unwrap().settings, Some(store));
}

#[test]
fn about_shows_the_dialog_and_changes_nothing() {
    let store = SettingsStore::new(600, 400);
    let mut app = ExampleApplication::new();
    app.activate(Some(store), false);
    let before = app;

    let out = app.handle_action(AppAction::About, Some(store), false);
    assert!(out.show_about);
    assert!(!out.save_warning);
    assert!(!app.quit_requested);
    assert_eq!(app, before);
}

#[test]
fn about_dialog_content() {
    let app = ExampleApplication::new();
    let info = app.about_info();
    assert_eq!(info.logo_icon_name, app_id());
    assert_eq!(info.version, version());
    assert!(info.modal);
    assert_eq!(info.authors, vec!["Ashley Wulber".to_string()]);
    assert_eq!(info.artists, vec!["Ashley Wulber".to_string()]);
}

#[test]
fn quit_action_wiring() {
    assert_eq!(ExampleApplication::quit_action_name(), "app.quit");
    assert_eq!(ExampleApplication::quit_accelerator(), "<Control>q");
}

#[test]
fn application_identity() {
    assert_eq!(app_id(), "com.system76.CosmicApplicationTemplate");
    assert_eq!(version(), "0.1.0");
}
