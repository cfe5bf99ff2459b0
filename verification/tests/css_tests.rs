use cosmic_application_template::css::{
    css_override_path, css_reload_action, CssReloadAction, FileMonitorEventKind,
};

#[test]
fn vanished_file_brings_the_default_palette_back() {
    for event in [
        FileMonitorEventKind::Deleted,
        FileMonitorEventKind::MovedOut,
        FileMonitorEventKind::Renamed,
    ] {
        assert_eq!(
            css_reload_action(event, true, true),
            CssReloadAction::LoadDefaultPalette { dark: true }
        );
        assert_eq!(
            css_reload_action(event, true, false),
            CssReloadAction::LoadDefaultPalette { dark: false }
        );
    }
}

#[test]
fn vanished_file_without_a_style_manager_is_ignored() {
    for event in [
        FileMonitorEventKind::Deleted,
        FileMonitorEventKind::MovedOut,
        FileMonitorEventKind::Renamed,
    ] {
        assert_eq!(css_reload_action(event, false, true), CssReloadAction::Ignore);
    }
}

#[test]
fn fresh_file_is_reloaded() {
    for event in [
        FileMonitorEventKind::ChangesDoneHint,
        FileMonitorEventKind::Created,
        FileMonitorEventKind::MovedIn,
    ] {
        assert_eq!(
            css_reload_action(event, true, true),
            CssReloadAction::LoadOverrideFile
        );
        assert_eq!(
            css_reload_action(event, false, false),
            CssReloadAction::LoadOverrideFile
        );
    }
}

#[test]
fn other_events_are_ignored() {
    for event in [
        FileMonitorEventKind::Changed,
        FileMonitorEventKind::AttributeChanged,
        FileMonitorEventKind::PreUnmount,
        FileMonitorEventKind::Unmounted,
        FileMonitorEventKind::Moved,
    ] {
        assert_eq!(css_reload_action(event, true, true), CssReloadAction::Ignore);
    }
}

#[test]
fn override_path_prefers_the_found_file() {
    assert_eq!(
        css_override_path(Some("/home/user/.config/gtk-4.0/gtk.css".to_string())),
        "/home/user/.config/gtk-4.0/gtk.css"
    );
}

#[test]
fn override_path_falls_back_to_the_conventional_location() {
    assert_eq!(css_override_path(None), "~/.config/gtk-4.0/gtk.css");
}
