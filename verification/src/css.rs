//! Live reloading of the per-user CSS override file.
//!
//! One variant of the scaffold watches the user's CSS override file and
//! keeps a style provider in step with it: when the file appears or
//! changes, the provider reloads it; when it disappears, the provider
//! falls back to the default colour palette of the current style — dark
//! or light — provided the style manager has been brought up.  Every
//! other filesystem event is ignored.  This module decides, from the
//! event alone, which of those actions the watcher takes; the watch
//! itself and the provider live with the toolkit.

use vstd::prelude::*;

verus! {

/// The kind of event a filesystem watch on the override file delivers.
#[derive(Clone, Copy, Debug, PartialEq, Eq, Structural)]
pub enum FileMonitorEventKind {
    Changed,
    ChangesDoneHint,
    Deleted,
    Created,
    AttributeChanged,
    PreUnmount,
    Unmounted,
    Moved,
    Renamed,
    MovedIn,
    MovedOut,
}

/// What the watcher does to the style provider in response to an event.
#[derive(Clone, Copy, Debug, PartialEq, Eq, Structural)]
pub enum CssReloadAction {
    /// Load the default colour palette, dark or light.
    LoadDefaultPalette { dark: bool },
    /// Reload the override file itself.
    LoadOverrideFile,
    /// Do nothing.
    Ignore,
}

/// Whether an event says the override file is gone.
pub open spec fn spec_file_gone(event: FileMonitorEventKind) -> bool {
    event is Deleted || event is MovedOut || event is Renamed
}

/// Whether an event says the override file is present with fresh content.
pub open spec fn spec_file_fresh(event: FileMonitorEventKind) -> bool {
    event is ChangesDoneHint || event is Created || event is MovedIn
}

/// Decide what a filesystem event on the override file does to the style
/// provider.  A vanished file brings the default palette of the current
/// style back — but only once the style manager is up, else nothing
/// happens; a present file with fresh content is reloaded; any other
/// event is ignored.
pub fn css_reload_action(
    event: FileMonitorEventKind,
    style_manager_ready: bool,
    dark_style: bool,
) -> (action: CssReloadAction)
    ensures
        spec_file_gone(event) && style_manager_ready ==> action == (
        CssReloadAction::LoadDefaultPalette { dark: dark_style }),
        spec_file_gone(event) && !style_manager_ready ==> action is Ignore,
        spec_file_fresh(event) ==> action is LoadOverrideFile,
        !spec_file_gone(event) && !spec_file_fresh(event) ==> action is Ignore,
{
    match event {
        FileMonitorEventKind::Deleted
        | FileMonitorEventKind::MovedOut
        | FileMonitorEventKind::Renamed => {
            if style_manager_ready {
                CssReloadAction::LoadDefaultPalette { dark: dark_style }
            } else {
                CssReloadAction::Ignore
            }
        },
        FileMonitorEventKind::ChangesDoneHint
        | FileMonitorEventKind::Created
        | FileMonitorEventKind::MovedIn => CssReloadAction::LoadOverrideFile,
        _ => CssReloadAction::Ignore,
    }
}

/// The path of the override file: the one the configuration-directory
/// lookup found, or the conventional per-user location when the lookup
/// found none.
pub fn css_override_path(found: Option<String>) -> (path: String)
    ensures
        found matches Some(p) ==> path == p,
        found is None ==> path@ == "~/.config/gtk-4.0/gtk.css"@,
{
    match found {
        Some(p) => p,
        None => "~/.config/gtk-4.0/gtk.css".to_string(),
    }
}

} // verus!
