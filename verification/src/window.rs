//! The application window and the persistence of its geometry.
//!
//! At construction the window looks its settings schema up: when the schema
//! is present it attaches the preference store and loads the stored width,
//! height and maximized flag; when it is absent, persistence is simply
//! disabled and built-in defaults apply.  When the window is asked to
//! close, it writes its geometry back to the attached store — a refused
//! write is only worth a warning and never keeps the window open.

use vstd::prelude::*;

use crate::settings::BoolKey;
use crate::settings::IntKey;
use crate::settings::SettingsError;
use crate::settings::SettingsStore;

verus! {

/// The window width used until a preference has been stored, in pixels.
pub const DEFAULT_WINDOW_WIDTH: i32 = 600;

/// The window height used until a preference has been stored, in pixels.
pub const DEFAULT_WINDOW_HEIGHT: i32 = 400;

/// One window-geometry record: what the preference store persists.
#[derive(Clone, Copy, Debug, PartialEq, Eq, Structural)]
pub struct WindowGeometry {
    /// Window width in pixels.
    pub width: i32,
    /// Window height in pixels.
    pub height: i32,
    /// Whether the window is maximized.
    pub is_maximized: bool,
}

impl WindowGeometry {
    /// Sizes are pixel counts and never negative.
    pub open spec fn wf(self) -> bool {
        self.width >= 0 && self.height >= 0
    }
}

/// The geometry a store holds.
pub open spec fn store_geometry(s: SettingsStore) -> WindowGeometry {
    WindowGeometry {
        width: s.window_width,
        height: s.window_height,
        is_maximized: s.is_maximized,
    }
}

/// The store after a geometry has been written into it.
pub open spec fn store_with_geometry(s: SettingsStore, g: WindowGeometry) -> SettingsStore {
    SettingsStore {
        window_width: g.width,
        window_height: g.height,
        is_maximized: g.is_maximized,
        ..s
    }
}

/// The main application window: its preference store, when the settings
/// schema was found, and its current state.
#[derive(Clone, Copy, Debug, PartialEq, Eq, Structural)]
pub struct ExampleApplicationWindow {
    /// The preference store; absent when the settings schema is missing,
    /// which disables persistence.
    pub settings: Option<SettingsStore>,
    /// Current default width of the window, in pixels.
    pub width: i32,
    /// Current default height of the window, in pixels.
    pub height: i32,
    /// Whether the window is maximized.
    pub maximized: bool,
    /// Whether the window carries the development-profile style class.
    pub devel_css_class: bool,
    /// Whether the window has been presented to the user.
    pub visible: bool,
    /// Whether the window is still open.
    pub is_open: bool,
}

/// The window a construction with the given schema-lookup result yields:
/// the stored geometry when a store is attached, the defaults otherwise.
pub open spec fn spec_new_window(
    settings: Option<SettingsStore>,
    devel_profile: bool,
) -> ExampleApplicationWindow {
    ExampleApplicationWindow {
        settings: settings,
        width: if settings is Some {
            settings->Some_0.window_width
        } else {
            DEFAULT_WINDOW_WIDTH
        },
        height: if settings is Some {
            settings->Some_0.window_height
        } else {
            DEFAULT_WINDOW_HEIGHT
        },
        maximized: settings is Some && settings->Some_0.is_maximized,
        devel_css_class: devel_profile,
        visible: false,
        is_open: true,
    }
}

/// Whether closing the window will fail to persist its geometry: a store
/// is attached but the platform refuses writes to it.
pub open spec fn spec_save_fails(w: ExampleApplicationWindow) -> bool {
    w.settings matches Some(s) && !s.writable
}

/// The store attached to a window after its geometry has been saved:
/// updated when writable, untouched when not, still absent when absent.
pub open spec fn spec_saved_settings(w: ExampleApplicationWindow) -> Option<SettingsStore> {
    match w.settings {
        Some(s) => if s.writable {
            Some(store_with_geometry(s, w.geometry()))
        } else {
            Some(s)
        },
        None => None,
    }
}

/// The window after its close request has run: geometry saved where
/// possible, and the window closed and withdrawn in every case.
pub open spec fn spec_closed(w: ExampleApplicationWindow) -> ExampleApplicationWindow {
    ExampleApplicationWindow {
        settings: spec_saved_settings(w),
        visible: false,
        is_open: false,
        ..w
    }
}

impl ExampleApplicationWindow {
    /// The window's sizes are pixel counts, and an attached store holds
    /// pixel counts as well.
    pub open spec fn wf(self) -> bool {
        &&& self.width >= 0
        &&& self.height >= 0
        &&& (self.settings matches Some(s) ==> s.wf())
    }

    /// The window's current geometry: what a save would persist.
    pub open spec fn geometry(self) -> WindowGeometry {
        WindowGeometry { width: self.width, height: self.height, is_maximized: self.maximized }
    }

    /// Build the window.  `settings` is the store for the application's
    /// schema where the schema lookup found it, `None` where it did not;
    /// a missing schema never fails construction, it only disables
    /// persistence.  The stored geometry is loaded right away.
    pub fn new(settings: Option<SettingsStore>, devel_profile: bool) -> (w: ExampleApplicationWindow)
        requires
            settings matches Some(s) ==> s.wf(),
        ensures
            w == spec_new_window(settings, devel_profile),
            w.wf(),
    {
        let mut w = ExampleApplicationWindow {
            settings: settings,
            width: DEFAULT_WINDOW_WIDTH,
            height: DEFAULT_WINDOW_HEIGHT,
            maximized: false,
            devel_css_class: devel_profile,
            visible: false,
            is_open: true,
        };
        w.load_window_size();
        w
    }

    /// Apply the stored geometry: set the default size from the store and
    /// maximize when the stored flag says so.  Without a store, nothing
    /// changes; a window that is already maximized stays maximized.
    pub fn load_window_size(&mut self)
        ensures
            old(self).settings is None ==> *final(self) == *old(self),
            old(self).settings matches Some(s) ==> *final(self) == (ExampleApplicationWindow {
                width: s.window_width,
                height: s.window_height,
                maximized: old(self).maximized || s.is_maximized,
                ..*old(self)
            }),
    {
        if let Some(s) = &self.settings {
            let width = s.read_int(IntKey::WindowWidth);
            let height = s.read_int(IntKey::WindowHeight);
            let is_maximized = s.read_boolean(BoolKey::IsMaximized);

            self.width = width;
            self.height = height;

            if is_maximized {
                self.maximized = true;
            }
        }
    }

    /// Write the window's geometry to the attached store.  Without a
    /// store this succeeds and writes nothing; a store the platform
    /// refuses to write is left unchanged and the refusal is returned.
    pub fn save_window_size(&mut self) -> (r: Result<(), SettingsError>)
        ensures
            final(self).width == old(self).width,
            final(self).height == old(self).height,
            final(self).maximized == old(self).maximized,
            final(self).devel_css_class == old(self).devel_css_class,
            final(self).visible == old(self).visible,
            final(self).is_open == old(self).is_open,
            final(self).settings == spec_saved_settings(*old(self)),
            r is Ok <==> !spec_save_fails(*old(self)),
            r is Err ==> r == Result::<(), SettingsError>::Err(SettingsError::WriteRefused),
    {
        let width = self.width;
        let height = self.height;
        let maximized = self.maximized;

        if let Some(s) = &mut self.settings {
            match s.set_int(IntKey::WindowWidth, width) {
                Ok(()) => {},
                Err(e) => {
                    return Err(e);
                },
            }
            match s.set_int(IntKey::WindowHeight, height) {
                Ok(()) => {},
                Err(e) => {
                    return Err(e);
                },
            }
            match s.set_boolean(BoolKey::IsMaximized, maximized) {
                Ok(()) => {},
                Err(e) => {
                    return Err(e);
                },
            }
        }

        Ok(())
    }

    /// Handle a close request: save the geometry, then let the close
    /// proceed.  The result says whether a refused write is worth a
    /// warning; the close itself is never inhibited.
    pub fn close_request(&mut self) -> (save_warning: bool)
        ensures
            *final(self) == spec_closed(*old(self)),
            save_warning == spec_save_fails(*old(self)),
    {
        let save_warning = match self.save_window_size() {
            Ok(()) => false,
            Err(_) => true,
        };

        self.visible = false;
        self.is_open = false;
        save_warning
    }

    /// Present the window to the user.
    pub fn present(&mut self)
        ensures
            *final(self) == (ExampleApplicationWindow { visible: true, ..*old(self) }),
    {
        self.visible = true;
    }

    /// Resize the window, as the user or the window manager would.
    pub fn set_default_size(&mut self, width: i32, height: i32)
        requires
            width >= 0,
            height >= 0,
        ensures
            *final(self) == (ExampleApplicationWindow {
                width: width,
                height: height,
                ..*old(self)
            }),
    {
        self.width = width;
        self.height = height;
    }

    /// Maximize the window.
    pub fn maximize(&mut self)
        ensures
            *final(self) == (ExampleApplicationWindow { maximized: true, ..*old(self) }),
    {
        self.maximized = true;
    }

    /// Whether the window is maximized.
    pub fn is_maximized(&self) -> (m: bool)
        ensures
            m == self.maximized,
    {
        self.maximized
    }
}

/// Saving a geometry into a store and reading it back yields that same
/// geometry: the persistence round trip loses nothing.
pub proof fn lemma_geometry_round_trip(s: SettingsStore, g: WindowGeometry)
    ensures
        store_geometry(store_with_geometry(s, g)) == g,
{
}

/// A window closed over a writable store can be rebuilt from that store
/// with the geometry it had at close time: quitting and restarting the
/// application reproduces width, height and maximized state.
pub proof fn lemma_reopened_window_keeps_geometry(w: ExampleApplicationWindow, devel_profile: bool)
    requires
        w.wf(),
        w.settings matches Some(s) && s.writable,
    ensures
        spec_new_window(spec_closed(w).settings, devel_profile).geometry() == w.geometry(),
{
}

/// A missing settings schema only disables persistence: the window still
/// constructs, with the default geometry, and closing it touches no store
/// and warns about nothing.
pub proof fn lemma_missing_schema_only_disables_persistence(devel_profile: bool)
    ensures
        spec_new_window(None::<SettingsStore>, devel_profile).wf(),
        spec_new_window(None::<SettingsStore>, devel_profile).geometry() == (WindowGeometry {
            width: DEFAULT_WINDOW_WIDTH,
            height: DEFAULT_WINDOW_HEIGHT,
            is_maximized: false,
        }),
        spec_closed(spec_new_window(None::<SettingsStore>, devel_profile)).settings
            is None,
        !spec_save_fails(spec_new_window(None::<SettingsStore>, devel_profile)),
{
}

} // verus!
