//! The application object: it owns the window and decides what the two
//! menu actions do.
//!
//! Activation presents the main window, building it first when it does not
//! exist yet.  The quit action closes the window — which saves the window
//! geometry — before it asks the runtime to terminate, so a pending
//! geometry write always lands first.  The about action only asks for the
//! about dialog to be shown.

use vstd::prelude::*;

use crate::config::spec_app_id;
use crate::config::spec_version;
use crate::settings::SettingsStore;
use crate::window::spec_closed;
use crate::window::spec_new_window;
use crate::window::spec_save_fails;
use crate::window::store_with_geometry;
use crate::window::ExampleApplicationWindow;

verus! {

/// A menu action the user can trigger.
#[derive(Clone, Copy, Debug, PartialEq, Eq, Structural)]
pub enum AppAction {
    /// Close the window, then terminate.
    Quit,
    /// Show the about dialog.
    About,
}

/// What handling an action asks the surrounding runtime to do.
#[derive(Clone, Copy, Debug, PartialEq, Eq, Structural)]
pub struct ActionOutcome {
    /// The about dialog is to be shown.
    pub show_about: bool,
    /// Saving the window geometry was refused; worth a log warning, no more.
    pub save_warning: bool,
}

/// What the about dialog shows.
pub struct AboutInfo {
    /// Icon shown as the dialog's logo: the application's icon.
    pub logo_icon_name: &'static str,
    /// The application version.
    pub version: &'static str,
    /// The dialog blocks the window it is transient for.
    pub modal: bool,
    /// The application's authors.
    pub authors: Vec<String>,
    /// The credited artists.
    pub artists: Vec<String>,
}

/// The application: the window it owns, once one exists, and whether it
/// has asked the runtime to terminate.
#[derive(Clone, Copy, Debug, PartialEq, Eq, Structural)]
pub struct ExampleApplication {
    /// The main window; absent until the application is first activated.
    pub window: Option<ExampleApplicationWindow>,
    /// Whether the quit action has asked the runtime to terminate.
    pub quit_requested: bool,
}

impl ExampleApplication {
    /// Any window the application owns is itself well formed.
    pub open spec fn wf(self) -> bool {
        self.window matches Some(w) ==> w.wf()
    }

    /// Build the application.  No window exists yet and no quit has been
    /// requested.
    pub fn new() -> (app: ExampleApplication)
        ensures
            app == (ExampleApplication {
                window: None::<ExampleApplicationWindow>,
                quit_requested: false,
            }),
            app.wf(),
    {
        ExampleApplication { window: None, quit_requested: false }
    }

    /// Make sure the main window exists, building it when it does not.
    /// `settings` and `devel_profile` describe the environment a new
    /// window would be built in; an existing window is left as it is.
    pub fn main_window(&mut self, settings: Option<SettingsStore>, devel_profile: bool)
        requires
            old(self).wf(),
            settings matches Some(s) ==> s.wf(),
        ensures
            final(self).wf(),
            final(self).quit_requested == old(self).quit_requested,
            old(self).window is Some ==> *final(self) == *old(self),
            old(self).window is None ==> final(self).window == Some(
                spec_new_window(settings, devel_profile),
            ),
    {
        if self.window.is_none() {
            self.window = Some(ExampleApplicationWindow::new(settings, devel_profile));
        }
    }

    /// Activate the application: make sure the main window exists, then
    /// present it.
    pub fn activate(&mut self, settings: Option<SettingsStore>, devel_profile: bool)
        requires
            old(self).wf(),
            settings matches Some(s) ==> s.wf(),
        ensures
            final(self).wf(),
            final(self).quit_requested == old(self).quit_requested,
            final(self).window matches Some(w) && w.visible,
            old(self).window matches Some(w0) ==> final(self).window == Some(
                ExampleApplicationWindow { visible: true, ..w0 },
            ),
            old(self).window is None ==> final(self).window == Some(
                ExampleApplicationWindow { visible: true, ..spec_new_window(settings, devel_profile) },
            ),
    {
        self.main_window(settings, devel_profile);
        if let Some(w) = &mut self.window {
            w.present();
        }
    }

    /// Handle a menu action.
    ///
    /// Quit closes the main window first — that saves the geometry to any
    /// writable store — and only then requests termination.  About leaves
    /// the window alone and asks for the about dialog.  Either action
    /// builds the window first when none exists yet, so neither can fail.
    pub fn handle_action(
        &mut self,
        action: AppAction,
        settings: Option<SettingsStore>,
        devel_profile: bool,
    ) -> (out: ActionOutcome)
        requires
            old(self).wf(),
            settings matches Some(s) ==> s.wf(),
        ensures
            final(self).wf(),
            ({
                let w0 = if old(self).window is Some {
                    old(self).window->Some_0
                } else {
                    spec_new_window(settings, devel_profile)
                };
                match action {
                    AppAction::Quit => {
                        &&& final(self).window == Some(spec_closed(w0))
                        &&& final(self).quit_requested
                        &&& out == (ActionOutcome {
                            show_about: false,
                            save_warning: spec_save_fails(w0),
                        })
                    },
                    AppAction::About => {
                        &&& final(self).window == Some(w0)
                        &&& final(self).quit_requested == old(self).quit_requested
                        &&& out == (ActionOutcome { show_about: true, save_warning: false })
                    },
                }
            }),
    {
        self.main_window(settings, devel_profile);
        match action {
            AppAction::Quit => {
                let mut save_warning = false;
                if let Some(w) = &mut self.window {
                    save_warning = w.close_request();
                }
                self.quit_requested = true;
                ActionOutcome { show_about: false, save_warning }
            },
            AppAction::About => ActionOutcome { show_about: true, save_warning: false },
        }
    }

    /// The content of the about dialog.  The dialog is modal, carries
    /// the application's icon and version, and credits its one author,
    /// who drew the artwork as well.
    pub fn about_info(&self) -> (info: AboutInfo)
        ensures
            info.logo_icon_name@ == spec_app_id(),
            info.version@ == spec_version(),
            info.modal,
            info.authors@.len() == 1,
            info.authors@[0]@ == "Ashley Wulber"@,
            info.artists@.len() == 1,
            info.artists@[0]@ == "Ashley Wulber"@,
    {
        let mut authors: Vec<String> = Vec::new();
        authors.push("Ashley Wulber".to_string());
        let mut artists: Vec<String> = Vec::new();
        artists.push("Ashley Wulber".to_string());
        AboutInfo {
            logo_icon_name: crate::config::app_id(),
            version: crate::config::version(),
            modal: true,
            authors,
            artists,
        }
    }

    /// The accelerator bound to the quit action.
    pub fn quit_accelerator() -> (s: &'static str)
        ensures
            s@ == "<Control>q"@,
    {
        "<Control>q"
    }

    /// The detailed name the quit action is registered under.
    pub fn quit_action_name() -> (s: &'static str)
        ensures
            s@ == "app.quit"@,
    {
        "app.quit"
    }
}

impl Default for ExampleApplication {
    /// A fresh application, as `new` builds it.
    fn default() -> (app: ExampleApplication)
        ensures
            app == (ExampleApplication {
                window: None::<ExampleApplicationWindow>,
                quit_requested: false,
            }),
    {
        ExampleApplication::new()
    }
}

/// The quit action always closes the window before the runtime is asked
/// to terminate, so a window that sits over a writable store has its
/// geometry persisted first: after the close the store holds exactly the
/// geometry the window had.
pub proof fn lemma_quit_saves_before_terminate(w: ExampleApplicationWindow)
    requires
        w.wf(),
    ensures
        !spec_closed(w).is_open,
        !spec_closed(w).visible,
        w.settings is Some && w.settings->Some_0.writable ==> spec_closed(w).settings == Some(
            store_with_geometry(w.settings->Some_0, w.geometry()),
        ),
{
}

} // verus!
