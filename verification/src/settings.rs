//! A model of the per-application preference store.
//!
//! The platform keeps, under the application's settings schema, three typed
//! keys: the window's width and height in pixels and its maximized flag.
//! This module models that store as a record of the three values together
//! with a writable flag: a write either lands in the record or is refused
//! by the platform, and a refused write leaves the store unchanged.

use vstd::prelude::*;

verus! {

/// The two integer-valued preference keys.
#[derive(Clone, Copy, Debug, PartialEq, Eq, Structural)]
pub enum IntKey {
    WindowWidth,
    WindowHeight,
}

/// The one boolean-valued preference key.
#[derive(Clone, Copy, Debug, PartialEq, Eq, Structural)]
pub enum BoolKey {
    IsMaximized,
}

impl IntKey {
    /// The key's name in the settings schema.
    pub fn name(self) -> (s: &'static str)
        ensures
            self is WindowWidth ==> s@ == "window-width"@,
            self is WindowHeight ==> s@ == "window-height"@,
    {
        match self {
            IntKey::WindowWidth => "window-width",
            IntKey::WindowHeight => "window-height",
        }
    }
}

impl BoolKey {
    /// The key's name in the settings schema.
    pub fn name(self) -> (s: &'static str)
        ensures
            s@ == "is-maximized"@,
    {
        match self {
            BoolKey::IsMaximized => "is-maximized",
        }
    }
}

/// An error from the preference store: the platform refused a write.
#[derive(Clone, Copy, Debug, PartialEq, Eq, Structural)]
pub enum SettingsError {
    WriteRefused,
}

impl SettingsError {
    /// A short description of the error, for log output.
    pub fn message(self) -> (s: &'static str)
        ensures
            s@ == "the settings backend refused the write"@,
    {
        match self {
            SettingsError::WriteRefused => "the settings backend refused the write",
        }
    }
}

/// The preference store for this application's schema: the three stored
/// values, and whether the platform accepts writes to them.
#[derive(Clone, Copy, Debug, PartialEq, Eq, Structural)]
pub struct SettingsStore {
    /// Value under the `window-width` key, in pixels.
    pub window_width: i32,
    /// Value under the `window-height` key, in pixels.
    pub window_height: i32,
    /// Value under the `is-maximized` key.
    pub is_maximized: bool,
    /// Whether the platform accepts writes to this schema.
    pub writable: bool,
}

impl SettingsStore {
    /// Stored sizes are pixel counts and never negative.
    pub open spec fn wf(self) -> bool {
        self.window_width >= 0 && self.window_height >= 0
    }

    /// The value a read of an integer key returns.
    pub open spec fn spec_int(self, key: IntKey) -> i32 {
        match key {
            IntKey::WindowWidth => self.window_width,
            IntKey::WindowHeight => self.window_height,
        }
    }

    /// The store after a successful write of an integer key.
    pub open spec fn spec_with_int(self, key: IntKey, value: i32) -> SettingsStore {
        match key {
            IntKey::WindowWidth => SettingsStore { window_width: value, ..self },
            IntKey::WindowHeight => SettingsStore { window_height: value, ..self },
        }
    }

    /// A fresh store for a schema whose keys still hold their defaults.
    pub fn new(default_width: i32, default_height: i32) -> (s: SettingsStore)
        requires
            default_width >= 0,
            default_height >= 0,
        ensures
            s == (SettingsStore {
                window_width: default_width,
                window_height: default_height,
                is_maximized: false,
                writable: true,
            }),
    {
        SettingsStore {
            window_width: default_width,
            window_height: default_height,
            is_maximized: false,
            writable: true,
        }
    }

    /// Read an integer key.
    pub fn read_int(&self, key: IntKey) -> (v: i32)
        ensures
            v == self.spec_int(key),
    {
        match key {
            IntKey::WindowWidth => self.window_width,
            IntKey::WindowHeight => self.window_height,
        }
    }

    /// Read the boolean key.
    pub fn read_boolean(&self, key: BoolKey) -> (v: bool)
        ensures
            v == self.is_maximized,
    {
        match key {
            BoolKey::IsMaximized => self.is_maximized,
        }
    }

    /// Write an integer key.  The write lands exactly when the platform
    /// lets this schema be written; a refused write changes nothing.
    pub fn set_int(&mut self, key: IntKey, value: i32) -> (r: Result<(), SettingsError>)
        ensures
            old(self).writable ==> r is Ok && *final(self) == old(self).spec_with_int(key, value),
            !old(self).writable ==> r is Err && *final(self) == *old(self)
                && r == Result::<(), SettingsError>::Err(SettingsError::WriteRefused),
    {
        if self.writable {
            match key {
                IntKey::WindowWidth => self.window_width = value,
                IntKey::WindowHeight => self.window_height = value,
            }
            Ok(())
        } else {
            Err(SettingsError::WriteRefused)
        }
    }

    /// Write the boolean key, under the same writability rule.
    pub fn set_boolean(&mut self, key: BoolKey, value: bool) -> (r: Result<(), SettingsError>)
        ensures
            old(self).writable ==> r is Ok && *final(self) == (SettingsStore {
                is_maximized: value,
                ..*old(self)
            }),
            !old(self).writable ==> r is Err && *final(self) == *old(self)
                && r == Result::<(), SettingsError>::Err(SettingsError::WriteRefused),
    {
        if self.writable {
            match key {
                BoolKey::IsMaximized => self.is_maximized = value,
            }
            Ok(())
        } else {
            Err(SettingsError::WriteRefused)
        }
    }
}

} // verus!
