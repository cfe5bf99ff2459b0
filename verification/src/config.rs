//! Build-time identity of the application: its identifier and version.
//!
//! The identifier doubles as the name of the settings schema under which
//! the window geometry is stored, and as the window icon name.

use vstd::prelude::*;

verus! {

/// The application identifier, as a sequence of characters.
pub open spec fn spec_app_id() -> Seq<char> {
    "com.system76.CosmicApplicationTemplate"@
}

/// The application version, as a sequence of characters.
pub open spec fn spec_version() -> Seq<char> {
    "0.1.0"@
}

/// The application identifier: also the settings-schema id and icon name.
pub fn app_id() -> (s: &'static str)
    ensures
        s@ == spec_app_id(),
{
    "com.system76.CosmicApplicationTemplate"
}

/// The application version shown by the about dialog.
pub fn version() -> (s: &'static str)
    ensures
        s@ == spec_version(),
{
    "0.1.0"
}

} // verus!
