//! What the settings screen asks the viewer to do after a change.
use vstd::prelude::*;

verus! {

/// A follow-up to a change of settings.
#[derive(Clone, Copy, Debug, PartialEq, Eq, Structural)]
pub enum SettingsUpdate {
    ReloadTheme,
    ReloadTexture,
    CloseColorAnalyzer,
}

} // verus!
