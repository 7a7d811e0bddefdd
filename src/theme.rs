//! The visual theme choice.
use vstd::prelude::*;

verus! {

/// The two themes.
#[derive(Clone, Copy, Debug, PartialEq, Eq, Structural)]
pub enum ThemeKind {
    Light,
    Dark,
}

} // verus!
