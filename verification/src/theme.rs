//! Theme data shared with the presentation layer.
//!
//! Only the plain parts live here: the theme kind and its colour table.
//! Font and geometry settings are fractional and belong to the
//! presentation layer itself.

use vstd::prelude::*;

verus! {

/// Which colour scheme the interface uses.
#[derive(Debug, Clone, Copy, PartialEq, Eq, Structural)]
pub enum ThemeType {
    /// Light scheme.
    Light,
    /// Dark scheme.
    Dark,
    /// Follow the system.
    Auto,
}

/// The colour table of a theme, one red-green-blue triple per role.
#[derive(Debug, Clone, PartialEq)]
pub struct ThemeColors {
    pub background: [u8; 3],
    pub background_secondary: [u8; 3],
    pub text: [u8; 3],
    pub text_secondary: [u8; 3],
    pub primary: [u8; 3],
    pub secondary: [u8; 3],
    pub success: [u8; 3],
    pub warning: [u8; 3],
    pub error: [u8; 3],
    pub border: [u8; 3],
    pub shadow: [u8; 3],
}

} // verus!
