//! The application's two colour themes.

use vstd::prelude::*;

verus! {

/// A colour given by its 8-bit red, green and blue parts.
#[derive(Debug, Clone, Copy, PartialEq, Eq, Structural)]
pub struct Rgb8 {
    pub r: u8,
    pub g: u8,
    pub b: u8,
}

/// The colours a theme is built from.
#[derive(Debug, Clone, Copy, PartialEq, Eq, Structural)]
pub struct Palette {
    pub background: Rgb8,
    pub text: Rgb8,
    pub primary: Rgb8,
    pub success: Rgb8,
    pub warning: Rgb8,
    pub danger: Rgb8,
}

/// The colour theme chosen in the settings.
#[derive(Debug, Clone, Copy, PartialEq, Eq, Structural)]
pub enum AppTheme {
    Light,
    Dark,
}

/// A theme's colours.
pub open spec fn spec_palette(theme: AppTheme) -> Palette {
    match theme {
        AppTheme::Light => Palette {
            background: Rgb8 { r: 245, g: 245, b: 245 },
            text: Rgb8 { r: 25, g: 25, b: 25 },
            primary: Rgb8 { r: 31, g: 106, b: 165 },
            success: Rgb8 { r: 30, g: 130, b: 80 },
            warning: Rgb8 { r: 180, g: 130, b: 20 },
            danger: Rgb8 { r: 190, g: 40, b: 40 },
        },
        AppTheme::Dark => Palette {
            background: Rgb8 { r: 33, g: 33, b: 33 },
            text: Rgb8 { r: 230, g: 230, b: 230 },
            primary: Rgb8 { r: 31, g: 106, b: 165 },
            success: Rgb8 { r: 46, g: 160, b: 90 },
            warning: Rgb8 { r: 210, g: 180, b: 60 },
            danger: Rgb8 { r: 210, g: 60, b: 60 },
        },
    }
}

/// The name a theme is registered under.
pub open spec fn spec_theme_name(theme: AppTheme) -> Seq<char> {
    match theme {
        AppTheme::Light => "BCC Light"@,
        AppTheme::Dark => "BCC Dark"@,
    }
}

impl AppTheme {
    /// The theme's colours.
    pub fn palette(self) -> (p: Palette)
        ensures
            p == spec_palette(self),
    {
        match self {
            AppTheme::Light => Palette {
                background: Rgb8 { r: 245, g: 245, b: 245 },
                text: Rgb8 { r: 25, g: 25, b: 25 },
                primary: Rgb8 { r: 31, g: 106, b: 165 },
                success: Rgb8 { r: 30, g: 130, b: 80 },
                warning: Rgb8 { r: 180, g: 130, b: 20 },
                danger: Rgb8 { r: 190, g: 40, b: 40 },
            },
            AppTheme::Dark => Palette {
                background: Rgb8 { r: 33, g: 33, b: 33 },
                text: Rgb8 { r: 230, g: 230, b: 230 },
                primary: Rgb8 { r: 31, g: 106, b: 165 },
                success: Rgb8 { r: 46, g: 160, b: 90 },
                warning: Rgb8 { r: 210, g: 180, b: 60 },
                danger: Rgb8 { r: 210, g: 60, b: 60 },
            },
        }
    }

    /// The name the theme is registered under.
    pub fn name(self) -> (s: &'static str)
        ensures
            s@ == spec_theme_name(self),
    {
        match self {
            AppTheme::Light => "BCC Light",
            AppTheme::Dark => "BCC Dark",
        }
    }
}

impl Default for AppTheme {
    /// The dark theme.
    fn default() -> (t: AppTheme)
        ensures
            t == AppTheme::Dark,
    {
        AppTheme::Dark
    }
}

/// The separator between a header's parts, as in "mount :: file".
pub const HEADER_SEPARATOR: &'static str = " :: ";

} // verus!
