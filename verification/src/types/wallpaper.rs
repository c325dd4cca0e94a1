//! Wallpaper enums, automation and favourites.

use vstd::prelude::*;

verus! {

/// How a wallpaper fills its output.
#[derive(Debug, Clone, Copy, PartialEq, Eq, Hash, Structural)]
pub enum WallpaperFillMode {
    Center,
    Crop,
    Fit,
    Stretch,
    Repeat,
    Span,
}

impl WallpaperFillMode {
    /// The variant a missing setting takes.
    pub open spec fn spec_default() -> WallpaperFillMode {
        WallpaperFillMode::Crop
    }
}

impl Default for WallpaperFillMode {
    fn default() -> (r: Self)
        ensures
            r == WallpaperFillMode::Crop,
    {
        WallpaperFillMode::Crop
    }
}

/// A wallpaper transition effect.
#[derive(Debug, Clone, Copy, PartialEq, Eq, Hash, Structural)]
pub enum WallpaperTransition {
    Fade,
    Wipe,
    Disc,
    Stripes,
    Zoom,
    Honeycomb,
}

impl WallpaperTransition {
    /// The variant a missing setting takes.
    pub open spec fn spec_default() -> WallpaperTransition {
        WallpaperTransition::Fade
    }
}

impl Default for WallpaperTransition {
    fn default() -> (r: Self)
        ensures
            r == WallpaperTransition::Fade,
    {
        WallpaperTransition::Fade
    }
}

/// The order automatic wallpaper changes go through a directory.
#[derive(Debug, Clone, Copy, PartialEq, Eq, Hash, Structural)]
pub enum WallpaperAutomationOrder {
    Random,
    Alphabetical,
}

impl WallpaperAutomationOrder {
    /// The variant a missing setting takes.
    pub open spec fn spec_default() -> WallpaperAutomationOrder {
        WallpaperAutomationOrder::Random
    }
}

impl Default for WallpaperAutomationOrder {
    fn default() -> (r: Self)
        ensures
            r == WallpaperAutomationOrder::Random,
    {
        WallpaperAutomationOrder::Random
    }
}

/// Where the colour palette comes from.
#[derive(Debug, Clone, Copy, PartialEq, Eq, Hash, Structural)]
pub enum PaletteSource {
    Builtin,
    Wallpaper,
    Community,
    Custom,
}

impl PaletteSource {
    /// The variant a missing setting takes.
    pub open spec fn spec_default() -> PaletteSource {
        PaletteSource::Builtin
    }
}

impl Default for PaletteSource {
    fn default() -> (r: Self)
        ensures
            r == PaletteSource::Builtin,
    {
        PaletteSource::Builtin
    }
}

/// Light or dark theme.
#[derive(Debug, Clone, Copy, PartialEq, Eq, Hash, Structural)]
pub enum ThemeMode {
    Dark,
    Light,
    Auto,
}

impl ThemeMode {
    /// The variant a missing setting takes.
    pub open spec fn spec_default() -> ThemeMode {
        ThemeMode::Auto
    }
}

impl Default for ThemeMode {
    fn default() -> (r: Self)
        ensures
            r == ThemeMode::Auto,
    {
        ThemeMode::Auto
    }
}

/// Automatic wallpaper changes.
#[derive(Debug, Clone, PartialEq, Eq)]
pub struct WallpaperAutomationConfig {
    pub enabled: bool,
    pub interval_seconds: i32,
    pub order: WallpaperAutomationOrder,
    pub recursive: bool,
}

impl WallpaperAutomationConfig {
    /// Every field holds its default value.
    pub open spec fn has_default_values(&self) -> bool {
        &&& !self.enabled
        &&& self.interval_seconds == 1800
        &&& self.order == WallpaperAutomationOrder::Random
        &&& self.recursive
    }
}

impl Default for WallpaperAutomationConfig {
    fn default() -> (r: Self)
        ensures
            r.has_default_values(),
    {
        WallpaperAutomationConfig {
            enabled: false,
            interval_seconds: 1800,
            order: WallpaperAutomationOrder::Random,
            recursive: true,
        }
    }
}

/// Every transition effect, in declaration order.
pub fn default_wallpaper_transitions() -> (r: Vec<WallpaperTransition>)
    ensures
        r@ == seq![WallpaperTransition::Fade, WallpaperTransition::Wipe, WallpaperTransition::Disc, WallpaperTransition::Stripes, WallpaperTransition::Zoom, WallpaperTransition::Honeycomb],
{
    let mut r: Vec<WallpaperTransition> = Vec::new();
    r.push(WallpaperTransition::Fade);
    r.push(WallpaperTransition::Wipe);
    r.push(WallpaperTransition::Disc);
    r.push(WallpaperTransition::Stripes);
    r.push(WallpaperTransition::Zoom);
    r.push(WallpaperTransition::Honeycomb);
    r
}

/// A wallpaper saved together with the theme it was used with.
#[derive(Debug, Clone, PartialEq, Eq)]
pub struct WallpaperFavorite {
    pub path: String,
    pub theme_mode: ThemeMode,
    pub palette_source: Option<PaletteSource>,
    pub builtin_palette: String,
    pub community_palette: String,
    pub custom_palette: String,
    pub wallpaper_scheme: String,
}

impl WallpaperFavorite {
    /// Every field holds its default value.
    pub open spec fn has_default_values(&self) -> bool {
        &&& self.path@.len() == 0
        &&& self.theme_mode == ThemeMode::spec_default()
        &&& self.palette_source is None
        &&& self.builtin_palette@.len() == 0
        &&& self.community_palette@.len() == 0
        &&& self.custom_palette@.len() == 0
        &&& self.wallpaper_scheme@.len() == 0
    }
}

impl Default for WallpaperFavorite {
    fn default() -> (r: Self)
        ensures
            r.has_default_values(),
    {
        WallpaperFavorite {
            path: String::new(),
            theme_mode: ThemeMode::default(),
            palette_source: None,
            builtin_palette: String::new(),
            community_palette: String::new(),
            custom_palette: String::new(),
            wallpaper_scheme: String::new(),
        }
    }
}

} // verus!
