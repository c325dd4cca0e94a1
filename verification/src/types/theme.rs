//! Theme palette and template configuration.

use vstd::prelude::*;
use crate::types::wallpaper::{PaletteSource, ThemeMode};

verus! {

/// A named colour a template can reference.
#[derive(Debug, Clone, PartialEq, Eq)]
pub struct TemplateColorConfig {
    pub name: String,
    pub color: String,
    pub color_dark: String,
    pub color_light: String,
    pub blend: bool,
}

impl TemplateColorConfig {
    /// Every field holds its default value.
    pub open spec fn has_default_values(&self) -> bool {
        &&& self.name@.len() == 0
        &&& self.color@.len() == 0
        &&& self.color_dark@.len() == 0
        &&& self.color_light@.len() == 0
        &&& self.blend
    }
}

impl Default for TemplateColorConfig {
    fn default() -> (r: Self)
        ensures
            r.has_default_values(),
    {
        TemplateColorConfig {
            name: String::new(),
            color: String::new(),
            color_dark: String::new(),
            color_light: String::new(),
            blend: true,
        }
    }
}

/// Per-mode template inputs.
#[derive(Debug, Clone, PartialEq, Eq)]
pub struct TemplateInputPathModesConfig {
    pub dark: String,
    pub light: String,
}

impl TemplateInputPathModesConfig {
    /// Every field holds its default value.
    pub open spec fn has_default_values(&self) -> bool {
        &&& self.dark@.len() == 0
        &&& self.light@.len() == 0
    }
}

impl Default for TemplateInputPathModesConfig {
    fn default() -> (r: Self)
        ensures
            r.has_default_values(),
    {
        TemplateInputPathModesConfig {
            dark: String::new(),
            light: String::new(),
        }
    }
}

/// A colour compared when choosing a template output.
#[derive(Debug, Clone, PartialEq, Eq)]
pub struct TemplateCompareColorConfig {
    pub name: String,
    pub color: String,
}

impl TemplateCompareColorConfig {
    /// Every field holds its default value.
    pub open spec fn has_default_values(&self) -> bool {
        &&& self.name@.len() == 0
        &&& self.color@.len() == 0
    }
}

impl Default for TemplateCompareColorConfig {
    fn default() -> (r: Self)
        ensures
            r.has_default_values(),
    {
        TemplateCompareColorConfig {
            name: String::new(),
            color: String::new(),
        }
    }
}

/// A user-defined template.
#[derive(Debug, Clone, PartialEq, Eq)]
pub struct UserTemplateConfig {
    /// Table key of the template.
    pub id: String,
    pub enabled: bool,
    pub input_path: String,
    pub input_path_modes: Option<TemplateInputPathModesConfig>,
    pub output_paths: Vec<String>,
    pub output_path_dynamic: String,
    pub compare_to: String,
    pub colors_to_compare: Vec<TemplateCompareColorConfig>,
    pub pre_hook: String,
    pub post_hook: String,
    pub post_action: String,
    pub index: i32,
}

impl UserTemplateConfig {
    /// Every field holds its default value.
    pub open spec fn has_default_values(&self) -> bool {
        &&& self.id@.len() == 0
        &&& self.enabled
        &&& self.input_path@.len() == 0
        &&& self.input_path_modes is None
        &&& self.output_paths@.len() == 0
        &&& self.output_path_dynamic@.len() == 0
        &&& self.compare_to@.len() == 0
        &&& self.colors_to_compare@.len() == 0
        &&& self.pre_hook@.len() == 0
        &&& self.post_hook@.len() == 0
        &&& self.post_action@.len() == 0
        &&& self.index == 0
    }
}

impl Default for UserTemplateConfig {
    fn default() -> (r: Self)
        ensures
            r.has_default_values(),
    {
        UserTemplateConfig {
            id: String::new(),
            enabled: true,
            input_path: String::new(),
            input_path_modes: None,
            output_paths: Vec::new(),
            output_path_dynamic: String::new(),
            compare_to: String::new(),
            colors_to_compare: Vec::new(),
            pre_hook: String::new(),
            post_hook: String::new(),
            post_action: String::new(),
            index: 0,
        }
    }
}

/// Which templates are rendered from the palette.
#[derive(Debug, Clone, PartialEq, Eq)]
pub struct TemplatesConfig {
    pub enable_builtin_templates: bool,
    pub builtin_ids: Vec<String>,
    pub enable_community_templates: bool,
    pub community_ids: Vec<String>,
    pub custom_colors: Vec<TemplateColorConfig>,
    pub user_templates: Vec<UserTemplateConfig>,
}

impl TemplatesConfig {
    /// Every field holds its default value.
    pub open spec fn has_default_values(&self) -> bool {
        &&& self.enable_builtin_templates
        &&& self.builtin_ids@.len() == 0
        &&& self.enable_community_templates
        &&& self.community_ids@.len() == 0
        &&& self.custom_colors@.len() == 0
        &&& self.user_templates@.len() == 0
    }
}

impl Default for TemplatesConfig {
    fn default() -> (r: Self)
        ensures
            r.has_default_values(),
    {
        TemplatesConfig {
            enable_builtin_templates: true,
            builtin_ids: Vec::new(),
            enable_community_templates: true,
            community_ids: Vec::new(),
            custom_colors: Vec::new(),
            user_templates: Vec::new(),
        }
    }
}

/// Theme configuration.
#[derive(Debug, Clone, PartialEq, Eq)]
pub struct ThemeConfig {
    pub source: PaletteSource,
    pub builtin_palette: String,
    pub community_palette: String,
    pub custom_palette: String,
    pub wallpaper_scheme: String,
    pub mode: ThemeMode,
    pub pure_black_dark: bool,
    pub templates: TemplatesConfig,
}

impl ThemeConfig {
    /// Every field holds its default value.
    pub open spec fn has_default_values(&self) -> bool {
        &&& self.source == PaletteSource::Builtin
        &&& self.builtin_palette@ == "Noctalia"@
        &&& self.community_palette@ == "Oxocarbon"@
        &&& self.custom_palette@.len() == 0
        &&& self.wallpaper_scheme@ == "m3-content"@
        &&& self.mode == ThemeMode::Dark
        &&& !self.pure_black_dark
        &&& self.templates.has_default_values()
    }
}

impl Default for ThemeConfig {
    fn default() -> (r: Self)
        ensures
            r.has_default_values(),
    {
        ThemeConfig {
            source: PaletteSource::Builtin,
            builtin_palette: "Noctalia".to_owned(),
            community_palette: "Oxocarbon".to_owned(),
            custom_palette: String::new(),
            wallpaper_scheme: "m3-content".to_owned(),
            mode: ThemeMode::Dark,
            pure_black_dark: false,
            templates: TemplatesConfig::default(),
        }
    }
}

} // verus!
