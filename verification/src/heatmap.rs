//! Heatmap panel vocabulary and options.
use vstd::prelude::*;

use crate::field::Unit;
use crate::visualization::AxisPlacement;

verus! {

/// A named Grafana heatmap color palette.
#[derive(Debug, PartialEq, Eq)]
#[non_exhaustive]
pub enum HeatmapColorScheme {
    /// Grafana's default heatmap palette.
    Oranges,
    /// Blues palette.
    Blues,
    /// Greens palette.
    Greens,
    /// Reds palette.
    Reds,
    /// Purples palette.
    Purples,
    /// Turbo palette.
    Turbo,
    /// Viridis palette.
    Viridis,
    /// Spectral palette.
    Spectral,
    /// Any other palette Grafana recognizes.
    Custom(String),
}

pub open spec fn heatmap_color_scheme_name(s: HeatmapColorScheme) -> Seq<char> {
    match s {
        HeatmapColorScheme::Oranges => "Oranges"@,
        HeatmapColorScheme::Blues => "Blues"@,
        HeatmapColorScheme::Greens => "Greens"@,
        HeatmapColorScheme::Reds => "Reds"@,
        HeatmapColorScheme::Purples => "Purples"@,
        HeatmapColorScheme::Turbo => "Turbo"@,
        HeatmapColorScheme::Viridis => "Viridis"@,
        HeatmapColorScheme::Spectral => "Spectral"@,
        HeatmapColorScheme::Custom(value) => value@,
    }
}

/// Whether `name` is one of the palettes modelled as a variant.
pub open spec fn is_named_palette(name: Seq<char>) -> bool {
    name == "Oranges"@ || name == "Blues"@ || name == "Greens"@ || name == "Reds"@ || name
        == "Purples"@ || name == "Turbo"@ || name == "Viridis"@ || name == "Spectral"@
}

/// Whether `scheme` is the palette selected by `name`: the one named so,
/// and a custom palette exactly when no modelled palette has that name.
pub open spec fn selects_palette(name: Seq<char>, scheme: HeatmapColorScheme) -> bool {
    heatmap_color_scheme_name(scheme) == name && (scheme is Custom <==> !is_named_palette(name))
}

impl HeatmapColorScheme {
    /// Selects a palette by name.
    pub fn named(value: &str) -> (s: Self)
        ensures
            selects_palette(value@, s),
    {
        let name = value.to_string();
        if name == "Oranges".to_string() {
            HeatmapColorScheme::Oranges
        } else if name == "Blues".to_string() {
            HeatmapColorScheme::Blues
        } else if name == "Greens".to_string() {
            HeatmapColorScheme::Greens
        } else if name == "Reds".to_string() {
            HeatmapColorScheme::Reds
        } else if name == "Purples".to_string() {
            HeatmapColorScheme::Purples
        } else if name == "Turbo".to_string() {
            HeatmapColorScheme::Turbo
        } else if name == "Viridis".to_string() {
            HeatmapColorScheme::Viridis
        } else if name == "Spectral".to_string() {
            HeatmapColorScheme::Spectral
        } else {
            HeatmapColorScheme::Custom(name)
        }
    }

    /// The Grafana palette name.
    pub fn as_grafana(&self) -> (s: &str)
        ensures
            s@ == heatmap_color_scheme_name(*self),
    {
        match self {
            HeatmapColorScheme::Oranges => "Oranges",
            HeatmapColorScheme::Blues => "Blues",
            HeatmapColorScheme::Greens => "Greens",
            HeatmapColorScheme::Reds => "Reds",
            HeatmapColorScheme::Purples => "Purples",
            HeatmapColorScheme::Turbo => "Turbo",
            HeatmapColorScheme::Viridis => "Viridis",
            HeatmapColorScheme::Spectral => "Spectral",
            HeatmapColorScheme::Custom(value) => value.as_str(),
        }
    }
}

/// A value that selects a heatmap palette: a palette, or its name.
pub trait IntoHeatmapColorScheme: Sized {
    spec fn selects(self, scheme: HeatmapColorScheme) -> bool;

    fn into_scheme(self) -> (s: HeatmapColorScheme)
        ensures
            self.selects(s),
    ;
}

impl IntoHeatmapColorScheme for HeatmapColorScheme {
    open spec fn selects(self, scheme: HeatmapColorScheme) -> bool {
        scheme == self
    }

    fn into_scheme(self) -> (s: HeatmapColorScheme) {
        self
    }
}

impl<'a> IntoHeatmapColorScheme for &'a str {
    open spec fn selects(self, scheme: HeatmapColorScheme) -> bool {
        selects_palette(self@, scheme)
    }

    fn into_scheme(self) -> (s: HeatmapColorScheme) {
        HeatmapColorScheme::named(self)
    }
}

impl Default for HeatmapColorScheme {
    fn default() -> (s: Self)
        ensures
            s == HeatmapColorScheme::Oranges,
    {
        HeatmapColorScheme::Oranges
    }
}

/// How a heatmap maps values to color.
#[derive(Debug, Clone, Copy, PartialEq, Eq)]
pub enum HeatmapColorMode {
    /// Use a named palette.
    Scheme,
    /// Vary opacity of one color.
    Opacity,
}

impl Default for HeatmapColorMode {
    fn default() -> (m: Self)
        ensures
            m == HeatmapColorMode::Scheme,
    {
        HeatmapColorMode::Scheme
    }
}

/// Typed authoring state for the Grafana heatmap panel.
pub struct HeatmapOptions {
    pub color_scheme: Option<HeatmapColorScheme>,
    pub color_steps: Option<u32>,
    pub color_mode: Option<HeatmapColorMode>,
    pub cell_gap: Option<u8>,
    pub legend: Option<bool>,
    pub y_axis_unit: Option<Unit>,
    pub y_axis_placement: Option<AxisPlacement>,
    pub calculate: Option<bool>,
}

impl HeatmapOptions {
    pub open spec fn empty() -> HeatmapOptions {
        HeatmapOptions {
            color_scheme: None,
            color_steps: None,
            color_mode: None,
            cell_gap: None,
            legend: None,
            y_axis_unit: None,
            y_axis_placement: None,
            calculate: None,
        }
    }

    pub fn new() -> (o: HeatmapOptions)
        ensures
            o == HeatmapOptions::empty(),
    {
        HeatmapOptions {
            color_scheme: None,
            color_steps: None,
            color_mode: None,
            cell_gap: None,
            legend: None,
            y_axis_unit: None,
            y_axis_placement: None,
            calculate: None,
        }
    }
}

} // verus!
