//! Field defaults, thresholds, value mappings, overrides, and legends.
use vstd::prelude::*;

use crate::float::Float;
use crate::json::{raw_insert, raw_map, JsonV};
use crate::table::{IntoTableCell, TableCell, TableCellType};
use crate::text::{str_views, views};
use crate::visualization::Reducer;

verus! {

/// A Grafana field unit with common units represented as Rust variants.
#[derive(Debug, PartialEq, Eq)]
#[non_exhaustive]
pub enum Unit {
    /// Grafana's automatic/default unit behavior (`none`).
    NoUnit,
    /// Seconds (`s`).
    Seconds,
    /// Milliseconds (`ms`).
    Milliseconds,
    /// Bytes using IEC scaling (`bytes`).
    Bytes,
    /// Bytes per second using IEC scaling (`Bps`).
    BytesPerSecond,
    /// Percentage in the 0–100 range (`percent`).
    Percent,
    /// Percentage expressed as a 0–1 fraction (`percentunit`).
    PercentUnit,
    /// Requests per second (`reqps`).
    RequestsPerSecond,
    /// Operations per second (`ops`).
    OperationsPerSecond,
    /// Compact short-number formatting (`short`).
    Short,
    /// A custom Grafana unit identifier or literal suffix.
    Custom(String),
}

pub open spec fn unit_name(unit: Unit) -> Seq<char> {
    match unit {
        Unit::NoUnit => "none"@,
        Unit::Seconds => "s"@,
        Unit::Milliseconds => "ms"@,
        Unit::Bytes => "bytes"@,
        Unit::BytesPerSecond => "Bps"@,
        Unit::Percent => "percent"@,
        Unit::PercentUnit => "percentunit"@,
        Unit::RequestsPerSecond => "reqps"@,
        Unit::OperationsPerSecond => "ops"@,
        Unit::Short => "short"@,
        Unit::Custom(value) => value@,
    }
}

impl Unit {
    /// Creates a custom Grafana unit identifier or literal suffix.
    pub fn custom(unit: &str) -> (u: Self)
        ensures
            u matches Unit::Custom(s) && s@ == unit@,
    {
        Unit::Custom(unit.to_string())
    }

    /// The Grafana unit identifier.
    pub fn as_grafana(&self) -> (s: &str)
        ensures
            s@ == unit_name(*self),
    {
        match self {
            Unit::NoUnit => "none",
            Unit::Seconds => "s",
            Unit::Milliseconds => "ms",
            Unit::Bytes => "bytes",
            Unit::BytesPerSecond => "Bps",
            Unit::Percent => "percent",
            Unit::PercentUnit => "percentunit",
            Unit::RequestsPerSecond => "reqps",
            Unit::OperationsPerSecond => "ops",
            Unit::Short => "short",
            Unit::Custom(value) => value.as_str(),
        }
    }

    pub fn copy(&self) -> (u: Self)
        ensures
            u == *self,
    {
        match self {
            Unit::NoUnit => Unit::NoUnit,
            Unit::Seconds => Unit::Seconds,
            Unit::Milliseconds => Unit::Milliseconds,
            Unit::Bytes => Unit::Bytes,
            Unit::BytesPerSecond => Unit::BytesPerSecond,
            Unit::Percent => Unit::Percent,
            Unit::PercentUnit => Unit::PercentUnit,
            Unit::RequestsPerSecond => Unit::RequestsPerSecond,
            Unit::OperationsPerSecond => Unit::OperationsPerSecond,
            Unit::Short => Unit::Short,
            Unit::Custom(value) => Unit::Custom(value.clone()),
        }
    }
}

impl Default for Unit {
    fn default() -> (u: Self)
        ensures
            u == Unit::NoUnit,
    {
        Unit::NoUnit
    }
}

/// A Grafana color name or custom color value.
#[derive(Debug, PartialEq, Eq)]
#[non_exhaustive]
pub enum Color {
    /// Green.
    Green,
    /// Yellow.
    Yellow,
    /// Red.
    Red,
    /// Blue.
    Blue,
    /// Orange.
    Orange,
    /// Purple.
    Purple,
    /// A Grafana color name or CSS-compatible color value.
    Custom(String),
}

pub open spec fn color_name(color: Color) -> Seq<char> {
    match color {
        Color::Green => "green"@,
        Color::Yellow => "yellow"@,
        Color::Red => "red"@,
        Color::Blue => "blue"@,
        Color::Orange => "orange"@,
        Color::Purple => "purple"@,
        Color::Custom(value) => value@,
    }
}

impl Color {
    /// Creates a custom Grafana color name or CSS-compatible color value.
    pub fn custom(color: &str) -> (c: Self)
        ensures
            c matches Color::Custom(s) && s@ == color@,
    {
        Color::Custom(color.to_string())
    }

    /// The Grafana color name.
    pub fn as_grafana(&self) -> (s: &str)
        ensures
            s@ == color_name(*self),
    {
        match self {
            Color::Green => "green",
            Color::Yellow => "yellow",
            Color::Red => "red",
            Color::Blue => "blue",
            Color::Orange => "orange",
            Color::Purple => "purple",
            Color::Custom(value) => value.as_str(),
        }
    }
}

/// Display text and optional color substituted for one exact field value.
#[derive(Debug, PartialEq, Eq)]
pub struct ValueMapping {
    pub value: String,
    pub text: String,
    pub color: Option<Color>,
}

impl ValueMapping {
    /// Maps an exact Grafana field value to display text.
    pub fn new(value: &str, text: &str) -> (m: Self)
        ensures
            m.value@ == value@,
            m.text@ == text@,
            m.color is None,
    {
        ValueMapping { value: value.to_string(), text: text.to_string(), color: None }
    }

    /// Colors the mapped result.
    pub fn color(self, color: Color) -> (m: Self)
        ensures
            m == (ValueMapping { color: Some(color), ..self }),
    {
        ValueMapping { color: Some(color), ..self }
    }
}

/// How Grafana interprets threshold values.
#[derive(Debug, Clone, Copy, PartialEq, Eq)]
pub enum ThresholdMode {
    /// Thresholds are absolute field values.
    Absolute,
    /// Thresholds are percentages between configured minimum and maximum.
    Percentage,
}

impl Default for ThresholdMode {
    fn default() -> (m: Self)
        ensures
            m == ThresholdMode::Absolute,
    {
        ThresholdMode::Absolute
    }
}

/// A color transition at an optional numeric value.
#[derive(Debug, PartialEq)]
pub struct ThresholdStep {
    pub color: Color,
    pub value: Option<Float>,
}

impl ThresholdStep {
    /// Creates a threshold step. `None` represents Grafana's base step.
    pub fn new(color: Color, value: Option<Float>) -> (s: Self)
        ensures
            s == (ThresholdStep { color, value }),
    {
        ThresholdStep { color, value }
    }
}

/// Ordered threshold configuration.
#[derive(Debug, PartialEq)]
pub struct Thresholds {
    pub mode: ThresholdMode,
    pub steps: Vec<ThresholdStep>,
}

impl Thresholds {
    /// Creates absolute thresholds with no steps.
    pub fn new() -> (t: Self)
        ensures
            t.mode == ThresholdMode::Absolute,
            t.steps@ == Seq::<ThresholdStep>::empty(),
    {
        Thresholds { mode: ThresholdMode::Absolute, steps: Vec::new() }
    }

    /// Changes how Grafana interprets the values.
    pub fn mode(self, mode: ThresholdMode) -> (t: Self)
        ensures
            t == (Thresholds { mode, ..self }),
    {
        Thresholds { mode, ..self }
    }

    /// Appends an ordered threshold step.
    pub fn step(self, color: Color, value: Option<Float>) -> (t: Self)
        ensures
            t.mode == self.mode,
            t.steps@ == self.steps@.push(ThresholdStep { color, value }),
    {
        let mut steps = self.steps;
        steps.push(ThresholdStep::new(color, value));
        Thresholds { mode: self.mode, steps }
    }

    /// Appends a green threshold.
    pub fn green(self, value: Float) -> (t: Self)
        ensures
            t.mode == self.mode,
            t.steps@ == self.steps@.push(ThresholdStep { color: Color::Green, value: Some(value) }),
    {
        self.step(Color::Green, Some(value))
    }

    /// Appends a yellow threshold.
    pub fn yellow(self, value: Float) -> (t: Self)
        ensures
            t.mode == self.mode,
            t.steps@ == self.steps@.push(ThresholdStep { color: Color::Yellow, value: Some(value) }),
    {
        self.step(Color::Yellow, Some(value))
    }

    /// Appends a red threshold.
    pub fn red(self, value: Float) -> (t: Self)
        ensures
            t.mode == self.mode,
            t.steps@ == self.steps@.push(ThresholdStep { color: Color::Red, value: Some(value) }),
    {
        self.step(Color::Red, Some(value))
    }
}

impl Default for Thresholds {
    fn default() -> (t: Self)
        ensures
            t.mode == ThresholdMode::Absolute,
            t.steps@ == Seq::<ThresholdStep>::empty(),
    {
        Thresholds::new()
    }
}

/// A typed Grafana field color scheme.
#[derive(Debug, PartialEq, Eq)]
#[non_exhaustive]
pub enum ColorScheme {
    /// Use thresholds to determine the color.
    Thresholds,
    /// Use a classic palette indexed by series.
    ClassicPalette,
    /// Use one fixed color.
    Fixed(Color),
    /// Use a named Grafana continuous palette.
    Continuous(String),
}

/// Common field defaults shared by panel types.
#[derive(Debug, PartialEq)]
pub struct FieldConfig {
    pub unit: Option<Unit>,
    pub min: Option<Float>,
    pub max: Option<Float>,
    pub decimals: Option<u8>,
    pub display_name: Option<String>,
    pub color: Option<ColorScheme>,
    pub thresholds: Option<Thresholds>,
    pub mappings: Vec<ValueMapping>,
    pub custom: Vec<(String, serde_json::Value)>,
    pub overrides: Vec<FieldOverride>,
}

impl FieldConfig {
    /// Whether this configuration sets nothing.
    pub open spec fn is_empty(self) -> bool {
        &&& self.unit is None
        &&& self.min is None
        &&& self.max is None
        &&& self.decimals is None
        &&& self.display_name is None
        &&& self.color is None
        &&& self.thresholds is None
        &&& self.mappings@.len() == 0
        &&& self.custom@.len() == 0
        &&& self.overrides@.len() == 0
    }

    /// Creates empty field defaults.
    pub fn new() -> (c: Self)
        ensures
            c.is_empty(),
    {
        FieldConfig {
            unit: None,
            min: None,
            max: None,
            decimals: None,
            display_name: None,
            color: None,
            thresholds: None,
            mappings: Vec::new(),
            custom: Vec::new(),
            overrides: Vec::new(),
        }
    }

    /// Sets the display unit.
    pub fn unit(self, unit: Unit) -> (c: Self)
        ensures
            c == (FieldConfig { unit: Some(unit), ..self }),
    {
        FieldConfig { unit: Some(unit), ..self }
    }

    /// Sets the field minimum.
    pub fn min(self, min: Float) -> (c: Self)
        ensures
            c == (FieldConfig { min: Some(min), ..self }),
    {
        FieldConfig { min: Some(min), ..self }
    }

    /// Sets the field maximum.
    pub fn max(self, max: Float) -> (c: Self)
        ensures
            c == (FieldConfig { max: Some(max), ..self }),
    {
        FieldConfig { max: Some(max), ..self }
    }

    /// Sets the displayed decimal count.
    pub fn decimals(self, decimals: u8) -> (c: Self)
        ensures
            c == (FieldConfig { decimals: Some(decimals), ..self }),
    {
        FieldConfig { decimals: Some(decimals), ..self }
    }

    /// Sets the display-name template.
    pub fn display_name(self, display_name: &str) -> (c: Self)
        ensures
            c == (FieldConfig { display_name: c.display_name, ..self }),
            c.display_name matches Some(s) && s@ == display_name@,
    {
        FieldConfig { display_name: Some(display_name.to_string()), ..self }
    }

    /// Sets the field color scheme.
    pub fn color(self, color: ColorScheme) -> (c: Self)
        ensures
            c == (FieldConfig { color: Some(color), ..self }),
    {
        FieldConfig { color: Some(color), ..self }
    }

    /// Sets threshold configuration.
    pub fn thresholds(self, thresholds: Thresholds) -> (c: Self)
        ensures
            c == (FieldConfig { thresholds: Some(thresholds), ..self }),
    {
        FieldConfig { thresholds: Some(thresholds), ..self }
    }

    /// Adds an exact-value display mapping.
    pub fn mapping(self, mapping: ValueMapping) -> (c: Self)
        ensures
            c == (FieldConfig { mappings: c.mappings, ..self }),
            c.mappings@ == self.mappings@.push(mapping),
    {
        let mut mappings = self.mappings;
        mappings.push(mapping);
        FieldConfig { mappings, ..self }
    }

    /// Adds a plugin-specific field default. It is applied after every
    /// typed field-custom setter, so it wins over the equivalent typed value.
    pub fn custom(self, key: &str, value: serde_json::Value) -> (c: Self)
        ensures
            c == (FieldConfig { custom: c.custom, ..self }),
            raw_map(c.custom@) == raw_map(self.custom@).insert(key@, JsonV::Raw(value)),
    {
        let mut custom = self.custom;
        raw_insert(&mut custom, key, value);
        FieldConfig { custom, ..self }
    }

    /// Adds a field override.
    pub fn override_field(self, field_override: FieldOverride) -> (c: Self)
        ensures
            c == (FieldConfig { overrides: c.overrides, ..self }),
            c.overrides@ == self.overrides@.push(field_override),
    {
        let mut overrides = self.overrides;
        overrides.push(field_override);
        FieldConfig { overrides, ..self }
    }
}

impl Default for FieldConfig {
    fn default() -> (c: Self)
        ensures
            c.is_empty(),
    {
        FieldConfig::new()
    }
}

/// Selects fields to which an override applies.
#[derive(Debug, PartialEq, Eq)]
#[non_exhaustive]
pub enum OverrideMatcher {
    /// Match an exact field name.
    Name(String),
    /// Match a regular expression.
    Regex(String),
    /// Match a Grafana field type such as `number` or `string`.
    Type(String),
    /// Match every field returned by one query reference ID.
    QueryRefId(String),
    /// Match an explicit list of field names.
    Names(Vec<String>),
    /// Match every numeric field.
    Numeric,
    /// Match every time field.
    Time,
}

/// A typed or custom field override property.
#[derive(Debug, PartialEq)]
#[non_exhaustive]
pub enum OverrideProperty {
    /// Override the field unit.
    Unit(Unit),
    /// Override the minimum.
    Min(Float),
    /// Override the maximum.
    Max(Float),
    /// Override decimal rendering.
    Decimals(u8),
    /// Override display name.
    DisplayName(String),
    /// Override the field color scheme.
    Color(ColorScheme),
    /// Override line width for compatible panels.
    LineWidth(u8),
    /// Override thresholds for the selected fields.
    Thresholds(Thresholds),
    /// Override the table cell renderer.
    Cell(TableCell),
    /// Explicit Grafana property escape hatch.
    Custom {
        /// Grafana field-property identifier.
        id: String,
        /// Property value.
        value: serde_json::Value,
    },
}

/// A matcher and ordered set of field properties.
#[derive(Debug, PartialEq)]
pub struct FieldOverride {
    pub matcher: OverrideMatcher,
    pub properties: Vec<OverrideProperty>,
}

impl FieldOverride {
    /// Matches one exact field name.
    pub fn by_name(name: &str) -> (o: Self)
        ensures
            o.matcher matches OverrideMatcher::Name(s) && s@ == name@,
            o.properties@.len() == 0,
    {
        FieldOverride { matcher: OverrideMatcher::Name(name.to_string()), properties: Vec::new() }
    }

    /// Matches fields using a regular expression.
    pub fn by_regex(regex: &str) -> (o: Self)
        ensures
            o.matcher matches OverrideMatcher::Regex(s) && s@ == regex@,
            o.properties@.len() == 0,
    {
        FieldOverride { matcher: OverrideMatcher::Regex(regex.to_string()), properties: Vec::new() }
    }

    /// Matches fields by Grafana field type.
    pub fn by_type(field_type: &str) -> (o: Self)
        ensures
            o.matcher matches OverrideMatcher::Type(s) && s@ == field_type@,
            o.properties@.len() == 0,
    {
        FieldOverride {
            matcher: OverrideMatcher::Type(field_type.to_string()),
            properties: Vec::new(),
        }
    }

    /// Matches every field returned by one query.
    pub fn by_query(ref_id: &str) -> (o: Self)
        ensures
            o.matcher matches OverrideMatcher::QueryRefId(s) && s@ == ref_id@,
            o.properties@.len() == 0,
    {
        FieldOverride {
            matcher: OverrideMatcher::QueryRefId(ref_id.to_string()),
            properties: Vec::new(),
        }
    }

    /// Matches an explicit list of field names.
    pub fn by_names(names: &[&str]) -> (o: Self)
        ensures
            o.matcher matches OverrideMatcher::Names(v) && views(v@) == str_views(names@),
            o.properties@.len() == 0,
    {
        FieldOverride {
            matcher: OverrideMatcher::Names(crate::text::own_strings(names)),
            properties: Vec::new(),
        }
    }

    /// Matches every numeric field.
    pub fn numeric_fields() -> (o: Self)
        ensures
            o.matcher == OverrideMatcher::Numeric,
            o.properties@.len() == 0,
    {
        FieldOverride { matcher: OverrideMatcher::Numeric, properties: Vec::new() }
    }

    /// Matches every time field.
    pub fn time_fields() -> (o: Self)
        ensures
            o.matcher == OverrideMatcher::Time,
            o.properties@.len() == 0,
    {
        FieldOverride { matcher: OverrideMatcher::Time, properties: Vec::new() }
    }

    /// Appends an override property.
    pub fn property(self, property: OverrideProperty) -> (o: Self)
        ensures
            o.matcher == self.matcher,
            o.properties@ == self.properties@.push(property),
    {
        let mut properties = self.properties;
        properties.push(property);
        FieldOverride { matcher: self.matcher, properties }
    }

    /// Sets the field unit.
    pub fn unit(self, unit: Unit) -> (o: Self)
        ensures
            o.matcher == self.matcher,
            o.properties@ == self.properties@.push(OverrideProperty::Unit(unit)),
    {
        self.property(OverrideProperty::Unit(unit))
    }

    /// Sets the field minimum.
    pub fn min(self, min: Float) -> (o: Self)
        ensures
            o.matcher == self.matcher,
            o.properties@ == self.properties@.push(OverrideProperty::Min(min)),
    {
        self.property(OverrideProperty::Min(min))
    }

    /// Sets the field maximum.
    pub fn max(self, max: Float) -> (o: Self)
        ensures
            o.matcher == self.matcher,
            o.properties@ == self.properties@.push(OverrideProperty::Max(max)),
    {
        self.property(OverrideProperty::Max(max))
    }

    /// Sets the displayed decimal count.
    pub fn decimals(self, decimals: u8) -> (o: Self)
        ensures
            o.matcher == self.matcher,
            o.properties@ == self.properties@.push(OverrideProperty::Decimals(decimals)),
    {
        self.property(OverrideProperty::Decimals(decimals))
    }

    /// Sets the display name.
    pub fn display_name(self, display_name: &str) -> (o: Self)
        ensures
            o.matcher == self.matcher,
            o.properties@.drop_last() == self.properties@,
            o.properties@.last() matches OverrideProperty::DisplayName(s) && s@ == display_name@,
    {
        let o = self.property(OverrideProperty::DisplayName(display_name.to_string()));
        assert(o.properties@.drop_last() =~= self.properties@);
        o
    }

    /// Sets a fixed color.
    pub fn color(self, color: Color) -> (o: Self)
        ensures
            o.matcher == self.matcher,
            o.properties@ == self.properties@.push(
                OverrideProperty::Color(ColorScheme::Fixed(color)),
            ),
    {
        self.property(OverrideProperty::Color(ColorScheme::Fixed(color)))
    }

    /// Sets line width for compatible visualizations.
    pub fn line_width(self, width: u8) -> (o: Self)
        ensures
            o.matcher == self.matcher,
            o.properties@ == self.properties@.push(OverrideProperty::LineWidth(width)),
    {
        self.property(OverrideProperty::LineWidth(width))
    }

    /// Sets thresholds for the selected fields.
    pub fn thresholds(self, thresholds: Thresholds) -> (o: Self)
        ensures
            o.matcher == self.matcher,
            o.properties@ == self.properties@.push(OverrideProperty::Thresholds(thresholds)),
    {
        self.property(OverrideProperty::Thresholds(thresholds))
    }

    /// Sets the table cell renderer for the selected fields.
    pub fn cell<C: IntoTableCell>(self, cell: C) -> (o: Self)
        ensures
            o.matcher == self.matcher,
            o.properties@ == self.properties@.push(OverrideProperty::Cell(cell.spec_cell())),
    {
        let cell = cell.into_cell();
        self.property(OverrideProperty::Cell(cell))
    }

    /// Sets the table cell renderer using its default options.
    pub fn cell_type(self, cell_type: TableCellType) -> (o: Self)
        ensures
            o.matcher == self.matcher,
            o.properties@ == self.properties@.push(OverrideProperty::Cell(cell_type.spec_cell())),
    {
        self.cell(cell_type)
    }
}

/// Grafana legend rendering mode.
#[derive(Debug, Clone, Copy, PartialEq, Eq)]
pub enum LegendMode {
    /// Compact vertical list.
    List,
    /// Tabular legend with calculations.
    Table,
    /// Hide the legend.
    Hidden,
}

impl Default for LegendMode {
    fn default() -> (m: Self)
        ensures
            m == LegendMode::List,
    {
        LegendMode::List
    }
}

/// Grafana legend placement.
#[derive(Debug, Clone, Copy, PartialEq, Eq)]
pub enum LegendPlacement {
    /// Below the visualization.
    Bottom,
    /// To the right of the visualization.
    Right,
}

impl Default for LegendPlacement {
    fn default() -> (p: Self)
        ensures
            p == LegendPlacement::Bottom,
    {
        LegendPlacement::Bottom
    }
}

/// Common legend settings.
#[derive(Debug, PartialEq, Eq)]
pub struct Legend {
    pub mode: LegendMode,
    pub placement: LegendPlacement,
    pub calculations: Vec<Reducer>,
}

impl Legend {
    /// Creates the default visible bottom list legend.
    pub fn new() -> (l: Self)
        ensures
            l.mode == LegendMode::List,
            l.placement == LegendPlacement::Bottom,
            l.calculations@ == Seq::<Reducer>::empty(),
    {
        Legend { mode: LegendMode::List, placement: LegendPlacement::Bottom, calculations: Vec::new() }
    }

    /// Sets list, table, or hidden mode.
    pub fn mode(self, mode: LegendMode) -> (l: Self)
        ensures
            l == (Legend { mode, ..self }),
    {
        Legend { mode, ..self }
    }

    /// Sets bottom or right placement.
    pub fn placement(self, placement: LegendPlacement) -> (l: Self)
        ensures
            l == (Legend { placement, ..self }),
    {
        Legend { placement, ..self }
    }

    /// Replaces the displayed calculations.
    pub fn calculations(self, calculations: Vec<Reducer>) -> (l: Self)
        ensures
            l.mode == self.mode,
            l.placement == self.placement,
            l.calculations@ == calculations@,
    {
        Legend { calculations, ..self }
    }
}

impl Default for Legend {
    fn default() -> (l: Self)
        ensures
            l.mode == LegendMode::List,
            l.placement == LegendPlacement::Bottom,
            l.calculations@ == Seq::<Reducer>::empty(),
    {
        Legend::new()
    }
}

} // verus!
