//! Visualization vocabulary shared by several panel kinds.
use vstd::prelude::*;

use crate::field::Legend;
use crate::float::Float;

verus! {

/// A Grafana reduction applied to a field's values (`ReducerID`).
#[derive(Debug, Clone, Copy, PartialEq, Eq)]
#[non_exhaustive]
pub enum Reducer {
    /// Last non-null value.
    Last,
    /// Minimum value.
    Min,
    /// Maximum value.
    Max,
    /// Mean value.
    Mean,
    /// Sum.
    Total,
}

pub open spec fn reducer_name(r: Reducer) -> Seq<char> {
    match r {
        Reducer::Last => "lastNotNull"@,
        Reducer::Min => "min"@,
        Reducer::Max => "max"@,
        Reducer::Mean => "mean"@,
        Reducer::Total => "sum"@,
    }
}

impl Reducer {
    /// The Grafana reducer identifier.
    pub fn as_grafana(self) -> (s: &'static str)
        ensures
            s@ == reducer_name(self),
    {
        match self {
            Reducer::Last => "lastNotNull",
            Reducer::Min => "min",
            Reducer::Max => "max",
            Reducer::Mean => "mean",
            Reducer::Total => "sum",
        }
    }
}

/// Orientation used by stat, gauge, and bar-gauge visualizations.
#[derive(Debug, Clone, Copy, PartialEq, Eq)]
pub enum Orientation {
    /// Let Grafana select an orientation from the panel dimensions.
    Auto,
    /// Arrange values horizontally.
    Horizontal,
    /// Arrange values vertically.
    Vertical,
}

pub open spec fn orientation_name(o: Orientation) -> Seq<char> {
    match o {
        Orientation::Auto => "auto"@,
        Orientation::Horizontal => "horizontal"@,
        Orientation::Vertical => "vertical"@,
    }
}

impl Orientation {
    /// The Grafana orientation identifier.
    pub fn as_grafana(self) -> (s: &'static str)
        ensures
            s@ == orientation_name(self),
    {
        match self {
            Orientation::Auto => "auto",
            Orientation::Horizontal => "horizontal",
            Orientation::Vertical => "vertical",
        }
    }
}

impl Default for Orientation {
    fn default() -> (o: Self)
        ensures
            o == Orientation::Auto,
    {
        Orientation::Auto
    }
}

/// How a stat panel colors its value and background.
#[derive(Debug, Clone, Copy, PartialEq, Eq)]
pub enum StatColorMode {
    /// Color the rendered value.
    Value,
    /// Color the panel background.
    Background,
    /// Do not apply field colors.
    NoColor,
}

pub open spec fn stat_color_mode_name(m: StatColorMode) -> Seq<char> {
    match m {
        StatColorMode::Value => "value"@,
        StatColorMode::Background => "background"@,
        StatColorMode::NoColor => "none"@,
    }
}

impl StatColorMode {
    /// The Grafana color-mode identifier.
    pub fn as_grafana(self) -> (s: &'static str)
        ensures
            s@ == stat_color_mode_name(self),
    {
        match self {
            StatColorMode::Value => "value",
            StatColorMode::Background => "background",
            StatColorMode::NoColor => "none",
        }
    }
}

impl Default for StatColorMode {
    fn default() -> (m: Self)
        ensures
            m == StatColorMode::Value,
    {
        StatColorMode::Value
    }
}

/// Sparkline rendering mode for a stat panel.
#[derive(Debug, Clone, Copy, PartialEq, Eq)]
pub enum StatGraphMode {
    /// Render an area sparkline.
    Area,
    /// Hide the sparkline.
    NoGraph,
}

pub open spec fn stat_graph_mode_name(m: StatGraphMode) -> Seq<char> {
    match m {
        StatGraphMode::Area => "area"@,
        StatGraphMode::NoGraph => "none"@,
    }
}

impl StatGraphMode {
    /// The Grafana graph-mode identifier.
    pub fn as_grafana(self) -> (s: &'static str)
        ensures
            s@ == stat_graph_mode_name(self),
    {
        match self {
            StatGraphMode::Area => "area",
            StatGraphMode::NoGraph => "none",
        }
    }
}

impl Default for StatGraphMode {
    fn default() -> (m: Self)
        ensures
            m == StatGraphMode::Area,
    {
        StatGraphMode::Area
    }
}

/// Line interpolation used by a time-series panel.
#[derive(Debug, Clone, Copy, PartialEq, Eq)]
pub enum LineInterpolation {
    /// Connect points with straight lines.
    Linear,
    /// Smooth the line between points.
    Smooth,
    /// Step immediately before each point.
    StepBefore,
    /// Step immediately after each point.
    StepAfter,
}

pub open spec fn line_interpolation_name(i: LineInterpolation) -> Seq<char> {
    match i {
        LineInterpolation::Linear => "linear"@,
        LineInterpolation::Smooth => "smooth"@,
        LineInterpolation::StepBefore => "stepBefore"@,
        LineInterpolation::StepAfter => "stepAfter"@,
    }
}

impl LineInterpolation {
    /// The Grafana interpolation identifier.
    pub fn as_grafana(self) -> (s: &'static str)
        ensures
            s@ == line_interpolation_name(self),
    {
        match self {
            LineInterpolation::Linear => "linear",
            LineInterpolation::Smooth => "smooth",
            LineInterpolation::StepBefore => "stepBefore",
            LineInterpolation::StepAfter => "stepAfter",
        }
    }
}

impl Default for LineInterpolation {
    fn default() -> (i: Self)
        ensures
            i == LineInterpolation::Linear,
    {
        LineInterpolation::Linear
    }
}

/// Point marker visibility for time-series panels.
#[derive(Debug, Clone, Copy, PartialEq, Eq)]
pub enum PointVisibility {
    /// Let Grafana decide based on the data and panel size.
    Auto,
    /// Always show point markers.
    Always,
    /// Never show point markers.
    Never,
}

pub open spec fn point_visibility_name(v: PointVisibility) -> Seq<char> {
    match v {
        PointVisibility::Auto => "auto"@,
        PointVisibility::Always => "always"@,
        PointVisibility::Never => "never"@,
    }
}

impl PointVisibility {
    /// The Grafana point-visibility identifier.
    pub fn as_grafana(self) -> (s: &'static str)
        ensures
            s@ == point_visibility_name(self),
    {
        match self {
            PointVisibility::Auto => "auto",
            PointVisibility::Always => "always",
            PointVisibility::Never => "never",
        }
    }
}

impl Default for PointVisibility {
    fn default() -> (v: Self)
        ensures
            v == PointVisibility::Auto,
    {
        PointVisibility::Auto
    }
}

/// Time-series stacking mode.
#[derive(Debug, Clone, Copy, PartialEq, Eq)]
pub enum StackingMode {
    /// Do not stack series.
    NoStacking,
    /// Stack raw values.
    Normal,
    /// Stack series as percentages.
    Percent,
}

pub open spec fn stacking_mode_name(m: StackingMode) -> Seq<char> {
    match m {
        StackingMode::NoStacking => "none"@,
        StackingMode::Normal => "normal"@,
        StackingMode::Percent => "percent"@,
    }
}

impl StackingMode {
    /// The Grafana stacking identifier.
    pub fn as_grafana(self) -> (s: &'static str)
        ensures
            s@ == stacking_mode_name(self),
    {
        match self {
            StackingMode::NoStacking => "none",
            StackingMode::Normal => "normal",
            StackingMode::Percent => "percent",
        }
    }
}

impl Default for StackingMode {
    fn default() -> (m: Self)
        ensures
            m == StackingMode::NoStacking,
    {
        StackingMode::NoStacking
    }
}

/// Stacking configuration for compatible visualizations.
#[derive(Debug, PartialEq, Eq)]
pub struct Stacking {
    pub mode: StackingMode,
    pub group: String,
}

impl Stacking {
    /// Creates stacking in Grafana's default group `A`.
    pub fn new(mode: StackingMode) -> (s: Self)
        ensures
            s.mode == mode,
            s.group@ == "A"@,
    {
        Stacking { mode, group: "A".to_string() }
    }

    /// Sets the stacking group shared by related series.
    pub fn group(self, group: &str) -> (s: Self)
        ensures
            s.mode == self.mode,
            s.group@ == group@,
    {
        Stacking { mode: self.mode, group: group.to_string() }
    }

    pub fn copy(&self) -> (s: Self)
        ensures
            s == *self,
    {
        Stacking { mode: self.mode, group: self.group.clone() }
    }
}

/// Tooltip display mode.
#[derive(Debug, Clone, Copy, PartialEq, Eq)]
pub enum TooltipMode {
    /// Show the hovered series.
    Single,
    /// Show every series at the hovered timestamp.
    Multi,
    /// Hide the tooltip.
    NoTooltip,
}

pub open spec fn tooltip_mode_name(m: TooltipMode) -> Seq<char> {
    match m {
        TooltipMode::Single => "single"@,
        TooltipMode::Multi => "multi"@,
        TooltipMode::NoTooltip => "none"@,
    }
}

impl TooltipMode {
    /// The Grafana tooltip-mode identifier.
    pub fn as_grafana(self) -> (s: &'static str)
        ensures
            s@ == tooltip_mode_name(self),
    {
        match self {
            TooltipMode::Single => "single",
            TooltipMode::Multi => "multi",
            TooltipMode::NoTooltip => "none",
        }
    }
}

impl Default for TooltipMode {
    fn default() -> (m: Self)
        ensures
            m == TooltipMode::Single,
    {
        TooltipMode::Single
    }
}

/// Ordering of series inside a visualization tooltip.
#[derive(Debug, Clone, Copy, PartialEq, Eq)]
pub enum TooltipSort {
    /// Keep Grafana's natural order.
    NoSort,
    /// Sort values from smallest to largest.
    Ascending,
    /// Sort values from largest to smallest.
    Descending,
}

pub open spec fn tooltip_sort_name(s: TooltipSort) -> Seq<char> {
    match s {
        TooltipSort::NoSort => "none"@,
        TooltipSort::Ascending => "asc"@,
        TooltipSort::Descending => "desc"@,
    }
}

impl TooltipSort {
    /// The Grafana tooltip-sort identifier.
    pub fn as_grafana(self) -> (s: &'static str)
        ensures
            s@ == tooltip_sort_name(self),
    {
        match self {
            TooltipSort::NoSort => "none",
            TooltipSort::Ascending => "asc",
            TooltipSort::Descending => "desc",
        }
    }
}

impl Default for TooltipSort {
    fn default() -> (s: Self)
        ensures
            s == TooltipSort::NoSort,
    {
        TooltipSort::NoSort
    }
}

/// Typed tooltip configuration for compatible panels.
#[derive(Debug, Clone, Copy, PartialEq, Eq)]
pub struct Tooltip {
    pub mode: TooltipMode,
    pub sort: TooltipSort,
    pub hide_zeros: bool,
}

impl Tooltip {
    /// Creates the default single-series tooltip.
    pub fn new() -> (t: Self)
        ensures
            t == (Tooltip { mode: TooltipMode::Single, sort: TooltipSort::NoSort, hide_zeros: false }),
    {
        Tooltip { mode: TooltipMode::Single, sort: TooltipSort::NoSort, hide_zeros: false }
    }

    /// Sets single-series, multi-series, or hidden rendering.
    pub fn mode(self, mode: TooltipMode) -> (t: Self)
        ensures
            t == (Tooltip { mode, ..self }),
    {
        Tooltip { mode, ..self }
    }

    /// Sets series ordering.
    pub fn sort(self, sort: TooltipSort) -> (t: Self)
        ensures
            t == (Tooltip { sort, ..self }),
    {
        Tooltip { sort, ..self }
    }

    /// Hides series whose value is zero.
    pub fn hide_zeros(self, hide_zeros: bool) -> (t: Self)
        ensures
            t == (Tooltip { hide_zeros, ..self }),
    {
        Tooltip { hide_zeros, ..self }
    }
}

impl Default for Tooltip {
    fn default() -> (t: Self)
        ensures
            t == (Tooltip { mode: TooltipMode::Single, sort: TooltipSort::NoSort, hide_zeros: false }),
    {
        Tooltip::new()
    }
}

/// Reduction applied when a visualization displays one value per field.
#[derive(Debug, PartialEq, Eq)]
pub struct ReduceOptions {
    pub values: bool,
    pub calculations: Vec<Reducer>,
    pub fields: String,
}

impl ReduceOptions {
    /// Creates last-non-null reduction over all fields.
    pub fn new() -> (r: Self)
        ensures
            !r.values,
            r.calculations@ == seq![Reducer::Last],
            r.fields@ == Seq::<char>::empty(),
    {
        let mut calculations: Vec<Reducer> = Vec::new();
        calculations.push(Reducer::Last);
        ReduceOptions { values: false, calculations, fields: String::new() }
    }

    /// Displays every row/value instead of reducing each field.
    pub fn values(self, values: bool) -> (r: Self)
        ensures
            r == (ReduceOptions { values, ..self }),
    {
        ReduceOptions { values, ..self }
    }

    /// Replaces the reduction calculations.
    pub fn calculations(self, calculations: Vec<Reducer>) -> (r: Self)
        ensures
            r.values == self.values,
            r.calculations@ == calculations@,
            r.fields == self.fields,
    {
        ReduceOptions { calculations, ..self }
    }

    /// Selects fields using Grafana's field-filter expression.
    pub fn fields(self, fields: &str) -> (r: Self)
        ensures
            r.values == self.values,
            r.calculations == self.calculations,
            r.fields@ == fields@,
    {
        ReduceOptions { fields: fields.to_string(), ..self }
    }

    pub fn copy(&self) -> (r: Self)
        ensures
            r.values == self.values,
            r.calculations@ == self.calculations@,
            r.fields@ == self.fields@,
    {
        let mut calculations: Vec<Reducer> = Vec::new();
        let mut i: usize = 0;
        while i < self.calculations.len()
            invariant
                i <= self.calculations.len(),
                calculations@ == self.calculations@.take(i as int),
            decreases self.calculations.len() - i,
        {
            calculations.push(self.calculations[i]);
            proof {
                assert(self.calculations@.take(i + 1) =~= self.calculations@.take(i as int).push(
                    self.calculations@[i as int],
                ));
            }
            i += 1;
        }
        proof {
            assert(self.calculations@.take(self.calculations.len() as int) =~= self.calculations@);
        }
        ReduceOptions { values: self.values, calculations, fields: self.fields.clone() }
    }
}

impl Default for ReduceOptions {
    fn default() -> (r: Self)
        ensures
            !r.values,
            r.calculations@ == seq![Reducer::Last],
            r.fields@ == Seq::<char>::empty(),
    {
        ReduceOptions::new()
    }
}

/// Visual fill style for a bar-gauge panel.
#[derive(Debug, Clone, Copy, PartialEq, Eq)]
pub enum BarGaugeDisplayMode {
    /// Solid basic bar.
    Basic,
    /// Gradient bar.
    Gradient,
    /// Segmented LCD-style bar.
    Lcd,
}

pub open spec fn bar_gauge_display_mode_name(m: BarGaugeDisplayMode) -> Seq<char> {
    match m {
        BarGaugeDisplayMode::Basic => "basic"@,
        BarGaugeDisplayMode::Gradient => "gradient"@,
        BarGaugeDisplayMode::Lcd => "lcd"@,
    }
}

impl BarGaugeDisplayMode {
    /// The Grafana display-mode identifier.
    pub fn as_grafana(self) -> (s: &'static str)
        ensures
            s@ == bar_gauge_display_mode_name(self),
    {
        match self {
            BarGaugeDisplayMode::Basic => "basic",
            BarGaugeDisplayMode::Gradient => "gradient",
            BarGaugeDisplayMode::Lcd => "lcd",
        }
    }
}

impl Default for BarGaugeDisplayMode {
    fn default() -> (m: Self)
        ensures
            m == BarGaugeDisplayMode::Gradient,
    {
        BarGaugeDisplayMode::Gradient
    }
}

/// Sort direction for table columns and sort transformations.
#[derive(Debug, Clone, Copy, PartialEq, Eq)]
pub enum SortDirection {
    /// Smallest value first.
    Ascending,
    /// Largest value first.
    Descending,
}

impl SortDirection {
    /// Whether this direction sorts largest first.
    pub fn is_descending(self) -> (b: bool)
        ensures
            b == (self == SortDirection::Descending),
    {
        match self {
            SortDirection::Ascending => false,
            SortDirection::Descending => true,
        }
    }
}

/// Placement of a heatmap axis.
#[derive(Debug, Clone, Copy, PartialEq, Eq)]
pub enum AxisPlacement {
    /// Let Grafana choose.
    Auto,
    /// Below the plot.
    Bottom,
    /// Hidden axis.
    Hidden,
    /// Left of the plot.
    Left,
    /// Right of the plot.
    Right,
    /// Above the plot.
    Top,
}

pub open spec fn axis_placement_name(p: AxisPlacement) -> Seq<char> {
    match p {
        AxisPlacement::Auto => "auto"@,
        AxisPlacement::Bottom => "bottom"@,
        AxisPlacement::Hidden => "hidden"@,
        AxisPlacement::Left => "left"@,
        AxisPlacement::Right => "right"@,
        AxisPlacement::Top => "top"@,
    }
}

impl AxisPlacement {
    /// The Grafana axis-placement identifier.
    pub fn as_grafana(self) -> (s: &'static str)
        ensures
            s@ == axis_placement_name(self),
    {
        match self {
            AxisPlacement::Auto => "auto",
            AxisPlacement::Bottom => "bottom",
            AxisPlacement::Hidden => "hidden",
            AxisPlacement::Left => "left",
            AxisPlacement::Right => "right",
            AxisPlacement::Top => "top",
        }
    }
}

/// Typed stat panel options; unset options keep the kind defaults.
pub struct StatOptions {
    pub color_mode: Option<StatColorMode>,
    pub graph_mode: Option<StatGraphMode>,
    pub orientation: Option<Orientation>,
    pub wide_layout: Option<bool>,
    pub reduce: Option<ReduceOptions>,
}

impl StatOptions {
    pub open spec fn empty() -> StatOptions {
        StatOptions {
            color_mode: None,
            graph_mode: None,
            orientation: None,
            wide_layout: None,
            reduce: None,
        }
    }

    pub fn new() -> (o: StatOptions)
        ensures
            o == StatOptions::empty(),
    {
        StatOptions {
            color_mode: None,
            graph_mode: None,
            orientation: None,
            wide_layout: None,
            reduce: None,
        }
    }
}

/// Typed gauge panel options.
pub struct GaugeOptions {
    pub orientation: Option<Orientation>,
    pub reduce: Option<ReduceOptions>,
}

impl GaugeOptions {
    pub open spec fn empty() -> GaugeOptions {
        GaugeOptions { orientation: None, reduce: None }
    }

    pub fn new() -> (o: GaugeOptions)
        ensures
            o == GaugeOptions::empty(),
    {
        GaugeOptions { orientation: None, reduce: None }
    }
}

/// Typed bar-gauge panel options.
pub struct BarGaugeOptions {
    pub display_mode: Option<BarGaugeDisplayMode>,
    pub orientation: Option<Orientation>,
    pub reduce: Option<ReduceOptions>,
}

impl BarGaugeOptions {
    pub open spec fn empty() -> BarGaugeOptions {
        BarGaugeOptions { display_mode: None, orientation: None, reduce: None }
    }

    pub fn new() -> (o: BarGaugeOptions)
        ensures
            o == BarGaugeOptions::empty(),
    {
        BarGaugeOptions { display_mode: None, orientation: None, reduce: None }
    }
}

/// Typed time-series panel options.
pub struct TimeseriesOptions {
    pub fill_opacity: Option<Float>,
    pub line_width: Option<Float>,
    pub point_size: Option<Float>,
    pub line_interpolation: Option<LineInterpolation>,
    pub show_points: Option<PointVisibility>,
    pub span_nulls: Option<bool>,
    pub stacking: Option<Stacking>,
    pub tooltip: Option<Tooltip>,
    pub legend: Option<Legend>,
}

impl TimeseriesOptions {
    pub open spec fn empty() -> TimeseriesOptions {
        TimeseriesOptions {
            fill_opacity: None,
            line_width: None,
            point_size: None,
            line_interpolation: None,
            show_points: None,
            span_nulls: None,
            stacking: None,
            tooltip: None,
            legend: None,
        }
    }

    pub fn new() -> (o: TimeseriesOptions)
        ensures
            o == TimeseriesOptions::empty(),
    {
        TimeseriesOptions {
            fill_opacity: None,
            line_width: None,
            point_size: None,
            line_interpolation: None,
            show_points: None,
            span_nulls: None,
            stacking: None,
            tooltip: None,
            legend: None,
        }
    }
}

} // verus!
