//! Table cell renderers and table panel options.
use vstd::prelude::*;

use crate::float::Float;
use crate::visualization::{BarGaugeDisplayMode, SortDirection};

verus! {

/// A Grafana table cell rendering mode.
#[derive(Debug, Clone, Copy, PartialEq, Eq)]
#[non_exhaustive]
pub enum TableCellType {
    /// Let Grafana choose a renderer from the field type.
    Auto,
    /// Color the text using the field color or thresholds.
    ColoredText,
    /// Color the cell background using the field color or thresholds.
    ColoredBackground,
    /// Render an inline bar gauge.
    Gauge,
    /// Render an inline sparkline from a trend field.
    Sparkline,
}

impl Default for TableCellType {
    fn default() -> (t: Self)
        ensures
            t == TableCellType::Auto,
    {
        TableCellType::Auto
    }
}

/// Background fill style for a colored-background cell.
#[derive(Debug, Clone, Copy, PartialEq, Eq)]
pub enum CellBackgroundMode {
    /// Solid fill.
    Basic,
    /// Gradient fill.
    Gradient,
}

impl Default for CellBackgroundMode {
    fn default() -> (m: Self)
        ensures
            m == CellBackgroundMode::Basic,
    {
        CellBackgroundMode::Basic
    }
}

/// How an inline gauge cell renders its numeric value.
#[derive(Debug, Clone, Copy, PartialEq, Eq)]
pub enum CellValueDisplay {
    /// Plain text value.
    Text,
    /// Value colored by the field color.
    Color,
    /// No value, gauge only.
    Hidden,
}

impl Default for CellValueDisplay {
    fn default() -> (d: Self)
        ensures
            d == CellValueDisplay::Text,
    {
        CellValueDisplay::Text
    }
}

/// Options for a colored-background table cell.
#[derive(Debug, Clone, Copy, PartialEq, Eq)]
pub struct ColoredBackgroundCell {
    pub mode: Option<CellBackgroundMode>,
    pub apply_to_row: Option<bool>,
    pub wrap_text: Option<bool>,
}

impl ColoredBackgroundCell {
    /// Creates a colored-background cell using Grafana's defaults.
    pub fn new() -> (c: Self)
        ensures
            c == (ColoredBackgroundCell { mode: None, apply_to_row: None, wrap_text: None }),
    {
        ColoredBackgroundCell { mode: None, apply_to_row: None, wrap_text: None }
    }

    /// Sets solid or gradient fill.
    pub fn mode(self, mode: CellBackgroundMode) -> (c: Self)
        ensures
            c == (ColoredBackgroundCell { mode: Some(mode), ..self }),
    {
        ColoredBackgroundCell { mode: Some(mode), ..self }
    }

    /// Applies the cell background color to the entire row.
    pub fn apply_to_row(self, apply_to_row: bool) -> (c: Self)
        ensures
            c == (ColoredBackgroundCell { apply_to_row: Some(apply_to_row), ..self }),
    {
        ColoredBackgroundCell { apply_to_row: Some(apply_to_row), ..self }
    }

    /// Wraps long text inside the cell.
    pub fn wrap_text(self, wrap_text: bool) -> (c: Self)
        ensures
            c == (ColoredBackgroundCell { wrap_text: Some(wrap_text), ..self }),
    {
        ColoredBackgroundCell { wrap_text: Some(wrap_text), ..self }
    }
}

/// Options for an inline bar gauge table cell.
#[derive(Debug, Clone, Copy, PartialEq, Eq)]
pub struct GaugeCell {
    pub mode: Option<BarGaugeDisplayMode>,
    pub value_display: Option<CellValueDisplay>,
}

impl GaugeCell {
    /// Creates an inline gauge cell using Grafana's defaults.
    pub fn new() -> (c: Self)
        ensures
            c == (GaugeCell { mode: None, value_display: None }),
    {
        GaugeCell { mode: None, value_display: None }
    }

    /// Sets the bar's visual fill style.
    pub fn mode(self, mode: BarGaugeDisplayMode) -> (c: Self)
        ensures
            c == (GaugeCell { mode: Some(mode), ..self }),
    {
        GaugeCell { mode: Some(mode), ..self }
    }

    /// Sets how the numeric value renders alongside the bar.
    pub fn value_display(self, value_display: CellValueDisplay) -> (c: Self)
        ensures
            c == (GaugeCell { value_display: Some(value_display), ..self }),
    {
        GaugeCell { value_display: Some(value_display), ..self }
    }
}

/// Options for an inline sparkline table cell.
#[derive(Debug, Clone, Copy, PartialEq)]
pub struct SparklineCell {
    pub hide_value: Option<bool>,
    pub line_width: Option<Float>,
    pub fill_opacity: Option<Float>,
}

impl SparklineCell {
    /// Creates an inline sparkline cell using Grafana's defaults.
    pub fn new() -> (c: Self)
        ensures
            c == (SparklineCell { hide_value: None, line_width: None, fill_opacity: None }),
    {
        SparklineCell { hide_value: None, line_width: None, fill_opacity: None }
    }

    /// Hides the numeric value beside the sparkline.
    pub fn hide_value(self, hide_value: bool) -> (c: Self)
        ensures
            c == (SparklineCell { hide_value: Some(hide_value), ..self }),
    {
        SparklineCell { hide_value: Some(hide_value), ..self }
    }

    /// Sets the sparkline stroke width in pixels.
    pub fn line_width(self, line_width: Float) -> (c: Self)
        ensures
            c == (SparklineCell { line_width: Some(line_width), ..self }),
    {
        SparklineCell { line_width: Some(line_width), ..self }
    }

    /// Sets the sparkline area fill opacity from 0 to 100.
    pub fn fill_opacity(self, fill_opacity: Float) -> (c: Self)
        ensures
            c == (SparklineCell { fill_opacity: Some(fill_opacity), ..self }),
    {
        SparklineCell { fill_opacity: Some(fill_opacity), ..self }
    }
}

/// A typed Grafana table cell configuration.
#[derive(Debug, Clone, Copy, PartialEq)]
#[non_exhaustive]
pub enum TableCell {
    /// Automatic renderer.
    Auto,
    /// Colored text.
    ColoredText,
    /// Colored background with options.
    ColoredBackground(ColoredBackgroundCell),
    /// Inline gauge with options.
    Gauge(GaugeCell),
    /// Inline sparkline with options.
    Sparkline(SparklineCell),
}

impl Default for TableCell {
    fn default() -> (c: Self)
        ensures
            c == TableCell::Auto,
    {
        TableCell::Auto
    }
}

/// A value that names a table cell renderer.
pub trait IntoTableCell: Sized {
    spec fn spec_cell(self) -> TableCell;

    fn into_cell(self) -> (c: TableCell)
        ensures
            c == self.spec_cell(),
    ;
}

impl IntoTableCell for TableCell {
    open spec fn spec_cell(self) -> TableCell {
        self
    }

    fn into_cell(self) -> (c: TableCell) {
        self
    }
}

impl IntoTableCell for TableCellType {
    /// A cell type stands for that renderer with its default options.
    open spec fn spec_cell(self) -> TableCell {
        match self {
            TableCellType::Auto => TableCell::Auto,
            TableCellType::ColoredText => TableCell::ColoredText,
            TableCellType::ColoredBackground => TableCell::ColoredBackground(
                ColoredBackgroundCell { mode: None, apply_to_row: None, wrap_text: None },
            ),
            TableCellType::Gauge => TableCell::Gauge(GaugeCell { mode: None, value_display: None }),
            TableCellType::Sparkline => TableCell::Sparkline(
                SparklineCell { hide_value: None, line_width: None, fill_opacity: None },
            ),
        }
    }

    fn into_cell(self) -> (c: TableCell) {
        match self {
            TableCellType::Auto => TableCell::Auto,
            TableCellType::ColoredText => TableCell::ColoredText,
            TableCellType::ColoredBackground => TableCell::ColoredBackground(
                ColoredBackgroundCell::new(),
            ),
            TableCellType::Gauge => TableCell::Gauge(GaugeCell::new()),
            TableCellType::Sparkline => TableCell::Sparkline(SparklineCell::new()),
        }
    }
}

impl IntoTableCell for ColoredBackgroundCell {
    open spec fn spec_cell(self) -> TableCell {
        TableCell::ColoredBackground(self)
    }

    fn into_cell(self) -> (c: TableCell) {
        TableCell::ColoredBackground(self)
    }
}

impl IntoTableCell for GaugeCell {
    open spec fn spec_cell(self) -> TableCell {
        TableCell::Gauge(self)
    }

    fn into_cell(self) -> (c: TableCell) {
        TableCell::Gauge(self)
    }
}

impl IntoTableCell for SparklineCell {
    open spec fn spec_cell(self) -> TableCell {
        TableCell::Sparkline(self)
    }

    fn into_cell(self) -> (c: TableCell) {
        TableCell::Sparkline(self)
    }
}

/// One field in a table panel's initial sort order, keyed on the field's
/// display name.
#[derive(Debug, PartialEq, Eq)]
pub struct TableSort {
    pub field: String,
    pub descending: bool,
}

impl TableSort {
    /// Sorts a table column in the given direction.
    pub fn new(field: &str, direction: SortDirection) -> (s: Self)
        ensures
            s.field@ == field@,
            s.descending == (direction == SortDirection::Descending),
    {
        TableSort { field: field.to_string(), descending: direction.is_descending() }
    }
}

/// Typed authoring state for the Grafana table panel.
pub struct TableOptions {
    pub sort_by: Vec<TableSort>,
    pub cell: Option<TableCell>,
}

impl TableOptions {
    pub open spec fn is_empty(self) -> bool {
        self.sort_by@.len() == 0 && self.cell is None
    }

    pub fn new() -> (o: TableOptions)
        ensures
            o.is_empty(),
    {
        TableOptions { sort_by: Vec::new(), cell: None }
    }
}

} // verus!
