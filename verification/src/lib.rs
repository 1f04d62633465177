//! Concise, strongly typed Grafana dashboards.
//!
//! Dashboards are authored with builders, validated, laid out on Grafana's
//! 24-column grid with deterministic panel IDs and query reference IDs, and
//! lowered into the Grafana Classic dashboard JSON model.
use vstd::prelude::*;

pub mod field;
pub mod float;
pub mod dashboard;
pub mod datasource;
pub mod grafana;
pub mod heatmap;
pub mod prelude;
pub mod json;
pub mod keyed;
pub mod panel;
pub mod query;
pub mod table;
pub mod text;
pub mod transformation;
pub mod validation;
pub mod variable;
pub mod visualization;

pub use dashboard::{Dashboard, DashboardCursorSync, DashboardItem, DashboardLink, Row, TimeRange};
pub use datasource::{loki, prometheus, DataSource};
pub use field::{
    Color, ColorScheme, FieldConfig, FieldOverride, Legend, LegendMode, LegendPlacement,
    OverrideMatcher, OverrideProperty, ThresholdMode, ThresholdStep, Thresholds, Unit,
    ValueMapping,
};
pub use float::Float;
pub use heatmap::{HeatmapColorMode, HeatmapColorScheme};
pub use json::Json;
pub use panel::{
    BarGauge, Gauge, GridPos, Heatmap, Panel, PanelBuilder, PanelKind, PanelKindTag, RawPanel,
    Stat, Table, Text, TextMode, Timeseries,
};
pub use query::{
    LokiQuery, PrometheusFormat, PrometheusQuery, Query, QueryEditorMode, QueryOptions, RawQuery,
};
pub use table::{
    CellBackgroundMode, CellValueDisplay, ColoredBackgroundCell, GaugeCell, SparklineCell,
    TableCell, TableCellType,
};
pub use transformation::{
    JoinByField, JoinMode, LabelsToFields, LabelsToFieldsMode, OrganizeFields, RawTransformation,
    SortBy, TimeSeriesToTable, Transformation, TransformationFilter,
};
pub use validation::{ValidationError, ValidationErrors};
pub use variable::{
    ConstantVariable, CustomVariable, DataSourceVariable, QueryVariable, Variable, VariableBuilder,
    VariableRefresh, VariableSelection, VariableSort,
};
pub use visualization::{
    AxisPlacement, BarGaugeDisplayMode, LineInterpolation, Orientation, PointVisibility,
    ReduceOptions, Reducer, SortDirection, Stacking, StackingMode, StatColorMode, StatGraphMode,
    Tooltip, TooltipMode, TooltipSort,
};

verus! {
} // verus!
