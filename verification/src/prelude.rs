//! Common dashboard-authoring types, builders and helpers.
pub use crate::{
    loki, prometheus, AxisPlacement, BarGauge, BarGaugeDisplayMode, CellBackgroundMode,
    CellValueDisplay, Color, ColorScheme, ColoredBackgroundCell, ConstantVariable,
    CustomVariable, Dashboard, DashboardCursorSync, DashboardLink, DataSource,
    DataSourceVariable, FieldConfig, FieldOverride, Float, Gauge, GaugeCell, GridPos, Heatmap,
    HeatmapColorMode, HeatmapColorScheme, JoinByField, JoinMode, LabelsToFields,
    LabelsToFieldsMode, Legend, LegendMode, LegendPlacement, LineInterpolation, LokiQuery,
    OrganizeFields, Orientation, OverrideMatcher, OverrideProperty, Panel, PanelKind,
    PointVisibility, PrometheusFormat, PrometheusQuery, Query, QueryEditorMode, QueryVariable,
    RawPanel, RawQuery, RawTransformation, ReduceOptions, Reducer, Row, SortBy, SortDirection,
    SparklineCell, Stacking, StackingMode, Stat, StatColorMode, StatGraphMode, Table,
    TableCell, TableCellType, Text, TextMode, ThresholdMode, Thresholds, TimeRange,
    TimeSeriesToTable, Timeseries, Tooltip, TooltipMode, TooltipSort, Transformation,
    TransformationFilter, Unit, ValueMapping, Variable, VariableRefresh, VariableSelection,
    VariableSort,
};
