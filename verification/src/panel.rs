//! Panels, typed panel builders, and the raw-panel escape hatch.
use vstd::prelude::*;

use core::marker::PhantomData;

use crate::dashboard::DashboardLink;
use crate::datasource::DataSource;
use crate::field::{ColorScheme, FieldConfig, FieldOverride, Legend, Thresholds, Unit, ValueMapping};
use crate::float::Float;
use crate::heatmap::{HeatmapColorMode, HeatmapColorScheme, HeatmapOptions, IntoHeatmapColorScheme};
use crate::json::{raw_insert, raw_map, JsonV};
use crate::query::{IntoQuery, Query, QueryOptions};
use crate::table::{IntoTableCell, TableCell, TableOptions, TableSort};
use crate::transformation::{IntoTransformation, Transformation};
use crate::visualization::{
    AxisPlacement, BarGaugeDisplayMode, BarGaugeOptions, GaugeOptions, LineInterpolation,
    Orientation, PointVisibility, ReduceOptions, SortDirection, Stacking, StatColorMode,
    StatGraphMode, StatOptions, TimeseriesOptions, Tooltip,
};

verus! {

/// An explicit position in Grafana's 24-column dashboard grid.
#[derive(Debug, Clone, Copy, PartialEq, Eq)]
pub struct GridPos {
    /// Horizontal offset, between 0 and 23.
    pub x: u16,
    /// Vertical offset in 30-pixel grid units.
    pub y: u16,
    /// Width, between 1 and 24.
    pub width: u16,
    /// Height in 30-pixel grid units.
    pub height: u16,
}

impl GridPos {
    /// Creates an explicit Grafana grid position.
    pub fn new(x: u16, y: u16, width: u16, height: u16) -> (g: Self)
        ensures
            g == (GridPos { x, y, width, height }),
    {
        GridPos { x, y, width, height }
    }
}

/// Supported panel visualizations plus a plugin escape hatch.
#[derive(Debug, PartialEq, Eq)]
#[non_exhaustive]
pub enum PanelKind {
    /// Grafana time series panel.
    Timeseries,
    /// Grafana stat panel.
    Stat,
    /// Grafana gauge panel.
    Gauge,
    /// Grafana table panel.
    Table,
    /// Grafana text panel.
    Text,
    /// Grafana bar gauge panel.
    BarGauge,
    /// Grafana heatmap panel.
    Heatmap,
    /// A panel plugin ID not modeled by the library.
    Raw(String),
}

pub open spec fn plugin_id(kind: PanelKind) -> Seq<char> {
    match kind {
        PanelKind::Timeseries => "timeseries"@,
        PanelKind::Stat => "stat"@,
        PanelKind::Gauge => "gauge"@,
        PanelKind::Table => "table"@,
        PanelKind::Text => "text"@,
        PanelKind::BarGauge => "bargauge"@,
        PanelKind::Heatmap => "heatmap"@,
        PanelKind::Raw(id) => id@,
    }
}

impl PanelKind {
    /// The Grafana panel plugin ID.
    pub fn plugin_id(&self) -> (s: &str)
        ensures
            s@ == plugin_id(*self),
    {
        match self {
            PanelKind::Timeseries => "timeseries",
            PanelKind::Stat => "stat",
            PanelKind::Gauge => "gauge",
            PanelKind::Table => "table",
            PanelKind::Text => "text",
            PanelKind::BarGauge => "bargauge",
            PanelKind::Heatmap => "heatmap",
            PanelKind::Raw(id) => id.as_str(),
        }
    }
}

/// Markdown, HTML, or code mode for a text panel.
#[derive(Debug, Clone, Copy, PartialEq, Eq)]
pub enum TextMode {
    /// Render Markdown.
    Markdown,
    /// Render sanitized HTML according to Grafana configuration.
    Html,
    /// Render plain code/text.
    Code,
}

pub open spec fn text_mode_name(mode: TextMode) -> Seq<char> {
    match mode {
        TextMode::Markdown => "markdown"@,
        TextMode::Html => "html"@,
        TextMode::Code => "code"@,
    }
}

impl TextMode {
    /// The Grafana text-mode identifier.
    pub fn as_grafana(self) -> (s: &'static str)
        ensures
            s@ == text_mode_name(self),
    {
        match self {
            TextMode::Markdown => "markdown",
            TextMode::Html => "html",
            TextMode::Code => "code",
        }
    }
}

impl Default for TextMode {
    fn default() -> (m: Self)
        ensures
            m == TextMode::Markdown,
    {
        TextMode::Markdown
    }
}

/// Typed, visualization-specific panel options.
pub enum PanelOptions {
    /// A visualization with no typed option surface, or none set.
    Untyped,
    Stat(StatOptions),
    Gauge(GaugeOptions),
    Timeseries(TimeseriesOptions),
    BarGauge(BarGaugeOptions),
    Table(TableOptions),
    Heatmap(HeatmapOptions),
}

/// The stat options held so far, or none set.
pub open spec fn stat_of(o: PanelOptions) -> StatOptions {
    match o {
        PanelOptions::Stat(s) => s,
        _ => StatOptions::empty(),
    }
}

pub open spec fn gauge_of(o: PanelOptions) -> GaugeOptions {
    match o {
        PanelOptions::Gauge(s) => s,
        _ => GaugeOptions::empty(),
    }
}

pub open spec fn timeseries_of(o: PanelOptions) -> TimeseriesOptions {
    match o {
        PanelOptions::Timeseries(s) => s,
        _ => TimeseriesOptions::empty(),
    }
}

pub open spec fn bar_gauge_of(o: PanelOptions) -> BarGaugeOptions {
    match o {
        PanelOptions::BarGauge(s) => s,
        _ => BarGaugeOptions::empty(),
    }
}

pub open spec fn heatmap_of(o: PanelOptions) -> HeatmapOptions {
    match o {
        PanelOptions::Heatmap(s) => s,
        _ => HeatmapOptions::empty(),
    }
}

/// Whether `t` holds the table options held so far (none when the options
/// are of another kind).
pub open spec fn is_table_of(o: PanelOptions, t: TableOptions) -> bool {
    match o {
        PanelOptions::Table(s) => t == s,
        _ => t.is_empty(),
    }
}

fn take_stat(o: PanelOptions) -> (s: StatOptions)
    ensures
        s == stat_of(o),
{
    match o {
        PanelOptions::Stat(s) => s,
        _ => StatOptions::new(),
    }
}

fn take_gauge(o: PanelOptions) -> (s: GaugeOptions)
    ensures
        s == gauge_of(o),
{
    match o {
        PanelOptions::Gauge(s) => s,
        _ => GaugeOptions::new(),
    }
}

fn take_timeseries(o: PanelOptions) -> (s: TimeseriesOptions)
    ensures
        s == timeseries_of(o),
{
    match o {
        PanelOptions::Timeseries(s) => s,
        _ => TimeseriesOptions::new(),
    }
}

fn take_bar_gauge(o: PanelOptions) -> (s: BarGaugeOptions)
    ensures
        s == bar_gauge_of(o),
{
    match o {
        PanelOptions::BarGauge(s) => s,
        _ => BarGaugeOptions::new(),
    }
}

fn take_heatmap(o: PanelOptions) -> (s: HeatmapOptions)
    ensures
        s == heatmap_of(o),
{
    match o {
        PanelOptions::Heatmap(s) => s,
        _ => HeatmapOptions::new(),
    }
}

fn take_table(o: PanelOptions) -> (t: TableOptions)
    ensures
        is_table_of(o, t),
{
    match o {
        PanelOptions::Table(s) => s,
        _ => TableOptions::new(),
    }
}

/// The semantic panel model produced by typed builders.
pub struct Panel {
    pub kind: PanelKind,
    pub title: String,
    pub description: Option<String>,
    pub id: Option<u32>,
    pub width: u16,
    pub height: u16,
    pub grid_pos: Option<GridPos>,
    pub datasource: Option<DataSource>,
    pub queries: Vec<Query>,
    pub transformations: Vec<Transformation>,
    pub field_config: FieldConfig,
    pub text: Option<(TextMode, String)>,
    pub links: Vec<DashboardLink>,
    pub transparent: bool,
    pub kind_options: PanelOptions,
    pub raw_options: Vec<(String, serde_json::Value)>,
    pub extra: Vec<(String, serde_json::Value)>,
}

impl Panel {
    /// Whether `p` is a fresh panel of this kind, title, and size.
    pub open spec fn is_fresh(p: Panel, kind: PanelKind, title: Seq<char>, width: u16, height: u16) -> bool {
        &&& p.kind == kind
        &&& p.title@ == title
        &&& p.description is None
        &&& p.id is None
        &&& p.width == width
        &&& p.height == height
        &&& p.grid_pos is None
        &&& p.datasource is None
        &&& p.queries@.len() == 0
        &&& p.transformations@.len() == 0
        &&& p.field_config.is_empty()
        &&& p.text is None
        &&& p.links@.len() == 0
        &&& !p.transparent
        &&& p.kind_options is Untyped
        &&& p.raw_options@.len() == 0
        &&& p.extra@.len() == 0
    }

    fn new(kind: PanelKind, title: &str, width: u16, height: u16) -> (p: Self)
        ensures
            Panel::is_fresh(p, kind, title@, width, height),
    {
        Panel {
            kind,
            title: title.to_string(),
            description: None,
            id: None,
            width,
            height,
            grid_pos: None,
            datasource: None,
            queries: Vec::new(),
            transformations: Vec::new(),
            field_config: FieldConfig::new(),
            text: None,
            links: Vec::new(),
            transparent: false,
            kind_options: PanelOptions::Untyped,
            raw_options: Vec::new(),
            extra: Vec::new(),
        }
    }

    /// Returns the panel title.
    pub fn title(&self) -> (t: &str)
        ensures
            t@ == self.title@,
    {
        self.title.as_str()
    }

    /// Returns the authored panel kind.
    pub fn kind(&self) -> (k: &PanelKind)
        ensures
            *k == self.kind,
    {
        &self.kind
    }
}

/// Copyable counterpart of [`PanelKind`] for the built-in kinds.
#[derive(Debug, Clone, Copy, PartialEq, Eq)]
pub enum PanelKindTag {
    Timeseries,
    Stat,
    Gauge,
    Table,
    Text,
    BarGauge,
    Heatmap,
}

/// The panel kind a tag names.
pub open spec fn tag_kind(tag: PanelKindTag) -> PanelKind {
    match tag {
        PanelKindTag::Timeseries => PanelKind::Timeseries,
        PanelKindTag::Stat => PanelKind::Stat,
        PanelKindTag::Gauge => PanelKind::Gauge,
        PanelKindTag::Table => PanelKind::Table,
        PanelKindTag::Text => PanelKind::Text,
        PanelKindTag::BarGauge => PanelKind::BarGauge,
        PanelKindTag::Heatmap => PanelKind::Heatmap,
    }
}

impl From<PanelKindTag> for PanelKind {
    fn from(tag: PanelKindTag) -> (k: PanelKind) {
        match tag {
            PanelKindTag::Timeseries => PanelKind::Timeseries,
            PanelKindTag::Stat => PanelKind::Stat,
            PanelKindTag::Gauge => PanelKind::Gauge,
            PanelKindTag::Table => PanelKind::Table,
            PanelKindTag::Text => PanelKind::Text,
            PanelKindTag::BarGauge => PanelKind::BarGauge,
            PanelKindTag::Heatmap => PanelKind::Heatmap,
        }
    }
}

impl vstd::std_specs::convert::FromSpecImpl<PanelKindTag> for PanelKind {
    open spec fn obeys_from_spec() -> bool {
        true
    }

    open spec fn from_spec(tag: PanelKindTag) -> PanelKind {
        tag_kind(tag)
    }
}

/// A panel type known statically to a typed builder: its kind and default
/// size.
pub trait PanelType {
    spec fn spec_kind() -> PanelKind;

    spec fn spec_width() -> u16;

    spec fn spec_height() -> u16;

    fn kind() -> (k: PanelKind)
        ensures
            k == Self::spec_kind(),
    ;

    fn width() -> (w: u16)
        ensures
            w == Self::spec_width(),
    ;

    fn height() -> (h: u16)
        ensures
            h == Self::spec_height(),
    ;
}

/// A typed time series panel builder.
#[derive(Debug, Clone, Copy)]
pub struct TimeseriesKind;

impl PanelType for TimeseriesKind {
    open spec fn spec_kind() -> PanelKind {
        PanelKind::Timeseries
    }

    open spec fn spec_width() -> u16 {
        12
    }

    open spec fn spec_height() -> u16 {
        8
    }

    fn kind() -> (k: PanelKind) {
        PanelKind::Timeseries
    }

    fn width() -> (w: u16) {
        12
    }

    fn height() -> (h: u16) {
        8
    }
}

/// A typed time series panel builder.
pub type Timeseries = PanelBuilder<TimeseriesKind>;

/// A typed stat panel builder.
#[derive(Debug, Clone, Copy)]
pub struct StatKind;

impl PanelType for StatKind {
    open spec fn spec_kind() -> PanelKind {
        PanelKind::Stat
    }

    open spec fn spec_width() -> u16 {
        6
    }

    open spec fn spec_height() -> u16 {
        6
    }

    fn kind() -> (k: PanelKind) {
        PanelKind::Stat
    }

    fn width() -> (w: u16) {
        6
    }

    fn height() -> (h: u16) {
        6
    }
}

/// A typed stat panel builder.
pub type Stat = PanelBuilder<StatKind>;

/// A typed gauge panel builder.
#[derive(Debug, Clone, Copy)]
pub struct GaugeKind;

impl PanelType for GaugeKind {
    open spec fn spec_kind() -> PanelKind {
        PanelKind::Gauge
    }

    open spec fn spec_width() -> u16 {
        6
    }

    open spec fn spec_height() -> u16 {
        8
    }

    fn kind() -> (k: PanelKind) {
        PanelKind::Gauge
    }

    fn width() -> (w: u16) {
        6
    }

    fn height() -> (h: u16) {
        8
    }
}

/// A typed gauge panel builder.
pub type Gauge = PanelBuilder<GaugeKind>;

/// A typed table panel builder.
#[derive(Debug, Clone, Copy)]
pub struct TableKind;

impl PanelType for TableKind {
    open spec fn spec_kind() -> PanelKind {
        PanelKind::Table
    }

    open spec fn spec_width() -> u16 {
        12
    }

    open spec fn spec_height() -> u16 {
        8
    }

    fn kind() -> (k: PanelKind) {
        PanelKind::Table
    }

    fn width() -> (w: u16) {
        12
    }

    fn height() -> (h: u16) {
        8
    }
}

/// A typed table panel builder.
pub type Table = PanelBuilder<TableKind>;

/// A typed text panel builder.
#[derive(Debug, Clone, Copy)]
pub struct TextKind;

impl PanelType for TextKind {
    open spec fn spec_kind() -> PanelKind {
        PanelKind::Text
    }

    open spec fn spec_width() -> u16 {
        24
    }

    open spec fn spec_height() -> u16 {
        6
    }

    fn kind() -> (k: PanelKind) {
        PanelKind::Text
    }

    fn width() -> (w: u16) {
        24
    }

    fn height() -> (h: u16) {
        6
    }
}

/// A typed text panel builder.
pub type Text = PanelBuilder<TextKind>;

/// A typed bar gauge panel builder.
#[derive(Debug, Clone, Copy)]
pub struct BarGaugeKind;

impl PanelType for BarGaugeKind {
    open spec fn spec_kind() -> PanelKind {
        PanelKind::BarGauge
    }

    open spec fn spec_width() -> u16 {
        12
    }

    open spec fn spec_height() -> u16 {
        8
    }

    fn kind() -> (k: PanelKind) {
        PanelKind::BarGauge
    }

    fn width() -> (w: u16) {
        12
    }

    fn height() -> (h: u16) {
        8
    }
}

/// A typed bar gauge panel builder.
pub type BarGauge = PanelBuilder<BarGaugeKind>;

/// A typed heatmap panel builder.
#[derive(Debug, Clone, Copy)]
pub struct HeatmapKind;

impl PanelType for HeatmapKind {
    open spec fn spec_kind() -> PanelKind {
        PanelKind::Heatmap
    }

    open spec fn spec_width() -> u16 {
        12
    }

    open spec fn spec_height() -> u16 {
        8
    }

    fn kind() -> (k: PanelKind) {
        PanelKind::Heatmap
    }

    fn width() -> (w: u16) {
        12
    }

    fn height() -> (h: u16) {
        8
    }
}

/// A typed heatmap panel builder.
pub type Heatmap = PanelBuilder<HeatmapKind>;

/// A lightweight builder for one statically known panel type.
pub struct PanelBuilder<K: PanelType> {
    pub panel: Panel,
    pub marker: PhantomData<K>,
}

impl<K: PanelType> PanelBuilder<K> {
    /// Creates a panel with type-specific default dimensions.
    pub fn new(title: &str) -> (b: Self)
        ensures
            Panel::is_fresh(b.panel, K::spec_kind(), title@, K::spec_width(), K::spec_height()),
    {
        PanelBuilder { panel: Panel::new(K::kind(), title, K::width(), K::height()), marker: PhantomData }
    }

    /// Adds a datasource query.
    pub fn query<Q: IntoQuery>(self, query: Q) -> (b: Self)
        ensures
            b.panel == (Panel { queries: b.panel.queries, ..self.panel }),
            b.panel.queries@ == self.panel.queries@.push(query.spec_query()),
    {
        let mut panel = self.panel;
        panel.queries.push(query.into_query());
        PanelBuilder { panel, marker: PhantomData }
    }

    /// Appends a transformation applied to this panel's query results, in
    /// the order added.
    pub fn transform<T: IntoTransformation>(self, transformation: T) -> (b: Self)
        ensures
            b.panel == (Panel { transformations: b.panel.transformations, ..self.panel }),
            b.panel.transformations@ == self.panel.transformations@.push(
                transformation.spec_transformation(),
            ),
    {
        let mut panel = self.panel;
        panel.transformations.push(transformation.into_transformation());
        PanelBuilder { panel, marker: PhantomData }
    }

    /// Sets the panel description.
    pub fn description(self, description: &str) -> (b: Self)
        ensures
            b.panel == (Panel { description: b.panel.description, ..self.panel }),
            b.panel.description matches Some(d) && d@ == description@,
    {
        let mut panel = self.panel;
        panel.description = Some(description.to_string());
        PanelBuilder { panel, marker: PhantomData }
    }

    /// Sets an explicit panel ID.
    pub fn id(self, id: u32) -> (b: Self)
        ensures
            b.panel == (Panel { id: Some(id), ..self.panel }),
    {
        let mut panel = self.panel;
        panel.id = Some(id);
        PanelBuilder { panel, marker: PhantomData }
    }

    /// Sets panel width in Grafana's 24-column grid.
    pub fn width(self, width: u16) -> (b: Self)
        ensures
            b.panel == (Panel { width, ..self.panel }),
    {
        let mut panel = self.panel;
        panel.width = width;
        PanelBuilder { panel, marker: PhantomData }
    }

    /// Sets panel height in Grafana's 30-pixel grid units.
    pub fn height(self, height: u16) -> (b: Self)
        ensures
            b.panel == (Panel { height, ..self.panel }),
    {
        let mut panel = self.panel;
        panel.height = height;
        PanelBuilder { panel, marker: PhantomData }
    }

    /// Bypasses automatic placement for this panel; its size becomes the
    /// position's size.
    pub fn grid_pos(self, grid_pos: GridPos) -> (b: Self)
        ensures
            b.panel == (Panel {
                width: grid_pos.width,
                height: grid_pos.height,
                grid_pos: Some(grid_pos),
                ..self.panel
            }),
    {
        let mut panel = self.panel;
        panel.width = grid_pos.width;
        panel.height = grid_pos.height;
        panel.grid_pos = Some(grid_pos);
        PanelBuilder { panel, marker: PhantomData }
    }

    /// Sets the panel-level datasource.
    pub fn datasource(self, datasource: DataSource) -> (b: Self)
        ensures
            b.panel == (Panel { datasource: Some(datasource), ..self.panel }),
    {
        let mut panel = self.panel;
        panel.datasource = Some(datasource);
        PanelBuilder { panel, marker: PhantomData }
    }

    /// Replaces the complete typed field configuration.
    pub fn field_config(self, field_config: FieldConfig) -> (b: Self)
        ensures
            b.panel == (Panel { field_config, ..self.panel }),
    {
        let mut panel = self.panel;
        panel.field_config = field_config;
        PanelBuilder { panel, marker: PhantomData }
    }

    /// Adds a panel link.
    pub fn link(self, link: DashboardLink) -> (b: Self)
        ensures
            b.panel == (Panel { links: b.panel.links, ..self.panel }),
            b.panel.links@ == self.panel.links@.push(link),
    {
        let mut panel = self.panel;
        panel.links.push(link);
        PanelBuilder { panel, marker: PhantomData }
    }

    /// Makes the panel background transparent.
    pub fn transparent(self, transparent: bool) -> (b: Self)
        ensures
            b.panel == (Panel { transparent, ..self.panel }),
    {
        let mut panel = self.panel;
        panel.transparent = transparent;
        PanelBuilder { panel, marker: PhantomData }
    }

    /// Adds a plugin-specific value under the panel's `options` object. It is
    /// applied after every typed option, so it wins over the equivalent typed
    /// value.
    pub fn option(self, key: &str, value: serde_json::Value) -> (b: Self)
        ensures
            b.panel == (Panel { raw_options: b.panel.raw_options, ..self.panel }),
            raw_map(b.panel.raw_options@) == raw_map(self.panel.raw_options@).insert(
                key@,
                JsonV::Raw(value),
            ),
    {
        let mut panel = self.panel;
        raw_insert(&mut panel.raw_options, key, value);
        PanelBuilder { panel, marker: PhantomData }
    }

    /// Adds an unsupported top-level Grafana panel property, flattened onto
    /// the serialized panel object.
    pub fn extra(self, key: &str, value: serde_json::Value) -> (b: Self)
        ensures
            b.panel == (Panel { extra: b.panel.extra, ..self.panel }),
            raw_map(b.panel.extra@) == raw_map(self.panel.extra@).insert(key@, JsonV::Raw(value)),
    {
        let mut panel = self.panel;
        raw_insert(&mut panel.extra, key, value);
        PanelBuilder { panel, marker: PhantomData }
    }

    /// Sets the legend format on the most recently added query; a no-op
    /// before any query is added.
    pub fn legend_format(self, legend_format: &str) -> (b: Self)
        ensures
            self.panel.queries@.len() == 0 ==> b.panel == self.panel,
            self.panel.queries@.len() > 0 ==> {
                let last = self.panel.queries@.last();
                let set = b.panel.queries@.last();
                &&& b.panel == (Panel { queries: b.panel.queries, ..self.panel })
                &&& b.panel.queries@.drop_last() == self.panel.queries@.drop_last()
                &&& b.panel.queries@.len() == self.panel.queries@.len()
                &&& set == last.with_options(
                    QueryOptions { legend_format: set.spec_options().legend_format, ..last.spec_options() },
                )
                &&& set.spec_options().legend_format matches Some(l) && l@ == legend_format@
            },
    {
        let mut panel = self.panel;
        if panel.queries.len() > 0 {
            let ghost before = panel.queries@;
            let query = panel.queries.pop().unwrap();
            let options = query.options().copy();
            let options = QueryOptions { legend_format: Some(legend_format.to_string()), ..options };
            let query = query.set_options(options);
            panel.queries.push(query);
            proof {
                assert(panel.queries@.drop_last() =~= before.drop_last());
            }
        }
        PanelBuilder { panel, marker: PhantomData }
    }

    /// Sets the default field unit.
    pub fn unit(self, unit: Unit) -> (b: Self)
        ensures
            b.panel == (Panel { field_config: FieldConfig { unit: Some(unit), ..self.panel.field_config }, ..self.panel }),
    {
        let mut panel = self.panel;
        panel.field_config.unit = Some(unit);
        PanelBuilder { panel, marker: PhantomData }
    }

    /// Sets the default field minimum.
    pub fn min(self, min: Float) -> (b: Self)
        ensures
            b.panel == (Panel { field_config: FieldConfig { min: Some(min), ..self.panel.field_config }, ..self.panel }),
    {
        let mut panel = self.panel;
        panel.field_config.min = Some(min);
        PanelBuilder { panel, marker: PhantomData }
    }

    /// Sets the default field maximum.
    pub fn max(self, max: Float) -> (b: Self)
        ensures
            b.panel == (Panel { field_config: FieldConfig { max: Some(max), ..self.panel.field_config }, ..self.panel }),
    {
        let mut panel = self.panel;
        panel.field_config.max = Some(max);
        PanelBuilder { panel, marker: PhantomData }
    }

    /// Sets the default field decimal count.
    pub fn decimals(self, decimals: u8) -> (b: Self)
        ensures
            b.panel == (Panel { field_config: FieldConfig { decimals: Some(decimals), ..self.panel.field_config }, ..self.panel }),
    {
        let mut panel = self.panel;
        panel.field_config.decimals = Some(decimals);
        PanelBuilder { panel, marker: PhantomData }
    }

    /// Sets the default display-name template.
    pub fn display_name(self, display_name: &str) -> (b: Self)
        ensures
            b.panel == (Panel { field_config: FieldConfig { display_name: b.panel.field_config.display_name, ..self.panel.field_config }, ..self.panel }),
            b.panel.field_config.display_name matches Some(d) && d@ == display_name@,
    {
        let mut panel = self.panel;
        panel.field_config.display_name = Some(display_name.to_string());
        PanelBuilder { panel, marker: PhantomData }
    }

    /// Sets the default color scheme.
    pub fn color(self, color: ColorScheme) -> (b: Self)
        ensures
            b.panel == (Panel { field_config: FieldConfig { color: Some(color), ..self.panel.field_config }, ..self.panel }),
    {
        let mut panel = self.panel;
        panel.field_config.color = Some(color);
        PanelBuilder { panel, marker: PhantomData }
    }

    /// Sets thresholds.
    pub fn thresholds(self, thresholds: Thresholds) -> (b: Self)
        ensures
            b.panel == (Panel { field_config: FieldConfig { thresholds: Some(thresholds), ..self.panel.field_config }, ..self.panel }),
    {
        let mut panel = self.panel;
        panel.field_config.thresholds = Some(thresholds);
        PanelBuilder { panel, marker: PhantomData }
    }

    /// Adds an exact-value display mapping.
    pub fn mapping(self, mapping: ValueMapping) -> (b: Self)
        ensures
            b.panel == (Panel { field_config: FieldConfig { mappings: b.panel.field_config.mappings, ..self.panel.field_config }, ..self.panel }),
            b.panel.field_config.mappings@ == self.panel.field_config.mappings@.push(mapping),
    {
        let mut panel = self.panel;
        panel.field_config.mappings.push(mapping);
        PanelBuilder { panel, marker: PhantomData }
    }

    /// Adds a field override.
    pub fn override_field(self, field_override: FieldOverride) -> (b: Self)
        ensures
            b.panel == (Panel { field_config: FieldConfig { overrides: b.panel.field_config.overrides, ..self.panel.field_config }, ..self.panel }),
            b.panel.field_config.overrides@ == self.panel.field_config.overrides@.push(field_override),
    {
        let mut panel = self.panel;
        panel.field_config.overrides.push(field_override);
        PanelBuilder { panel, marker: PhantomData }
    }

    /// Finishes the typed builder.
    pub fn build(self) -> (p: Panel)
        ensures
            p == self.panel,
    {
        self.panel
    }
}

impl PanelBuilder<TextKind> {
    /// Sets the text panel content, keeping the mode (Markdown by default).
    pub fn content(self, content: &str) -> (b: Self)
        ensures
            b.panel == (Panel { text: b.panel.text, ..self.panel }),
            b.panel.text matches Some(t) && t.1@ == content@ && t.0 == (match self.panel.text {
                Some(old) => old.0,
                None => TextMode::Markdown,
            }),
    {
        let mut panel = self.panel;
        let mode = match &panel.text {
            Some(text) => text.0,
            None => TextMode::Markdown,
        };
        panel.text = Some((mode, content.to_string()));
        PanelBuilder { panel, marker: PhantomData }
    }

    /// Sets Markdown, HTML, or code rendering mode, keeping the content
    /// (empty by default).
    pub fn mode(self, mode: TextMode) -> (b: Self)
        ensures
            b.panel == (Panel { text: b.panel.text, ..self.panel }),
            b.panel.text matches Some(t) && t.0 == mode && t.1@ == (match self.panel.text {
                Some(old) => old.1@,
                None => Seq::<char>::empty(),
            }),
    {
        let mut panel = self.panel;
        let content = match panel.text {
            Some(text) => text.1,
            None => String::new(),
        };
        panel.text = Some((mode, content));
        PanelBuilder { panel, marker: PhantomData }
    }
}

impl PanelBuilder<StatKind> {
    /// Sets whether Grafana colors the value, background, or neither.
    pub fn color_mode(self, mode: StatColorMode) -> (b: Self)
        ensures
            b.panel == (Panel {
                kind_options: PanelOptions::Stat(StatOptions { color_mode: Some(mode), ..stat_of(self.panel.kind_options) }),
                ..self.panel
            }),
    {
        let mut panel = self.panel;
        let current = take_stat(panel.kind_options);
        panel.kind_options = PanelOptions::Stat(StatOptions { color_mode: Some(mode), ..current });
        PanelBuilder { panel, marker: PhantomData }
    }

    /// Sets area-sparkline or no-sparkline rendering.
    pub fn graph_mode(self, mode: StatGraphMode) -> (b: Self)
        ensures
            b.panel == (Panel {
                kind_options: PanelOptions::Stat(StatOptions { graph_mode: Some(mode), ..stat_of(self.panel.kind_options) }),
                ..self.panel
            }),
    {
        let mut panel = self.panel;
        let current = take_stat(panel.kind_options);
        panel.kind_options = PanelOptions::Stat(StatOptions { graph_mode: Some(mode), ..current });
        PanelBuilder { panel, marker: PhantomData }
    }

    /// Sets the value orientation.
    pub fn orientation(self, orientation: Orientation) -> (b: Self)
        ensures
            b.panel == (Panel {
                kind_options: PanelOptions::Stat(StatOptions { orientation: Some(orientation), ..stat_of(self.panel.kind_options) }),
                ..self.panel
            }),
    {
        let mut panel = self.panel;
        let current = take_stat(panel.kind_options);
        panel.kind_options = PanelOptions::Stat(StatOptions { orientation: Some(orientation), ..current });
        PanelBuilder { panel, marker: PhantomData }
    }

    /// Controls Grafana's wide-layout treatment for value names and values.
    pub fn wide_layout(self, wide_layout: bool) -> (b: Self)
        ensures
            b.panel == (Panel {
                kind_options: PanelOptions::Stat(StatOptions { wide_layout: Some(wide_layout), ..stat_of(self.panel.kind_options) }),
                ..self.panel
            }),
    {
        let mut panel = self.panel;
        let current = take_stat(panel.kind_options);
        panel.kind_options = PanelOptions::Stat(StatOptions { wide_layout: Some(wide_layout), ..current });
        PanelBuilder { panel, marker: PhantomData }
    }

    /// Sets how fields are reduced to displayed values.
    pub fn reduce_options(self, options: ReduceOptions) -> (b: Self)
        ensures
            b.panel == (Panel {
                kind_options: PanelOptions::Stat(StatOptions { reduce: Some(options), ..stat_of(self.panel.kind_options) }),
                ..self.panel
            }),
    {
        let mut panel = self.panel;
        let current = take_stat(panel.kind_options);
        panel.kind_options = PanelOptions::Stat(StatOptions { reduce: Some(options), ..current });
        PanelBuilder { panel, marker: PhantomData }
    }
}

impl PanelBuilder<GaugeKind> {
    /// Sets the value orientation.
    pub fn orientation(self, orientation: Orientation) -> (b: Self)
        ensures
            b.panel == (Panel {
                kind_options: PanelOptions::Gauge(GaugeOptions { orientation: Some(orientation), ..gauge_of(self.panel.kind_options) }),
                ..self.panel
            }),
    {
        let mut panel = self.panel;
        let current = take_gauge(panel.kind_options);
        panel.kind_options = PanelOptions::Gauge(GaugeOptions { orientation: Some(orientation), ..current });
        PanelBuilder { panel, marker: PhantomData }
    }

    /// Sets how fields are reduced to displayed values.
    pub fn reduce_options(self, options: ReduceOptions) -> (b: Self)
        ensures
            b.panel == (Panel {
                kind_options: PanelOptions::Gauge(GaugeOptions { reduce: Some(options), ..gauge_of(self.panel.kind_options) }),
                ..self.panel
            }),
    {
        let mut panel = self.panel;
        let current = take_gauge(panel.kind_options);
        panel.kind_options = PanelOptions::Gauge(GaugeOptions { reduce: Some(options), ..current });
        PanelBuilder { panel, marker: PhantomData }
    }
}

impl PanelBuilder<TimeseriesKind> {
    /// Sets the area fill opacity from 0 to 100.
    pub fn fill_opacity(self, opacity: Float) -> (b: Self)
        ensures
            b.panel == (Panel {
                kind_options: PanelOptions::Timeseries(TimeseriesOptions { fill_opacity: Some(opacity), ..timeseries_of(self.panel.kind_options) }),
                ..self.panel
            }),
    {
        let mut panel = self.panel;
        let current = take_timeseries(panel.kind_options);
        panel.kind_options = PanelOptions::Timeseries(TimeseriesOptions { fill_opacity: Some(opacity), ..current });
        PanelBuilder { panel, marker: PhantomData }
    }

    /// Sets the line width in pixels.
    pub fn line_width(self, width: Float) -> (b: Self)
        ensures
            b.panel == (Panel {
                kind_options: PanelOptions::Timeseries(TimeseriesOptions { line_width: Some(width), ..timeseries_of(self.panel.kind_options) }),
                ..self.panel
            }),
    {
        let mut panel = self.panel;
        let current = take_timeseries(panel.kind_options);
        panel.kind_options = PanelOptions::Timeseries(TimeseriesOptions { line_width: Some(width), ..current });
        PanelBuilder { panel, marker: PhantomData }
    }

    /// Sets the point-marker size in pixels.
    pub fn point_size(self, size: Float) -> (b: Self)
        ensures
            b.panel == (Panel {
                kind_options: PanelOptions::Timeseries(TimeseriesOptions { point_size: Some(size), ..timeseries_of(self.panel.kind_options) }),
                ..self.panel
            }),
    {
        let mut panel = self.panel;
        let current = take_timeseries(panel.kind_options);
        panel.kind_options = PanelOptions::Timeseries(TimeseriesOptions { point_size: Some(size), ..current });
        PanelBuilder { panel, marker: PhantomData }
    }

    /// Sets line interpolation between samples.
    pub fn line_interpolation(self, interpolation: LineInterpolation) -> (b: Self)
        ensures
            b.panel == (Panel {
                kind_options: PanelOptions::Timeseries(TimeseriesOptions { line_interpolation: Some(interpolation), ..timeseries_of(self.panel.kind_options) }),
                ..self.panel
            }),
    {
        let mut panel = self.panel;
        let current = take_timeseries(panel.kind_options);
        panel.kind_options = PanelOptions::Timeseries(TimeseriesOptions { line_interpolation: Some(interpolation), ..current });
        PanelBuilder { panel, marker: PhantomData }
    }

    /// Sets point-marker visibility.
    pub fn show_points(self, visibility: PointVisibility) -> (b: Self)
        ensures
            b.panel == (Panel {
                kind_options: PanelOptions::Timeseries(TimeseriesOptions { show_points: Some(visibility), ..timeseries_of(self.panel.kind_options) }),
                ..self.panel
            }),
    {
        let mut panel = self.panel;
        let current = take_timeseries(panel.kind_options);
        panel.kind_options = PanelOptions::Timeseries(TimeseriesOptions { show_points: Some(visibility), ..current });
        PanelBuilder { panel, marker: PhantomData }
    }

    /// Controls whether lines span null samples.
    pub fn span_nulls(self, span_nulls: bool) -> (b: Self)
        ensures
            b.panel == (Panel {
                kind_options: PanelOptions::Timeseries(TimeseriesOptions { span_nulls: Some(span_nulls), ..timeseries_of(self.panel.kind_options) }),
                ..self.panel
            }),
    {
        let mut panel = self.panel;
        let current = take_timeseries(panel.kind_options);
        panel.kind_options = PanelOptions::Timeseries(TimeseriesOptions { span_nulls: Some(span_nulls), ..current });
        PanelBuilder { panel, marker: PhantomData }
    }

    /// Sets series stacking mode and group.
    pub fn stacking(self, stacking: Stacking) -> (b: Self)
        ensures
            b.panel == (Panel {
                kind_options: PanelOptions::Timeseries(TimeseriesOptions { stacking: Some(stacking), ..timeseries_of(self.panel.kind_options) }),
                ..self.panel
            }),
    {
        let mut panel = self.panel;
        let current = take_timeseries(panel.kind_options);
        panel.kind_options = PanelOptions::Timeseries(TimeseriesOptions { stacking: Some(stacking), ..current });
        PanelBuilder { panel, marker: PhantomData }
    }

    /// Sets typed tooltip behavior.
    pub fn tooltip(self, tooltip: Tooltip) -> (b: Self)
        ensures
            b.panel == (Panel {
                kind_options: PanelOptions::Timeseries(TimeseriesOptions { tooltip: Some(tooltip), ..timeseries_of(self.panel.kind_options) }),
                ..self.panel
            }),
    {
        let mut panel = self.panel;
        let current = take_timeseries(panel.kind_options);
        panel.kind_options = PanelOptions::Timeseries(TimeseriesOptions { tooltip: Some(tooltip), ..current });
        PanelBuilder { panel, marker: PhantomData }
    }

    /// Sets visualization legend options; only time-series panels read them.
    pub fn legend_options(self, legend: Legend) -> (b: Self)
        ensures
            b.panel == (Panel {
                kind_options: PanelOptions::Timeseries(TimeseriesOptions { legend: Some(legend), ..timeseries_of(self.panel.kind_options) }),
                ..self.panel
            }),
    {
        let mut panel = self.panel;
        let current = take_timeseries(panel.kind_options);
        panel.kind_options = PanelOptions::Timeseries(TimeseriesOptions { legend: Some(legend), ..current });
        PanelBuilder { panel, marker: PhantomData }
    }
}

impl PanelBuilder<BarGaugeKind> {
    /// Sets the visual fill style.
    pub fn display_mode(self, mode: BarGaugeDisplayMode) -> (b: Self)
        ensures
            b.panel == (Panel {
                kind_options: PanelOptions::BarGauge(BarGaugeOptions { display_mode: Some(mode), ..bar_gauge_of(self.panel.kind_options) }),
                ..self.panel
            }),
    {
        let mut panel = self.panel;
        let current = take_bar_gauge(panel.kind_options);
        panel.kind_options = PanelOptions::BarGauge(BarGaugeOptions { display_mode: Some(mode), ..current });
        PanelBuilder { panel, marker: PhantomData }
    }

    /// Sets the bar orientation.
    pub fn orientation(self, orientation: Orientation) -> (b: Self)
        ensures
            b.panel == (Panel {
                kind_options: PanelOptions::BarGauge(BarGaugeOptions { orientation: Some(orientation), ..bar_gauge_of(self.panel.kind_options) }),
                ..self.panel
            }),
    {
        let mut panel = self.panel;
        let current = take_bar_gauge(panel.kind_options);
        panel.kind_options = PanelOptions::BarGauge(BarGaugeOptions { orientation: Some(orientation), ..current });
        PanelBuilder { panel, marker: PhantomData }
    }

    /// Sets how fields are reduced to displayed bars.
    pub fn reduce_options(self, options: ReduceOptions) -> (b: Self)
        ensures
            b.panel == (Panel {
                kind_options: PanelOptions::BarGauge(BarGaugeOptions { reduce: Some(options), ..bar_gauge_of(self.panel.kind_options) }),
                ..self.panel
            }),
    {
        let mut panel = self.panel;
        let current = take_bar_gauge(panel.kind_options);
        panel.kind_options = PanelOptions::BarGauge(BarGaugeOptions { reduce: Some(options), ..current });
        PanelBuilder { panel, marker: PhantomData }
    }
}

impl PanelBuilder<HeatmapKind> {
    /// Sets the number of discrete color steps.
    pub fn color_steps(self, steps: u32) -> (b: Self)
        ensures
            b.panel == (Panel {
                kind_options: PanelOptions::Heatmap(HeatmapOptions { color_steps: Some(steps), ..heatmap_of(self.panel.kind_options) }),
                ..self.panel
            }),
    {
        let mut panel = self.panel;
        let current = take_heatmap(panel.kind_options);
        panel.kind_options = PanelOptions::Heatmap(HeatmapOptions { color_steps: Some(steps), ..current });
        PanelBuilder { panel, marker: PhantomData }
    }

    /// Selects palette or opacity coloring.
    pub fn color_mode(self, mode: HeatmapColorMode) -> (b: Self)
        ensures
            b.panel == (Panel {
                kind_options: PanelOptions::Heatmap(HeatmapOptions { color_mode: Some(mode), ..heatmap_of(self.panel.kind_options) }),
                ..self.panel
            }),
    {
        let mut panel = self.panel;
        let current = take_heatmap(panel.kind_options);
        panel.kind_options = PanelOptions::Heatmap(HeatmapOptions { color_mode: Some(mode), ..current });
        PanelBuilder { panel, marker: PhantomData }
    }

    /// Sets the gap between cells in pixels.
    pub fn cell_gap(self, gap: u8) -> (b: Self)
        ensures
            b.panel == (Panel {
                kind_options: PanelOptions::Heatmap(HeatmapOptions { cell_gap: Some(gap), ..heatmap_of(self.panel.kind_options) }),
                ..self.panel
            }),
    {
        let mut panel = self.panel;
        let current = take_heatmap(panel.kind_options);
        panel.kind_options = PanelOptions::Heatmap(HeatmapOptions { cell_gap: Some(gap), ..current });
        PanelBuilder { panel, marker: PhantomData }
    }

    /// Shows or hides the color-scale legend.
    pub fn show_legend(self, show: bool) -> (b: Self)
        ensures
            b.panel == (Panel {
                kind_options: PanelOptions::Heatmap(HeatmapOptions { legend: Some(show), ..heatmap_of(self.panel.kind_options) }),
                ..self.panel
            }),
    {
        let mut panel = self.panel;
        let current = take_heatmap(panel.kind_options);
        panel.kind_options = PanelOptions::Heatmap(HeatmapOptions { legend: Some(show), ..current });
        PanelBuilder { panel, marker: PhantomData }
    }

    /// Sets the Y-axis unit.
    pub fn y_axis_unit(self, unit: Unit) -> (b: Self)
        ensures
            b.panel == (Panel {
                kind_options: PanelOptions::Heatmap(HeatmapOptions { y_axis_unit: Some(unit), ..heatmap_of(self.panel.kind_options) }),
                ..self.panel
            }),
    {
        let mut panel = self.panel;
        let current = take_heatmap(panel.kind_options);
        panel.kind_options = PanelOptions::Heatmap(HeatmapOptions { y_axis_unit: Some(unit), ..current });
        PanelBuilder { panel, marker: PhantomData }
    }

    /// Sets the Y-axis placement.
    pub fn y_axis_placement(self, placement: AxisPlacement) -> (b: Self)
        ensures
            b.panel == (Panel {
                kind_options: PanelOptions::Heatmap(HeatmapOptions { y_axis_placement: Some(placement), ..heatmap_of(self.panel.kind_options) }),
                ..self.panel
            }),
    {
        let mut panel = self.panel;
        let current = take_heatmap(panel.kind_options);
        panel.kind_options = PanelOptions::Heatmap(HeatmapOptions { y_axis_placement: Some(placement), ..current });
        PanelBuilder { panel, marker: PhantomData }
    }

    /// Chooses between bucketing raw data and consuming pre-bucketed data.
    pub fn calculate(self, calculate: bool) -> (b: Self)
        ensures
            b.panel == (Panel {
                kind_options: PanelOptions::Heatmap(HeatmapOptions { calculate: Some(calculate), ..heatmap_of(self.panel.kind_options) }),
                ..self.panel
            }),
    {
        let mut panel = self.panel;
        let current = take_heatmap(panel.kind_options);
        panel.kind_options = PanelOptions::Heatmap(HeatmapOptions { calculate: Some(calculate), ..current });
        PanelBuilder { panel, marker: PhantomData }
    }
}

impl PanelBuilder<HeatmapKind> {
    /// Sets the color palette, by value or by name such as `"Oranges"`.
    pub fn color_scheme<S: IntoHeatmapColorScheme>(self, scheme: S) -> (b: Self)
        ensures
            b.panel == (Panel {
                kind_options: PanelOptions::Heatmap(HeatmapOptions {
                    color_scheme: heatmap_of(b.panel.kind_options).color_scheme,
                    ..heatmap_of(self.panel.kind_options)
                }),
                ..self.panel
            }),
            b.panel.kind_options is Heatmap,
            heatmap_of(b.panel.kind_options).color_scheme matches Some(s) && scheme.selects(s),
    {
        let mut panel = self.panel;
        let options = take_heatmap(panel.kind_options);
        let chosen = scheme.into_scheme();
        panel.kind_options = PanelOptions::Heatmap(HeatmapOptions { color_scheme: Some(chosen), ..options });
        PanelBuilder { panel, marker: PhantomData }
    }
}

impl PanelBuilder<TableKind> {
    /// Appends a field, by display name, to the table's initial sort order.
    pub fn sort_by(self, field: &str, direction: SortDirection) -> (b: Self)
        ensures
            b.panel == (Panel { kind_options: b.panel.kind_options, ..self.panel }),
            b.panel.kind_options matches PanelOptions::Table(t) && exists|prior: TableOptions|
                is_table_of(self.panel.kind_options, prior) && t.cell == prior.cell
                    && t.sort_by@.drop_last() == prior.sort_by@ && t.sort_by@.len()
                    == prior.sort_by@.len() + 1 && t.sort_by@.last().field@ == field@
                    && t.sort_by@.last().descending == (direction == SortDirection::Descending),
    {
        let mut panel = self.panel;
        let options = take_table(panel.kind_options);
        let ghost prior = options;
        let mut sort_by = options.sort_by;
        sort_by.push(TableSort::new(field, direction));
        assert(sort_by@.drop_last() =~= prior.sort_by@);
        panel.kind_options = PanelOptions::Table(TableOptions { sort_by, cell: options.cell });
        PanelBuilder { panel, marker: PhantomData }
    }

    /// Sets the default cell renderer for every column.
    pub fn cell<C: IntoTableCell>(self, cell: C) -> (b: Self)
        ensures
            b.panel == (Panel { kind_options: b.panel.kind_options, ..self.panel }),
            b.panel.kind_options matches PanelOptions::Table(t) && exists|prior: TableOptions|
                is_table_of(self.panel.kind_options, prior) && t.sort_by == prior.sort_by
                    && t.cell == Some(cell.spec_cell()),
    {
        let mut panel = self.panel;
        let options = take_table(panel.kind_options);
        let ghost prior = options;
        let cell = cell.into_cell();
        panel.kind_options = PanelOptions::Table(TableOptions { sort_by: options.sort_by, cell: Some(cell) });
        PanelBuilder { panel, marker: PhantomData }
    }
}

/// A panel-plugin escape hatch that retains the common builder surface.
pub struct RawPanel {
    pub panel: Panel,
}

impl RawPanel {
    /// Creates a panel for an arbitrary Grafana panel plugin ID.
    pub fn new(plugin_id: &str, title: &str) -> (b: Self)
        ensures
            b.panel.kind matches PanelKind::Raw(id) && id@ == plugin_id@,
            Panel::is_fresh(b.panel, b.panel.kind, title@, 12, 8),
    {
        RawPanel { panel: Panel::new(PanelKind::Raw(plugin_id.to_string()), title, 12, 8) }
    }

    /// Adds a datasource query.
    pub fn query<Q: IntoQuery>(self, query: Q) -> (b: Self)
        ensures
            b.panel == (Panel { queries: b.panel.queries, ..self.panel }),
            b.panel.queries@ == self.panel.queries@.push(query.spec_query()),
    {
        let mut panel = self.panel;
        panel.queries.push(query.into_query());
        RawPanel { panel }
    }

    /// Appends a transformation applied to this panel's query results, in
    /// the order added.
    pub fn transform<T: IntoTransformation>(self, transformation: T) -> (b: Self)
        ensures
            b.panel == (Panel { transformations: b.panel.transformations, ..self.panel }),
            b.panel.transformations@ == self.panel.transformations@.push(
                transformation.spec_transformation(),
            ),
    {
        let mut panel = self.panel;
        panel.transformations.push(transformation.into_transformation());
        RawPanel { panel }
    }

    /// Sets the panel description.
    pub fn description(self, description: &str) -> (b: Self)
        ensures
            b.panel == (Panel { description: b.panel.description, ..self.panel }),
            b.panel.description matches Some(d) && d@ == description@,
    {
        let mut panel = self.panel;
        panel.description = Some(description.to_string());
        RawPanel { panel }
    }

    /// Sets an explicit panel ID.
    pub fn id(self, id: u32) -> (b: Self)
        ensures
            b.panel == (Panel { id: Some(id), ..self.panel }),
    {
        let mut panel = self.panel;
        panel.id = Some(id);
        RawPanel { panel }
    }

    /// Sets panel width in Grafana's 24-column grid.
    pub fn width(self, width: u16) -> (b: Self)
        ensures
            b.panel == (Panel { width, ..self.panel }),
    {
        let mut panel = self.panel;
        panel.width = width;
        RawPanel { panel }
    }

    /// Sets panel height in Grafana's 30-pixel grid units.
    pub fn height(self, height: u16) -> (b: Self)
        ensures
            b.panel == (Panel { height, ..self.panel }),
    {
        let mut panel = self.panel;
        panel.height = height;
        RawPanel { panel }
    }

    /// Bypasses automatic placement for this panel; its size becomes the
    /// position's size.
    pub fn grid_pos(self, grid_pos: GridPos) -> (b: Self)
        ensures
            b.panel == (Panel {
                width: grid_pos.width,
                height: grid_pos.height,
                grid_pos: Some(grid_pos),
                ..self.panel
            }),
    {
        let mut panel = self.panel;
        panel.width = grid_pos.width;
        panel.height = grid_pos.height;
        panel.grid_pos = Some(grid_pos);
        RawPanel { panel }
    }

    /// Sets the panel-level datasource.
    pub fn datasource(self, datasource: DataSource) -> (b: Self)
        ensures
            b.panel == (Panel { datasource: Some(datasource), ..self.panel }),
    {
        let mut panel = self.panel;
        panel.datasource = Some(datasource);
        RawPanel { panel }
    }

    /// Replaces the complete typed field configuration.
    pub fn field_config(self, field_config: FieldConfig) -> (b: Self)
        ensures
            b.panel == (Panel { field_config, ..self.panel }),
    {
        let mut panel = self.panel;
        panel.field_config = field_config;
        RawPanel { panel }
    }

    /// Adds a panel link.
    pub fn link(self, link: DashboardLink) -> (b: Self)
        ensures
            b.panel == (Panel { links: b.panel.links, ..self.panel }),
            b.panel.links@ == self.panel.links@.push(link),
    {
        let mut panel = self.panel;
        panel.links.push(link);
        RawPanel { panel }
    }

    /// Makes the panel background transparent.
    pub fn transparent(self, transparent: bool) -> (b: Self)
        ensures
            b.panel == (Panel { transparent, ..self.panel }),
    {
        let mut panel = self.panel;
        panel.transparent = transparent;
        RawPanel { panel }
    }

    /// Adds a plugin-specific value under the panel's `options` object. It is
    /// applied after every typed option, so it wins over the equivalent typed
    /// value.
    pub fn option(self, key: &str, value: serde_json::Value) -> (b: Self)
        ensures
            b.panel == (Panel { raw_options: b.panel.raw_options, ..self.panel }),
            raw_map(b.panel.raw_options@) == raw_map(self.panel.raw_options@).insert(
                key@,
                JsonV::Raw(value),
            ),
    {
        let mut panel = self.panel;
        raw_insert(&mut panel.raw_options, key, value);
        RawPanel { panel }
    }

    /// Adds an unsupported top-level Grafana panel property, flattened onto
    /// the serialized panel object.
    pub fn extra(self, key: &str, value: serde_json::Value) -> (b: Self)
        ensures
            b.panel == (Panel { extra: b.panel.extra, ..self.panel }),
            raw_map(b.panel.extra@) == raw_map(self.panel.extra@).insert(key@, JsonV::Raw(value)),
    {
        let mut panel = self.panel;
        raw_insert(&mut panel.extra, key, value);
        RawPanel { panel }
    }
}

/// A value that can be added as a panel.
pub trait IntoPanel: Sized {
    spec fn spec_panel(self) -> Panel;

    fn into_panel(self) -> (p: Panel)
        ensures
            p == self.spec_panel(),
    ;
}

impl IntoPanel for Panel {
    open spec fn spec_panel(self) -> Panel {
        self
    }

    fn into_panel(self) -> (p: Panel) {
        self
    }
}

impl<K: PanelType> IntoPanel for PanelBuilder<K> {
    open spec fn spec_panel(self) -> Panel {
        self.panel
    }

    fn into_panel(self) -> (p: Panel) {
        self.panel
    }
}

impl IntoPanel for RawPanel {
    open spec fn spec_panel(self) -> Panel {
        self.panel
    }

    fn into_panel(self) -> (p: Panel) {
        self.panel
    }
}

} // verus!
