//! Datasource queries.
use vstd::prelude::*;

use crate::datasource::DataSource;
use crate::json::{raw_insert, raw_map, JsonV};

verus! {

/// Datasource-query editor shown by Grafana.
#[derive(Debug, Clone, Copy, PartialEq, Eq)]
pub enum QueryEditorMode {
    /// Structured visual query builder.
    Builder,
    /// Raw query-language editor.
    Code,
}

pub open spec fn editor_mode_name(m: QueryEditorMode) -> Seq<char> {
    match m {
        QueryEditorMode::Builder => "builder"@,
        QueryEditorMode::Code => "code"@,
    }
}

impl QueryEditorMode {
    /// The Grafana editor-mode identifier.
    pub fn as_grafana(self) -> (s: &'static str)
        ensures
            s@ == editor_mode_name(self),
    {
        match self {
            QueryEditorMode::Builder => "builder",
            QueryEditorMode::Code => "code",
        }
    }
}

/// Properties shared by datasource queries.
#[derive(Debug, PartialEq)]
pub struct QueryOptions {
    pub ref_id: Option<String>,
    pub legend_format: Option<String>,
    pub instant: bool,
    pub range: Option<bool>,
    pub datasource: Option<DataSource>,
    pub hidden: bool,
    pub interval: Option<String>,
    pub editor_mode: Option<QueryEditorMode>,
}

impl QueryOptions {
    pub open spec fn empty() -> QueryOptions {
        QueryOptions {
            ref_id: None,
            legend_format: None,
            instant: false,
            range: None,
            datasource: None,
            hidden: false,
            interval: None,
            editor_mode: None,
        }
    }

    pub fn new() -> (o: QueryOptions)
        ensures
            o == QueryOptions::empty(),
    {
        QueryOptions {
            ref_id: None,
            legend_format: None,
            instant: false,
            range: None,
            datasource: None,
            hidden: false,
            interval: None,
            editor_mode: None,
        }
    }

    /// The options after `instant(instant)`: an instant query also turns
    /// range-query behavior off explicitly.
    pub open spec fn with_instant(self, instant: bool) -> QueryOptions {
        QueryOptions {
            instant,
            range: if instant { Some(false) } else { self.range },
            ..self
        }
    }

    pub fn set_instant(self, instant: bool) -> (o: QueryOptions)
        ensures
            o == self.with_instant(instant),
    {
        let range = if instant { Some(false) } else { self.range };
        QueryOptions { instant, range, ..self }
    }

    pub fn copy(&self) -> (o: QueryOptions)
        ensures
            o == *self,
    {
        QueryOptions {
            ref_id: crate::text::copy_opt(&self.ref_id),
            legend_format: crate::text::copy_opt(&self.legend_format),
            instant: self.instant,
            range: self.range,
            datasource: crate::datasource::copy_opt_datasource(&self.datasource),
            hidden: self.hidden,
            interval: crate::text::copy_opt(&self.interval),
            editor_mode: self.editor_mode,
        }
    }
}

/// The response shape a Prometheus query asks Grafana to produce.
#[derive(Debug, Clone, Copy, PartialEq, Eq)]
pub enum PrometheusFormat {
    /// One series per label set. Grafana's default.
    TimeSeries,
    /// Tabular result suitable for table panels.
    Table,
    /// Bucketed result suitable for heatmap panels.
    Heatmap,
}

pub open spec fn prometheus_format_name(f: PrometheusFormat) -> Seq<char> {
    match f {
        PrometheusFormat::TimeSeries => "time_series"@,
        PrometheusFormat::Table => "table"@,
        PrometheusFormat::Heatmap => "heatmap"@,
    }
}

impl PrometheusFormat {
    /// The Grafana target format identifier.
    pub fn as_grafana(self) -> (s: &'static str)
        ensures
            s@ == prometheus_format_name(self),
    {
        match self {
            PrometheusFormat::TimeSeries => "time_series",
            PrometheusFormat::Table => "table",
            PrometheusFormat::Heatmap => "heatmap",
        }
    }
}

impl Default for PrometheusFormat {
    fn default() -> (f: Self)
        ensures
            f == PrometheusFormat::TimeSeries,
    {
        PrometheusFormat::TimeSeries
    }
}

/// A first-class Prometheus/PromQL query.
#[derive(Debug, PartialEq)]
pub struct PrometheusQuery {
    pub expression: String,
    pub options: QueryOptions,
    pub format: Option<PrometheusFormat>,
}

impl PrometheusQuery {
    /// Creates a PromQL query.
    pub fn new(expression: &str) -> (q: Self)
        ensures
            q.expression@ == expression@,
            q.options == QueryOptions::empty(),
            q.format is None,
    {
        PrometheusQuery { expression: expression.to_string(), options: QueryOptions::new(), format: None }
    }

    /// Sets the Grafana response format for this query.
    pub fn format(self, format: PrometheusFormat) -> (q: Self)
        ensures
            q == (PrometheusQuery { format: Some(format), ..self }),
    {
        PrometheusQuery { format: Some(format), ..self }
    }
}

/// A first-class Loki/LogQL query.
#[derive(Debug, PartialEq)]
pub struct LokiQuery {
    pub expression: String,
    pub options: QueryOptions,
}

impl LokiQuery {
    /// Creates a LogQL query.
    pub fn new(expression: &str) -> (q: Self)
        ensures
            q.expression@ == expression@,
            q.options == QueryOptions::empty(),
    {
        LokiQuery { expression: expression.to_string(), options: QueryOptions::new() }
    }
}

/// A generic datasource query for properties the library does not model.
#[derive(Debug, PartialEq)]
pub struct RawQuery {
    pub expression: String,
    pub options: QueryOptions,
    pub extra: Vec<(String, serde_json::Value)>,
}

impl RawQuery {
    /// Creates a raw query with an `expr` property.
    pub fn new(expression: &str) -> (q: Self)
        ensures
            q.expression@ == expression@,
            q.options == QueryOptions::empty(),
            q.extra@.len() == 0,
    {
        RawQuery { expression: expression.to_string(), options: QueryOptions::new(), extra: Vec::new() }
    }

    /// Adds or replaces an unsupported target property.
    pub fn extra(self, key: &str, value: serde_json::Value) -> (q: Self)
        ensures
            q.expression == self.expression,
            q.options == self.options,
            raw_map(q.extra@) == raw_map(self.extra@).insert(key@, JsonV::Raw(value)),
    {
        let mut extra = self.extra;
        raw_insert(&mut extra, key, value);
        RawQuery { expression: self.expression, options: self.options, extra }
    }
}

impl PrometheusQuery {
    /// Sets an explicit Grafana query reference ID.
    pub fn ref_id(self, ref_id: &str) -> (q: Self)
        ensures
            q.expression == self.expression,
            q.format == self.format,
            q.options == (QueryOptions { ref_id: q.options.ref_id, ..self.options }),
            q.options.ref_id matches Some(r) && r@ == ref_id@,
    {
        let options = QueryOptions { ref_id: Some(ref_id.to_string()), ..self.options };
        PrometheusQuery { options, ..self }
    }

    /// Sets the per-series name template Grafana sends to the datasource as
    /// `legendFormat`, for example `"{{status}}"`.
    pub fn legend_format(self, legend_format: &str) -> (q: Self)
        ensures
            q.expression == self.expression,
            q.format == self.format,
            q.options == (QueryOptions { legend_format: q.options.legend_format, ..self.options }),
            q.options.legend_format matches Some(l) && l@ == legend_format@,
    {
        let options = QueryOptions { legend_format: Some(legend_format.to_string()), ..self.options };
        PrometheusQuery { options, ..self }
    }

    /// Requests an instant query rather than a range query; an instant query
    /// also disables range-query behavior.
    pub fn instant(self, instant: bool) -> (q: Self)
        ensures
            q.expression == self.expression,
            q.format == self.format,
            q.options == self.options.with_instant(instant),
    {
        let options = self.options.set_instant(instant);
        PrometheusQuery { options, ..self }
    }

    /// Explicitly enables or disables range-query behavior.
    pub fn range(self, range: bool) -> (q: Self)
        ensures
            q.expression == self.expression,
            q.format == self.format,
            q.options == (QueryOptions { range: Some(range), ..self.options }),
    {
        let options = QueryOptions { range: Some(range), ..self.options };
        PrometheusQuery { options, ..self }
    }

    /// Overrides the panel datasource for this query.
    pub fn datasource(self, datasource: DataSource) -> (q: Self)
        ensures
            q.expression == self.expression,
            q.format == self.format,
            q.options == (QueryOptions { datasource: Some(datasource), ..self.options }),
    {
        let options = QueryOptions { datasource: Some(datasource), ..self.options };
        PrometheusQuery { options, ..self }
    }

    /// Hides the query while retaining it in the dashboard.
    pub fn hidden(self, hidden: bool) -> (q: Self)
        ensures
            q.expression == self.expression,
            q.format == self.format,
            q.options == (QueryOptions { hidden, ..self.options }),
    {
        let options = QueryOptions { hidden, ..self.options };
        PrometheusQuery { options, ..self }
    }

    /// Sets a datasource-specific minimum interval.
    pub fn interval(self, interval: &str) -> (q: Self)
        ensures
            q.expression == self.expression,
            q.format == self.format,
            q.options == (QueryOptions { interval: q.options.interval, ..self.options }),
            q.options.interval matches Some(i) && i@ == interval@,
    {
        let options = QueryOptions { interval: Some(interval.to_string()), ..self.options };
        PrometheusQuery { options, ..self }
    }

    /// Selects Grafana's visual builder or raw code editor.
    pub fn editor_mode(self, editor_mode: QueryEditorMode) -> (q: Self)
        ensures
            q.expression == self.expression,
            q.format == self.format,
            q.options == (QueryOptions { editor_mode: Some(editor_mode), ..self.options }),
    {
        let options = QueryOptions { editor_mode: Some(editor_mode), ..self.options };
        PrometheusQuery { options, ..self }
    }
}

impl LokiQuery {
    /// Sets an explicit Grafana query reference ID.
    pub fn ref_id(self, ref_id: &str) -> (q: Self)
        ensures
            q.expression == self.expression,
            q.options == (QueryOptions { ref_id: q.options.ref_id, ..self.options }),
            q.options.ref_id matches Some(r) && r@ == ref_id@,
    {
        let options = QueryOptions { ref_id: Some(ref_id.to_string()), ..self.options };
        LokiQuery { options, ..self }
    }

    /// Sets the per-series name template Grafana sends to the datasource as
    /// `legendFormat`, for example `"{{status}}"`.
    pub fn legend_format(self, legend_format: &str) -> (q: Self)
        ensures
            q.expression == self.expression,
            q.options == (QueryOptions { legend_format: q.options.legend_format, ..self.options }),
            q.options.legend_format matches Some(l) && l@ == legend_format@,
    {
        let options = QueryOptions { legend_format: Some(legend_format.to_string()), ..self.options };
        LokiQuery { options, ..self }
    }

    /// Requests an instant query rather than a range query; an instant query
    /// also disables range-query behavior.
    pub fn instant(self, instant: bool) -> (q: Self)
        ensures
            q.expression == self.expression,
            q.options == self.options.with_instant(instant),
    {
        let options = self.options.set_instant(instant);
        LokiQuery { options, ..self }
    }

    /// Explicitly enables or disables range-query behavior.
    pub fn range(self, range: bool) -> (q: Self)
        ensures
            q.expression == self.expression,
            q.options == (QueryOptions { range: Some(range), ..self.options }),
    {
        let options = QueryOptions { range: Some(range), ..self.options };
        LokiQuery { options, ..self }
    }

    /// Overrides the panel datasource for this query.
    pub fn datasource(self, datasource: DataSource) -> (q: Self)
        ensures
            q.expression == self.expression,
            q.options == (QueryOptions { datasource: Some(datasource), ..self.options }),
    {
        let options = QueryOptions { datasource: Some(datasource), ..self.options };
        LokiQuery { options, ..self }
    }

    /// Hides the query while retaining it in the dashboard.
    pub fn hidden(self, hidden: bool) -> (q: Self)
        ensures
            q.expression == self.expression,
            q.options == (QueryOptions { hidden, ..self.options }),
    {
        let options = QueryOptions { hidden, ..self.options };
        LokiQuery { options, ..self }
    }

    /// Sets a datasource-specific minimum interval.
    pub fn interval(self, interval: &str) -> (q: Self)
        ensures
            q.expression == self.expression,
            q.options == (QueryOptions { interval: q.options.interval, ..self.options }),
            q.options.interval matches Some(i) && i@ == interval@,
    {
        let options = QueryOptions { interval: Some(interval.to_string()), ..self.options };
        LokiQuery { options, ..self }
    }

    /// Selects Grafana's visual builder or raw code editor.
    pub fn editor_mode(self, editor_mode: QueryEditorMode) -> (q: Self)
        ensures
            q.expression == self.expression,
            q.options == (QueryOptions { editor_mode: Some(editor_mode), ..self.options }),
    {
        let options = QueryOptions { editor_mode: Some(editor_mode), ..self.options };
        LokiQuery { options, ..self }
    }
}

impl RawQuery {
    /// Sets an explicit Grafana query reference ID.
    pub fn ref_id(self, ref_id: &str) -> (q: Self)
        ensures
            q.expression == self.expression,
            q.extra == self.extra,
            q.options == (QueryOptions { ref_id: q.options.ref_id, ..self.options }),
            q.options.ref_id matches Some(r) && r@ == ref_id@,
    {
        let options = QueryOptions { ref_id: Some(ref_id.to_string()), ..self.options };
        RawQuery { options, ..self }
    }

    /// Sets the per-series name template Grafana sends to the datasource as
    /// `legendFormat`, for example `"{{status}}"`.
    pub fn legend_format(self, legend_format: &str) -> (q: Self)
        ensures
            q.expression == self.expression,
            q.extra == self.extra,
            q.options == (QueryOptions { legend_format: q.options.legend_format, ..self.options }),
            q.options.legend_format matches Some(l) && l@ == legend_format@,
    {
        let options = QueryOptions { legend_format: Some(legend_format.to_string()), ..self.options };
        RawQuery { options, ..self }
    }

    /// Requests an instant query rather than a range query; an instant query
    /// also disables range-query behavior.
    pub fn instant(self, instant: bool) -> (q: Self)
        ensures
            q.expression == self.expression,
            q.extra == self.extra,
            q.options == self.options.with_instant(instant),
    {
        let options = self.options.set_instant(instant);
        RawQuery { options, ..self }
    }

    /// Explicitly enables or disables range-query behavior.
    pub fn range(self, range: bool) -> (q: Self)
        ensures
            q.expression == self.expression,
            q.extra == self.extra,
            q.options == (QueryOptions { range: Some(range), ..self.options }),
    {
        let options = QueryOptions { range: Some(range), ..self.options };
        RawQuery { options, ..self }
    }

    /// Overrides the panel datasource for this query.
    pub fn datasource(self, datasource: DataSource) -> (q: Self)
        ensures
            q.expression == self.expression,
            q.extra == self.extra,
            q.options == (QueryOptions { datasource: Some(datasource), ..self.options }),
    {
        let options = QueryOptions { datasource: Some(datasource), ..self.options };
        RawQuery { options, ..self }
    }

    /// Hides the query while retaining it in the dashboard.
    pub fn hidden(self, hidden: bool) -> (q: Self)
        ensures
            q.expression == self.expression,
            q.extra == self.extra,
            q.options == (QueryOptions { hidden, ..self.options }),
    {
        let options = QueryOptions { hidden, ..self.options };
        RawQuery { options, ..self }
    }

    /// Sets a datasource-specific minimum interval.
    pub fn interval(self, interval: &str) -> (q: Self)
        ensures
            q.expression == self.expression,
            q.extra == self.extra,
            q.options == (QueryOptions { interval: q.options.interval, ..self.options }),
            q.options.interval matches Some(i) && i@ == interval@,
    {
        let options = QueryOptions { interval: Some(interval.to_string()), ..self.options };
        RawQuery { options, ..self }
    }

    /// Selects Grafana's visual builder or raw code editor.
    pub fn editor_mode(self, editor_mode: QueryEditorMode) -> (q: Self)
        ensures
            q.expression == self.expression,
            q.extra == self.extra,
            q.options == (QueryOptions { editor_mode: Some(editor_mode), ..self.options }),
    {
        let options = QueryOptions { editor_mode: Some(editor_mode), ..self.options };
        RawQuery { options, ..self }
    }
}

/// A datasource query accepted by any data-backed panel.
#[derive(Debug, PartialEq)]
#[non_exhaustive]
pub enum Query {
    /// Prometheus/PromQL target.
    Prometheus(PrometheusQuery),
    /// Loki/LogQL target.
    Loki(LokiQuery),
    /// Explicit escape hatch for another datasource target.
    Raw(RawQuery),
}

impl Query {
    pub open spec fn spec_expression(self) -> String {
        match self {
            Query::Prometheus(q) => q.expression,
            Query::Loki(q) => q.expression,
            Query::Raw(q) => q.expression,
        }
    }

    pub open spec fn spec_options(self) -> QueryOptions {
        match self {
            Query::Prometheus(q) => q.options,
            Query::Loki(q) => q.options,
            Query::Raw(q) => q.options,
        }
    }

    /// The query with its shared options replaced.
    pub open spec fn with_options(self, options: QueryOptions) -> Query {
        match self {
            Query::Prometheus(q) => Query::Prometheus(PrometheusQuery { options, ..q }),
            Query::Loki(q) => Query::Loki(LokiQuery { options, ..q }),
            Query::Raw(q) => Query::Raw(RawQuery { options, ..q }),
        }
    }

    /// The query's expression.
    pub fn expression(&self) -> (e: &String)
        ensures
            *e == self.spec_expression(),
    {
        match self {
            Query::Prometheus(q) => &q.expression,
            Query::Loki(q) => &q.expression,
            Query::Raw(q) => &q.expression,
        }
    }

    /// The query's shared options.
    pub fn options(&self) -> (o: &QueryOptions)
        ensures
            *o == self.spec_options(),
    {
        match self {
            Query::Prometheus(q) => &q.options,
            Query::Loki(q) => &q.options,
            Query::Raw(q) => &q.options,
        }
    }

    /// Replaces the query's shared options.
    pub fn set_options(self, options: QueryOptions) -> (q: Query)
        ensures
            q == self.with_options(options),
    {
        match self {
            Query::Prometheus(q) => Query::Prometheus(PrometheusQuery { options, ..q }),
            Query::Loki(q) => Query::Loki(LokiQuery { options, ..q }),
            Query::Raw(q) => Query::Raw(RawQuery { options, ..q }),
        }
    }

    /// The Prometheus response format, for Prometheus queries that set one.
    pub open spec fn spec_prometheus_format(self) -> Option<PrometheusFormat> {
        match self {
            Query::Prometheus(q) => q.format,
            _ => None,
        }
    }

    pub fn prometheus_format(&self) -> (f: Option<PrometheusFormat>)
        ensures
            f == self.spec_prometheus_format(),
    {
        match self {
            Query::Prometheus(q) => q.format,
            _ => None,
        }
    }
}

/// A value that can be added as a datasource query.
pub trait IntoQuery: Sized {
    spec fn spec_query(self) -> Query;

    fn into_query(self) -> (q: Query)
        ensures
            q == self.spec_query(),
    ;
}

impl IntoQuery for Query {
    open spec fn spec_query(self) -> Query {
        self
    }

    fn into_query(self) -> (q: Query) {
        self
    }
}

impl IntoQuery for PrometheusQuery {
    open spec fn spec_query(self) -> Query {
        Query::Prometheus(self)
    }

    fn into_query(self) -> (q: Query) {
        Query::Prometheus(self)
    }
}

impl IntoQuery for LokiQuery {
    open spec fn spec_query(self) -> Query {
        Query::Loki(self)
    }

    fn into_query(self) -> (q: Query) {
        Query::Loki(self)
    }
}

impl IntoQuery for RawQuery {
    open spec fn spec_query(self) -> Query {
        Query::Raw(self)
    }

    fn into_query(self) -> (q: Query) {
        Query::Raw(self)
    }
}

} // verus!
