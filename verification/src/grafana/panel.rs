//! Panel and row lowering.
//!
//! A panel's `options` are assembled in three ordered layers, each free to
//! overwrite a key the previous layer set: the kind's defaults, the typed
//! options set through kind-specific builder methods, then the raw
//! `option` escape hatch, which therefore always wins.
use vstd::prelude::*;

use crate::dashboard::Row;
use crate::datasource::DataSource;
use crate::field::{unit_name, Legend, LegendMode, LegendPlacement};
use crate::grafana::field::{field_config_v, normalize_field_config};
use crate::grafana::query::{
    effective_refs, lemma_target_datasource, lemma_targets_index, normalize_targets, targets_v,
};
use crate::grafana::transform::{normalize_transformation, transformation_v};
use crate::grafana::wire::{
    datasource_json, datasource_v, grid_json, grid_v, inherit, ins_opt, links_json, links_v,
    opt_datasource_v, push_opt,
};
use crate::heatmap::{heatmap_color_scheme_name, HeatmapColorMode, HeatmapOptions};
use crate::json::{
    entry_of, lemma_lookup_push, raw_map, ArrayBuilder, DictBuilder, Json, JsonV, ObjectBuilder,
};
use crate::panel::{plugin_id, text_mode_name, GridPos, Panel, PanelKind, PanelOptions, TextMode};
use crate::table::TableSort;
use crate::transformation::Transformation;
use crate::visualization::{
    axis_placement_name, bar_gauge_display_mode_name, orientation_name, reducer_name,
    stat_color_mode_name, stat_graph_mode_name, tooltip_mode_name, tooltip_sort_name,
    AxisPlacement, ReduceOptions, Reducer, Tooltip,
};

verus! {

// ---------------------------------------------------------------------------
// Option values
// ---------------------------------------------------------------------------

/// Reducers by their Grafana names.
pub open spec fn reducers_v(calcs: Seq<Reducer>) -> Seq<JsonV>
    decreases calcs.len(),
{
    if calcs.len() == 0 {
        Seq::empty()
    } else {
        reducers_v(calcs.drop_last()).push(JsonV::Str(reducer_name(calcs.last())))
    }
}

fn reducers_json(calcs: &Vec<Reducer>) -> (j: Json)
    ensures
        j@ == JsonV::Array(reducers_v(calcs@)),
{
    let mut a = ArrayBuilder::new();
    let mut i: usize = 0;
    while i < calcs.len()
        invariant
            i <= calcs@.len(),
            a.items_v() == reducers_v(calcs@.take(i as int)),
        decreases calcs@.len() - i,
    {
        a.push(Json::str(calcs[i].as_grafana()));
        proof {
            assert(calcs@.take(i + 1).drop_last() =~= calcs@.take(i as int));
        }
        i += 1;
    }
    proof {
        assert(calcs@.take(calcs@.len() as int) =~= calcs@);
    }
    a.finish()
}

/// Reduce options as Grafana stores them.
pub open spec fn reduce_options_v(r: ReduceOptions) -> JsonV {
    JsonV::Dict(
        Map::empty().insert("values"@, JsonV::Bool(r.values)).insert(
            "calcs"@,
            JsonV::Array(reducers_v(r.calculations@)),
        ).insert("fields"@, JsonV::Str(r.fields@)),
    )
}

/// The reduce options a stat, gauge or bar gauge starts with.
pub open spec fn default_reduce_v() -> JsonV {
    JsonV::Dict(
        Map::empty().insert("values"@, JsonV::Bool(false)).insert(
            "calcs"@,
            JsonV::Array(seq![JsonV::Str("lastNotNull"@)]),
        ).insert("fields"@, JsonV::Str(Seq::empty())),
    )
}

fn reduce_options_value(r: &ReduceOptions) -> (j: Json)
    ensures
        j@ == reduce_options_v(*r),
{
    let mut d = DictBuilder::new();
    d.insert("values", Json::Bool(r.values));
    d.insert("calcs", reducers_json(&r.calculations));
    d.insert("fields", Json::string(&r.fields));
    d.finish()
}

fn default_reduce_json() -> (j: Json)
    ensures
        j@ == default_reduce_v(),
{
    let mut calcs = ArrayBuilder::new();
    calcs.push(Json::str("lastNotNull"));
    let mut d = DictBuilder::new();
    d.insert("values", Json::Bool(false));
    d.insert("calcs", calcs.finish());
    d.insert("fields", Json::Str(String::new()));
    d.finish()
}

/// A tooltip as Grafana stores it.
pub open spec fn tooltip_v(t: Tooltip) -> JsonV {
    JsonV::Dict(
        Map::empty().insert("mode"@, JsonV::Str(tooltip_mode_name(t.mode))).insert(
            "sort"@,
            JsonV::Str(tooltip_sort_name(t.sort)),
        ).insert("hideZeros"@, JsonV::Bool(t.hide_zeros)),
    )
}

fn tooltip_value(t: Tooltip) -> (j: Json)
    ensures
        j@ == tooltip_v(t),
{
    let mut d = DictBuilder::new();
    d.insert("mode", Json::str(t.mode.as_grafana()));
    d.insert("sort", Json::str(t.sort.as_grafana()));
    d.insert("hideZeros", Json::Bool(t.hide_zeros));
    d.finish()
}

/// A legend as Grafana stores it; a hidden legend is a list with
/// `showLegend` off.
pub open spec fn legend_fields_v(
    mode: LegendMode,
    placement: LegendPlacement,
    calcs: Seq<JsonV>,
) -> JsonV {
    JsonV::Dict(
        Map::empty().insert("showLegend"@, JsonV::Bool(mode != LegendMode::Hidden)).insert(
            "displayMode"@,
            JsonV::Str(
                if mode == LegendMode::Table {
                    "table"@
                } else {
                    "list"@
                },
            ),
        ).insert(
            "placement"@,
            JsonV::Str(
                if placement == LegendPlacement::Right {
                    "right"@
                } else {
                    "bottom"@
                },
            ),
        ).insert("calcs"@, JsonV::Array(calcs)),
    )
}

/// The legend of a panel: the authored one, else the default list legend
/// at the bottom with no calculations.
pub open spec fn legend_v(legend: Option<Legend>) -> JsonV {
    match legend {
        Some(l) => legend_fields_v(l.mode, l.placement, reducers_v(l.calculations@)),
        None => legend_fields_v(LegendMode::List, LegendPlacement::Bottom, Seq::empty()),
    }
}

fn legend_fields_json(mode: LegendMode, placement: LegendPlacement, calcs: Json) -> (j: Json)
    requires
        calcs@ is Array,
    ensures
        j@ == legend_fields_v(mode, placement, calcs@->Array_0),
{
    let mut d = DictBuilder::new();
    match mode {
        LegendMode::Hidden => d.insert("showLegend", Json::Bool(false)),
        _ => d.insert("showLegend", Json::Bool(true)),
    }
    match mode {
        LegendMode::Table => d.insert("displayMode", Json::str("table")),
        _ => d.insert("displayMode", Json::str("list")),
    }
    match placement {
        LegendPlacement::Right => d.insert("placement", Json::str("right")),
        LegendPlacement::Bottom => d.insert("placement", Json::str("bottom")),
    }
    d.insert("calcs", calcs);
    d.finish()
}

fn legend_value(legend: &Option<Legend>) -> (j: Json)
    ensures
        j@ == legend_v(*legend),
{
    match legend {
        Some(l) => legend_fields_json(l.mode, l.placement, reducers_json(&l.calculations)),
        None => legend_fields_json(
            LegendMode::List,
            LegendPlacement::Bottom,
            ArrayBuilder::new().finish(),
        ),
    }
}

// ---------------------------------------------------------------------------
// Panel options
// ---------------------------------------------------------------------------

/// The options every panel of a kind starts with.
pub open spec fn default_panel_options_v(kind: PanelKind, text: Option<(TextMode, String)>) -> Map<
    Seq<char>,
    JsonV,
> {
    match kind {
        PanelKind::Timeseries => Map::empty().insert("legend"@, legend_v(None)).insert(
            "tooltip"@,
            JsonV::Dict(
                Map::empty().insert("mode"@, JsonV::Str("single"@)).insert(
                    "sort"@,
                    JsonV::Str("none"@),
                ).insert("hideZeros"@, JsonV::Bool(false)),
            ),
        ),
        PanelKind::Stat => Map::empty().insert("colorMode"@, JsonV::Str("value"@)).insert(
            "graphMode"@,
            JsonV::Str("area"@),
        ).insert("justifyMode"@, JsonV::Str("auto"@)).insert(
            "orientation"@,
            JsonV::Str("auto"@),
        ).insert("reduceOptions"@, default_reduce_v()).insert("textMode"@, JsonV::Str("auto"@)),
        PanelKind::Gauge => Map::empty().insert("orientation"@, JsonV::Str("auto"@)).insert(
            "reduceOptions"@,
            default_reduce_v(),
        ).insert("showThresholdLabels"@, JsonV::Bool(false)).insert(
            "showThresholdMarkers"@,
            JsonV::Bool(true),
        ),
        PanelKind::Table => Map::empty().insert("cellHeight"@, JsonV::Str("sm"@)).insert(
            "showHeader"@,
            JsonV::Bool(true),
        ),
        PanelKind::Text => match text {
            Some((mode, content)) => Map::empty().insert("content"@, JsonV::Str(content@)).insert(
                "mode"@,
                JsonV::Str(text_mode_name(mode)),
            ),
            None => Map::empty().insert("content"@, JsonV::Str(Seq::empty())).insert(
                "mode"@,
                JsonV::Str("markdown"@),
            ),
        },
        PanelKind::BarGauge => Map::empty().insert("displayMode"@, JsonV::Str("gradient"@)).insert(
            "orientation"@,
            JsonV::Str("horizontal"@),
        ).insert("reduceOptions"@, default_reduce_v()).insert(
            "showUnfilled"@,
            JsonV::Bool(true),
        ),
        PanelKind::Heatmap => Map::empty().insert("calculate"@, JsonV::Bool(false)).insert(
            "cellGap"@,
            JsonV::UInt(1),
        ).insert(
            "color"@,
            JsonV::Dict(
                Map::empty().insert("mode"@, JsonV::Str("scheme"@)).insert(
                    "scheme"@,
                    JsonV::Str("Oranges"@),
                ).insert("steps"@, JsonV::UInt(64)),
            ),
        ).insert("legend"@, JsonV::Dict(Map::empty().insert("show"@, JsonV::Bool(true)))).insert(
            "yAxis"@,
            JsonV::Dict(Map::empty().insert("axisPlacement"@, JsonV::Str("left"@))),
        ),
        PanelKind::Raw(_) => Map::empty(),
    }
}

fn default_panel_options(kind: &PanelKind, text: &Option<(TextMode, String)>, d: &mut DictBuilder)
    requires
        old(d).map_v() == Map::<Seq<char>, JsonV>::empty(),
    ensures
        final(d).map_v() == default_panel_options_v(*kind, *text),
{
    match kind {
        PanelKind::Timeseries => {
            d.insert("legend", legend_value(&None));
            let mut t = DictBuilder::new();
            t.insert("mode", Json::str("single"));
            t.insert("sort", Json::str("none"));
            t.insert("hideZeros", Json::Bool(false));
            d.insert("tooltip", t.finish());
        },
        PanelKind::Stat => {
            d.insert("colorMode", Json::str("value"));
            d.insert("graphMode", Json::str("area"));
            d.insert("justifyMode", Json::str("auto"));
            d.insert("orientation", Json::str("auto"));
            d.insert("reduceOptions", default_reduce_json());
            d.insert("textMode", Json::str("auto"));
        },
        PanelKind::Gauge => {
            d.insert("orientation", Json::str("auto"));
            d.insert("reduceOptions", default_reduce_json());
            d.insert("showThresholdLabels", Json::Bool(false));
            d.insert("showThresholdMarkers", Json::Bool(true));
        },
        PanelKind::Table => {
            d.insert("cellHeight", Json::str("sm"));
            d.insert("showHeader", Json::Bool(true));
        },
        PanelKind::Text => match text {
            Some((mode, content)) => {
                d.insert("content", Json::string(content));
                d.insert("mode", Json::str(mode.as_grafana()));
            },
            None => {
                d.insert("content", Json::Str(String::new()));
                d.insert("mode", Json::str("markdown"));
            },
        },
        PanelKind::BarGauge => {
            d.insert("displayMode", Json::str("gradient"));
            d.insert("orientation", Json::str("horizontal"));
            d.insert("reduceOptions", default_reduce_json());
            d.insert("showUnfilled", Json::Bool(true));
        },
        PanelKind::Heatmap => {
            d.insert("calculate", Json::Bool(false));
            d.insert("cellGap", Json::UInt(1));
            let mut c = DictBuilder::new();
            c.insert("mode", Json::str("scheme"));
            c.insert("scheme", Json::str("Oranges"));
            c.insert("steps", Json::UInt(64));
            d.insert("color", c.finish());
            let mut l = DictBuilder::new();
            l.insert("show", Json::Bool(true));
            d.insert("legend", l.finish());
            let mut y = DictBuilder::new();
            y.insert("axisPlacement", Json::str("left"));
            d.insert("yAxis", y.finish());
        },
        PanelKind::Raw(_) => {},
    }
}

pub open spec fn heatmap_color_mode_name(mode: HeatmapColorMode) -> Seq<char> {
    match mode {
        HeatmapColorMode::Scheme => "scheme"@,
        HeatmapColorMode::Opacity => "opacity"@,
    }
}

/// The typed heatmap options; `color` and `yAxis` are rebuilt whole from
/// the kind's defaults, filling in only what was set.
pub open spec fn heatmap_options_v(h: HeatmapOptions) -> Map<Seq<char>, JsonV> {
    let m = Map::empty();
    let m = if h.color_scheme is Some || h.color_steps is Some || h.color_mode is Some {
        m.insert(
            "color"@,
            JsonV::Dict(
                Map::empty().insert(
                    "mode"@,
                    JsonV::Str(
                        heatmap_color_mode_name(
                            match h.color_mode {
                                Some(mode) => mode,
                                None => HeatmapColorMode::Scheme,
                            },
                        ),
                    ),
                ).insert(
                    "scheme"@,
                    JsonV::Str(
                        match h.color_scheme {
                            Some(s) => heatmap_color_scheme_name(s),
                            None => "Oranges"@,
                        },
                    ),
                ).insert(
                    "steps"@,
                    JsonV::UInt(
                        match h.color_steps {
                            Some(n) => n as u64,
                            None => 64,
                        },
                    ),
                ),
            ),
        )
    } else {
        m
    };
    let m = ins_opt(m, "cellGap"@, match h.cell_gap {
        Some(g) => Some(JsonV::UInt(g as u64)),
        None => None,
    });
    let m = ins_opt(m, "legend"@, match h.legend {
        Some(show) => Some(JsonV::Dict(Map::empty().insert("show"@, JsonV::Bool(show)))),
        None => None,
    });
    let m = if h.y_axis_unit is Some || h.y_axis_placement is Some {
        m.insert(
            "yAxis"@,
            JsonV::Dict(
                ins_opt(
                    Map::empty().insert(
                        "axisPlacement"@,
                        JsonV::Str(
                            axis_placement_name(
                                match h.y_axis_placement {
                                    Some(p) => p,
                                    None => AxisPlacement::Left,
                                },
                            ),
                        ),
                    ),
                    "unit"@,
                    match h.y_axis_unit {
                        Some(u) => Some(JsonV::Str(unit_name(u))),
                        None => None,
                    },
                ),
            ),
        )
    } else {
        m
    };
    ins_opt(m, "calculate"@, match h.calculate {
        Some(b) => Some(JsonV::Bool(b)),
        None => None,
    })
}

/// Table sort entries as Grafana stores them.
pub open spec fn table_sorts_v(sorts: Seq<TableSort>) -> Seq<JsonV>
    decreases sorts.len(),
{
    if sorts.len() == 0 {
        Seq::empty()
    } else {
        table_sorts_v(sorts.drop_last()).push(
            JsonV::Dict(
                Map::empty().insert("displayName"@, JsonV::Str(sorts.last().field@)).insert(
                    "desc"@,
                    JsonV::Bool(sorts.last().descending),
                ),
            ),
        )
    }
}

/// The options set through a panel's typed builder methods.
pub open spec fn typed_panel_options_v(options: PanelOptions) -> Map<Seq<char>, JsonV> {
    match options {
        PanelOptions::Untyped => Map::empty(),
        PanelOptions::Stat(s) => {
            let m = ins_opt(Map::empty(), "colorMode"@, match s.color_mode {
                Some(v) => Some(JsonV::Str(stat_color_mode_name(v))),
                None => None,
            });
            let m = ins_opt(m, "graphMode"@, match s.graph_mode {
                Some(v) => Some(JsonV::Str(stat_graph_mode_name(v))),
                None => None,
            });
            let m = ins_opt(m, "orientation"@, match s.orientation {
                Some(v) => Some(JsonV::Str(orientation_name(v))),
                None => None,
            });
            let m = ins_opt(m, "wideLayout"@, match s.wide_layout {
                Some(b) => Some(JsonV::Bool(b)),
                None => None,
            });
            ins_opt(m, "reduceOptions"@, match s.reduce {
                Some(r) => Some(reduce_options_v(r)),
                None => None,
            })
        },
        PanelOptions::Gauge(g) => {
            let m = ins_opt(Map::empty(), "orientation"@, match g.orientation {
                Some(v) => Some(JsonV::Str(orientation_name(v))),
                None => None,
            });
            ins_opt(m, "reduceOptions"@, match g.reduce {
                Some(r) => Some(reduce_options_v(r)),
                None => None,
            })
        },
        PanelOptions::BarGauge(b) => {
            let m = ins_opt(Map::empty(), "displayMode"@, match b.display_mode {
                Some(v) => Some(JsonV::Str(bar_gauge_display_mode_name(v))),
                None => None,
            });
            let m = ins_opt(m, "orientation"@, match b.orientation {
                Some(v) => Some(JsonV::Str(orientation_name(v))),
                None => None,
            });
            ins_opt(m, "reduceOptions"@, match b.reduce {
                Some(r) => Some(reduce_options_v(r)),
                None => None,
            })
        },
        PanelOptions::Timeseries(t) => {
            let m = ins_opt(Map::empty(), "tooltip"@, match t.tooltip {
                Some(v) => Some(tooltip_v(v)),
                None => None,
            });
            match t.legend {
                Some(l) => m.insert("legend"@, legend_v(Some(l))),
                None => m,
            }
        },
        PanelOptions::Table(t) => if t.sort_by@.len() > 0 {
            Map::empty().insert("sortBy"@, JsonV::Array(table_sorts_v(t.sort_by@)))
        } else {
            Map::empty()
        },
        PanelOptions::Heatmap(h) => heatmap_options_v(h),
    }
}

fn heatmap_options_value(h: &HeatmapOptions, d: &mut DictBuilder)
    requires
        old(d).map_v() == Map::<Seq<char>, JsonV>::empty(),
    ensures
        final(d).map_v() == heatmap_options_v(*h),
{
    if h.color_scheme.is_some() || h.color_steps.is_some() || h.color_mode.is_some() {
        let mut c = DictBuilder::new();
        match h.color_mode {
            Some(HeatmapColorMode::Opacity) => c.insert("mode", Json::str("opacity")),
            _ => c.insert("mode", Json::str("scheme")),
        }
        match &h.color_scheme {
            Some(s) => c.insert("scheme", Json::str(s.as_grafana())),
            None => c.insert("scheme", Json::str("Oranges")),
        }
        match h.color_steps {
            Some(n) => c.insert("steps", Json::UInt(n as u64)),
            None => c.insert("steps", Json::UInt(64)),
        }
        d.insert("color", c.finish());
    }
    if let Some(g) = h.cell_gap {
        d.insert("cellGap", Json::UInt(g as u64));
    }
    if let Some(show) = h.legend {
        let mut l = DictBuilder::new();
        l.insert("show", Json::Bool(show));
        d.insert("legend", l.finish());
    }
    if h.y_axis_unit.is_some() || h.y_axis_placement.is_some() {
        let mut y = DictBuilder::new();
        match h.y_axis_placement {
            Some(p) => y.insert("axisPlacement", Json::str(p.as_grafana())),
            None => y.insert("axisPlacement", Json::str(AxisPlacement::Left.as_grafana())),
        }
        if let Some(u) = &h.y_axis_unit {
            y.insert("unit", Json::str(u.as_grafana()));
        }
        d.insert("yAxis", y.finish());
    }
    if let Some(b) = h.calculate {
        d.insert("calculate", Json::Bool(b));
    }
}

fn table_sorts_json(sorts: &Vec<TableSort>) -> (j: Json)
    ensures
        j@ == JsonV::Array(table_sorts_v(sorts@)),
{
    let mut a = ArrayBuilder::new();
    let mut i: usize = 0;
    while i < sorts.len()
        invariant
            i <= sorts@.len(),
            a.items_v() == table_sorts_v(sorts@.take(i as int)),
        decreases sorts@.len() - i,
    {
        let mut d = DictBuilder::new();
        d.insert("displayName", Json::string(&sorts[i].field));
        d.insert("desc", Json::Bool(sorts[i].descending));
        a.push(d.finish());
        proof {
            assert(sorts@.take(i + 1).drop_last() =~= sorts@.take(i as int));
        }
        i += 1;
    }
    proof {
        assert(sorts@.take(sorts@.len() as int) =~= sorts@);
    }
    a.finish()
}

fn typed_panel_options(options: &PanelOptions, d: &mut DictBuilder)
    requires
        old(d).map_v() == Map::<Seq<char>, JsonV>::empty(),
    ensures
        final(d).map_v() == typed_panel_options_v(*options),
{
    match options {
        PanelOptions::Untyped => {},
        PanelOptions::Stat(s) => {
            if let Some(v) = s.color_mode {
                d.insert("colorMode", Json::str(v.as_grafana()));
            }
            if let Some(v) = s.graph_mode {
                d.insert("graphMode", Json::str(v.as_grafana()));
            }
            if let Some(v) = s.orientation {
                d.insert("orientation", Json::str(v.as_grafana()));
            }
            if let Some(b) = s.wide_layout {
                d.insert("wideLayout", Json::Bool(b));
            }
            if let Some(r) = &s.reduce {
                d.insert("reduceOptions", reduce_options_value(r));
            }
        },
        PanelOptions::Gauge(g) => {
            if let Some(v) = g.orientation {
                d.insert("orientation", Json::str(v.as_grafana()));
            }
            if let Some(r) = &g.reduce {
                d.insert("reduceOptions", reduce_options_value(r));
            }
        },
        PanelOptions::BarGauge(b) => {
            if let Some(v) = b.display_mode {
                d.insert("displayMode", Json::str(v.as_grafana()));
            }
            if let Some(v) = b.orientation {
                d.insert("orientation", Json::str(v.as_grafana()));
            }
            if let Some(r) = &b.reduce {
                d.insert("reduceOptions", reduce_options_value(r));
            }
        },
        PanelOptions::Timeseries(t) => {
            if let Some(v) = t.tooltip {
                d.insert("tooltip", tooltip_value(v));
            }
            match &t.legend {
                Some(l) => {
                    let legend = legend_fields_json(
                        l.mode,
                        l.placement,
                        reducers_json(&l.calculations),
                    );
                    d.insert("legend", legend);
                },
                None => {},
            }
        },
        PanelOptions::Table(t) => {
            if t.sort_by.len() > 0 {
                d.insert("sortBy", table_sorts_json(&t.sort_by));
            }
        },
        PanelOptions::Heatmap(h) => heatmap_options_value(h, d),
    }
}

/// A panel's `options`: kind defaults, then typed options, then raw options,
/// each layer overwriting the keys it sets.
pub open spec fn panel_options_v(p: Panel) -> Map<Seq<char>, JsonV> {
    default_panel_options_v(p.kind, p.text).union_prefer_right(
        typed_panel_options_v(p.kind_options),
    ).union_prefer_right(raw_map(p.raw_options@))
}

/// Raw options always win: each key set through the escape hatch has the
/// value given there, whatever the kind defaults and typed options say.
pub proof fn lemma_raw_options_win(p: Panel, key: Seq<char>)
    requires
        raw_map(p.raw_options@).dom().contains(key),
    ensures
        panel_options_v(p)[key] == raw_map(p.raw_options@)[key],
{
}

/// Typed options win over kind defaults: a key that a typed option sets and
/// no raw option overrides has the typed value.
pub proof fn lemma_typed_options_win(p: Panel, key: Seq<char>)
    requires
        typed_panel_options_v(p.kind_options).dom().contains(key),
        !raw_map(p.raw_options@).dom().contains(key),
    ensures
        panel_options_v(p)[key] == typed_panel_options_v(p.kind_options)[key],
{
}

// ---------------------------------------------------------------------------
// Panels and rows
// ---------------------------------------------------------------------------

/// The lowered transformations, in order.
pub open spec fn transformations_v(ts: Seq<Transformation>) -> Seq<JsonV>
    decreases ts.len(),
{
    if ts.len() == 0 {
        Seq::empty()
    } else {
        transformations_v(ts.drop_last()).push(transformation_v(ts.last()))
    }
}

/// A panel as Grafana stores it, with the ID and position layout gave it
/// and the dashboard's datasource as fallback: empty lists and unset
/// settings are left out, and the panel's extra keys are merged in.
pub open spec fn panel_v(p: Panel, id: u32, grid: GridPos, default_ds: Option<DataSource>) -> JsonV {
    let ds = inherit(p.datasource, default_ds);
    let e = Seq::empty().push(("id"@, JsonV::UInt(id as u64))).push(
        ("type"@, JsonV::Str(plugin_id(p.kind))),
    ).push(("title"@, JsonV::Str(p.title@)));
    let e = push_opt(e, "description"@, match p.description {
        Some(d) => Some(JsonV::Str(d@)),
        None => None,
    });
    let e = e.push(("gridPos"@, grid_v(grid)));
    let e = push_opt(e, "datasource"@, opt_datasource_v(ds));
    let e = if p.queries@.len() > 0 {
        e.push(("targets"@, JsonV::Array(targets_v(p.queries@, effective_refs(p.queries@), ds))))
    } else {
        e
    };
    let e = if p.transformations@.len() > 0 {
        e.push(("transformations"@, JsonV::Array(transformations_v(p.transformations@))))
    } else {
        e
    };
    let e = e.push(("fieldConfig"@, field_config_v(p.field_config, p.kind, p.kind_options))).push(
        ("options"@, JsonV::Dict(panel_options_v(p))),
    );
    let e = if p.transparent {
        e.push(("transparent"@, JsonV::Bool(true)))
    } else {
        e
    };
    let e = if p.links@.len() > 0 {
        e.push(("links"@, JsonV::Array(links_v(p.links@))))
    } else {
        e
    };
    JsonV::Object(e, raw_map(p.extra@))
}

/// A panel's own datasource wins over the dashboard's: the lowered panel
/// names its own datasource when it sets one, else the dashboard's, else
/// none; and the target of each query without a datasource of its own names
/// that same datasource.
pub proof fn lemma_panel_datasource(p: Panel, id: u32, grid: GridPos, default_ds: Option<DataSource>)
    ensures
        ({
            let j = panel_v(p, id, grid, default_ds);
            let expected = match p.datasource {
                Some(d) => Some(datasource_v(d)),
                None => match default_ds {
                    Some(d) => Some(datasource_v(d)),
                    None => None,
                },
            };
            &&& entry_of(j, "datasource"@) == expected
            &&& p.queries@.len() > 0 ==> {
                &&& entry_of(j, "targets"@) is Some
                &&& entry_of(j, "targets"@)->0 is Array
                &&& entry_of(j, "targets"@)->0->Array_0.len() == p.queries@.len()
                &&& forall|i: int|
                    0 <= i < p.queries@.len() && p.queries@[i].spec_options().datasource is None
                        ==> entry_of(
                        #[trigger] entry_of(j, "targets"@)->0->Array_0[i],
                        "datasource"@,
                    ) == expected
            }
        }),
{
    reveal_strlit("id");
    reveal_strlit("type");
    reveal_strlit("title");
    reveal_strlit("description");
    reveal_strlit("gridPos");
    reveal_strlit("datasource");
    reveal_strlit("targets");
    reveal_strlit("transformations");
    reveal_strlit("fieldConfig");
    reveal_strlit("options");
    reveal_strlit("transparent");
    reveal_strlit("links");
    let dk = "datasource"@;
    let tk = "targets"@;
    let ds: Option<DataSource> = inherit(p.datasource, default_ds);
    let e0 = Seq::<(Seq<char>, JsonV)>::empty();
    let e1 = e0.push(("id"@, JsonV::UInt(id as u64)));
    let e2 = e1.push(("type"@, JsonV::Str(plugin_id(p.kind))));
    let e3 = e2.push(("title"@, JsonV::Str(p.title@)));
    assert(e0.len() == 0);
    lemma_lookup_push(e0, "id"@, JsonV::UInt(id as u64), dk);
    lemma_lookup_push(e0, "id"@, JsonV::UInt(id as u64), tk);
    lemma_lookup_push(e1, "type"@, JsonV::Str(plugin_id(p.kind)), dk);
    lemma_lookup_push(e1, "type"@, JsonV::Str(plugin_id(p.kind)), tk);
    lemma_lookup_push(e2, "title"@, JsonV::Str(p.title@), dk);
    lemma_lookup_push(e2, "title"@, JsonV::Str(p.title@), tk);
    let dv = match p.description {
        Some(d) => Some(JsonV::Str(d@)),
        None => None,
    };
    let e4 = push_opt(e3, "description"@, dv);
    if let Some(v) = dv {
        lemma_lookup_push(e3, "description"@, v, dk);
        lemma_lookup_push(e3, "description"@, v, tk);
    }
    let e5 = e4.push(("gridPos"@, grid_v(grid)));
    lemma_lookup_push(e4, "gridPos"@, grid_v(grid), dk);
    lemma_lookup_push(e4, "gridPos"@, grid_v(grid), tk);
    let e6 = push_opt(e5, dk, opt_datasource_v(ds));
    if let Some(v) = opt_datasource_v(ds) {
        lemma_lookup_push(e5, dk, v, dk);
        lemma_lookup_push(e5, dk, v, tk);
    }
    let ts = targets_v(p.queries@, effective_refs(p.queries@), ds);
    let e7 = if p.queries@.len() > 0 {
        e6.push((tk, JsonV::Array(ts)))
    } else {
        e6
    };
    lemma_lookup_push(e6, tk, JsonV::Array(ts), dk);
    lemma_lookup_push(e6, tk, JsonV::Array(ts), tk);
    let tv = JsonV::Array(transformations_v(p.transformations@));
    let e8 = if p.transformations@.len() > 0 {
        e7.push(("transformations"@, tv))
    } else {
        e7
    };
    lemma_lookup_push(e7, "transformations"@, tv, dk);
    lemma_lookup_push(e7, "transformations"@, tv, tk);
    let fc = field_config_v(p.field_config, p.kind, p.kind_options);
    let ov = JsonV::Dict(panel_options_v(p));
    let e9 = e8.push(("fieldConfig"@, fc));
    lemma_lookup_push(e8, "fieldConfig"@, fc, dk);
    lemma_lookup_push(e8, "fieldConfig"@, fc, tk);
    let e10 = e9.push(("options"@, ov));
    lemma_lookup_push(e9, "options"@, ov, dk);
    lemma_lookup_push(e9, "options"@, ov, tk);
    let e11 = if p.transparent {
        e10.push(("transparent"@, JsonV::Bool(true)))
    } else {
        e10
    };
    lemma_lookup_push(e10, "transparent"@, JsonV::Bool(true), dk);
    lemma_lookup_push(e10, "transparent"@, JsonV::Bool(true), tk);
    let lv = JsonV::Array(links_v(p.links@));
    let e12 = if p.links@.len() > 0 {
        e11.push(("links"@, lv))
    } else {
        e11
    };
    lemma_lookup_push(e11, "links"@, lv, dk);
    lemma_lookup_push(e11, "links"@, lv, tk);
    assert(panel_v(p, id, grid, default_ds) == JsonV::Object(e12, raw_map(p.extra@)));
    assert(dk != tk && "id"@ != dk && "id"@ != tk && "type"@ != dk && "type"@ != tk && "title"@
        != dk && "title"@ != tk) by {
        assert(dk.len() != tk.len() && "id"@.len() != dk.len() && "id"@.len() != tk.len());
        assert("type"@.len() != dk.len() && "type"@.len() != tk.len());
        assert("title"@.len() != dk.len() && "title"@.len() != tk.len());
    }
    assert("description"@ != dk && "description"@ != tk && "gridPos"@ != dk && "gridPos"@ != tk)
        by {
        assert("description"@.len() != dk.len() && "description"@.len() != tk.len());
        assert("gridPos"@.len() != dk.len() && "gridPos"@[0] != tk[0]);
    }
    assert("transformations"@ != dk && "transformations"@ != tk && "fieldConfig"@ != dk
        && "fieldConfig"@ != tk) by {
        assert("transformations"@.len() != dk.len() && "transformations"@.len() != tk.len());
        assert("fieldConfig"@.len() != dk.len() && "fieldConfig"@.len() != tk.len());
    }
    assert("options"@ != dk && "options"@ != tk && "transparent"@ != dk && "transparent"@ != tk
        && "links"@ != dk && "links"@ != tk) by {
        assert("options"@.len() != dk.len() && "options"@[0] != tk[0]);
        assert("transparent"@.len() != dk.len() && "transparent"@.len() != tk.len());
        assert("links"@.len() != dk.len() && "links"@.len() != tk.len());
    }
    if p.queries@.len() > 0 {
        lemma_targets_index(p.queries@, effective_refs(p.queries@), ds, 0);
        assert forall|i: int|
            0 <= i < p.queries@.len() && p.queries@[i].spec_options().datasource is None implies entry_of(
            #[trigger] ts[i],
            dk,
        ) == opt_datasource_v(ds) by {
            lemma_targets_index(p.queries@, effective_refs(p.queries@), ds, i);
            lemma_target_datasource(p.queries@[i], effective_refs(p.queries@)[i], ds);
        }
    }
}

fn transformations_json(ts: &Vec<Transformation>) -> (j: Json)
    ensures
        j@ == JsonV::Array(transformations_v(ts@)),
{
    let mut a = ArrayBuilder::new();
    let mut i: usize = 0;
    while i < ts.len()
        invariant
            i <= ts@.len(),
            a.items_v() == transformations_v(ts@.take(i as int)),
        decreases ts@.len() - i,
    {
        a.push(normalize_transformation(&ts[i]));
        proof {
            assert(ts@.take(i + 1).drop_last() =~= ts@.take(i as int));
        }
        i += 1;
    }
    proof {
        assert(ts@.take(ts@.len() as int) =~= ts@);
    }
    a.finish()
}

/// Lowers an authored panel with the ID and position layout gave it.
pub fn normalize_panel(p: &Panel, id: u32, grid: GridPos, default_ds: &Option<DataSource>) -> (j:
    Json)
    ensures
        j@ == panel_v(*p, id, grid, *default_ds),
{
    let ds = match &p.datasource {
        Some(d) => Some(d.copy()),
        None => crate::datasource::copy_opt_datasource(default_ds),
    };
    let mut b = ObjectBuilder::new();
    b.insert("id", Json::UInt(id as u64));
    b.insert("type", Json::str(p.kind.plugin_id()));
    b.insert("title", Json::string(&p.title));
    if let Some(d) = &p.description {
        b.insert("description", Json::string(d));
    }
    b.insert("gridPos", grid_json(grid));
    if let Some(d) = &ds {
        b.insert("datasource", datasource_json(d));
    }
    if p.queries.len() > 0 {
        let targets = normalize_targets(&p.queries, &ds);
        b.insert("targets", Json::Array(targets));
    }
    if p.transformations.len() > 0 {
        b.insert("transformations", transformations_json(&p.transformations));
    }
    b.insert("fieldConfig", normalize_field_config(&p.field_config, &p.kind, &p.kind_options));
    let mut defaults = DictBuilder::new();
    default_panel_options(&p.kind, &p.text, &mut defaults);
    let mut typed = DictBuilder::new();
    typed_panel_options(&p.kind_options, &mut typed);
    defaults.extend(typed);
    defaults.extend_raw(&p.raw_options);
    b.insert("options", defaults.finish());
    if p.transparent {
        b.insert("transparent", Json::Bool(true));
    }
    if p.links.len() > 0 {
        b.insert("links", Json::Array(links_json(&p.links)));
    }
    let mut extra = DictBuilder::new();
    extra.extend_raw(&p.extra);
    proof {
        assert(Map::<Seq<char>, JsonV>::empty().union_prefer_right(raw_map(p.extra@)) =~= raw_map(
            p.extra@,
        ));
    }
    b.finish_flattened(extra)
}

/// A row as Grafana stores it: a full-width header one unit high at `y`,
/// holding `panels` when it is collapsed.
pub open spec fn row_v(row: Row, id: u32, y: u16, panels: Seq<JsonV>) -> JsonV {
    let e = Seq::empty().push(("id"@, JsonV::UInt(id as u64))).push(
        ("type"@, JsonV::Str("row"@)),
    ).push(("title"@, JsonV::Str(row.title@))).push(
        ("gridPos"@, grid_v(GridPos { x: 0, y, width: 24, height: 1 })),
    ).push(("collapsed"@, JsonV::Bool(row.collapsed)));
    let e = if panels.len() > 0 {
        e.push(("panels"@, JsonV::Array(panels)))
    } else {
        e
    };
    JsonV::Object(e, Map::empty())
}

/// Lowers a row header holding `panels`.
pub fn normalize_row(row: &Row, id: u32, y: u16, panels: Vec<Json>) -> (j: Json)
    ensures
        j@ == row_v(*row, id, y, Json::view_items(panels@)),
{
    proof {
        lemma_view_items_len(panels@);
    }
    let mut b = ObjectBuilder::new();
    b.insert("id", Json::UInt(id as u64));
    b.insert("type", Json::str("row"));
    b.insert("title", Json::string(&row.title));
    b.insert("gridPos", grid_json(GridPos::new(0, y, 24, 1)));
    b.insert("collapsed", Json::Bool(row.collapsed));
    if panels.len() > 0 {
        b.insert("panels", Json::Array(panels));
    }
    b.finish()
}

/// Lowering keeps one model per item.
pub proof fn lemma_view_items_len(items: Seq<Json>)
    ensures
        Json::view_items(items).len() == items.len(),
    decreases items.len(),
{
    if items.len() > 0 {
        lemma_view_items_len(items.drop_last());
    }
}

} // verus!
