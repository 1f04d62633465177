//! Lowering of field defaults, thresholds, overrides and table cells.
use vstd::prelude::*;

use crate::field::{
    color_name, unit_name, ColorScheme, FieldConfig, FieldOverride, OverrideMatcher,
    OverrideProperty, ThresholdMode, ThresholdStep, Thresholds, ValueMapping,
};
use crate::float::{is_finite, Float};
use crate::grafana::wire::{ins_opt, push_opt};
use crate::json::{raw_map, strs_v, ArrayBuilder, DictBuilder, Json, JsonV, ObjectBuilder};
use crate::panel::{timeseries_of, PanelKind, PanelOptions};
use crate::table::{CellBackgroundMode, CellValueDisplay, TableCell, TableOptions};
use crate::visualization::{
    bar_gauge_display_mode_name, line_interpolation_name, point_visibility_name,
    stacking_mode_name, Stacking,
};

verus! {

// ---------------------------------------------------------------------------
// Numbers
// ---------------------------------------------------------------------------

/// A double as a JSON number.
pub open spec fn float_v(f: Float) -> JsonV {
    JsonV::Float(f.bits)
}

/// An optional double: a number, or `null`.
pub open spec fn opt_float_v(f: Option<Float>) -> JsonV {
    match f {
        Some(f) => float_v(f),
        None => JsonV::Null,
    }
}

/// A double that JSON can hold: present only when finite.
pub open spec fn finite_v(f: Option<Float>) -> Option<JsonV> {
    match f {
        Some(f) => if is_finite(f.bits) {
            Some(float_v(f))
        } else {
            None
        },
        None => None,
    }
}

/// A double as a JSON number, or `null` where JSON cannot hold it.
pub open spec fn number_v(f: Float) -> JsonV {
    if is_finite(f.bits) {
        float_v(f)
    } else {
        JsonV::Null
    }
}

fn opt_float_json(f: Option<Float>) -> (j: Json)
    ensures
        j@ == opt_float_v(f),
{
    match f {
        Some(f) => Json::Float(f.bits),
        None => Json::Null,
    }
}

fn number_property(f: Float) -> (j: Json)
    ensures
        j@ == number_v(f),
{
    if f.is_finite() {
        Json::Float(f.bits)
    } else {
        Json::Null
    }
}

// ---------------------------------------------------------------------------
// Colors and thresholds
// ---------------------------------------------------------------------------

/// A field color scheme as Grafana stores it.
pub open spec fn color_scheme_v(c: ColorScheme) -> JsonV {
    match c {
        ColorScheme::Thresholds => JsonV::Dict(
            Map::empty().insert("mode"@, JsonV::Str("thresholds"@)),
        ),
        ColorScheme::ClassicPalette => JsonV::Dict(
            Map::empty().insert("mode"@, JsonV::Str("palette-classic"@)),
        ),
        ColorScheme::Fixed(color) => JsonV::Dict(
            Map::empty().insert("mode"@, JsonV::Str("fixed"@)).insert(
                "fixedColor"@,
                JsonV::Str(color_name(color)),
            ),
        ),
        ColorScheme::Continuous(name) => JsonV::Dict(
            Map::empty().insert("mode"@, JsonV::Str(name@)),
        ),
    }
}

/// Lowers a field color scheme.
pub fn color_scheme_value(c: &ColorScheme) -> (j: Json)
    ensures
        j@ == color_scheme_v(*c),
{
    let mut d = DictBuilder::new();
    match c {
        ColorScheme::Thresholds => d.insert("mode", Json::str("thresholds")),
        ColorScheme::ClassicPalette => d.insert("mode", Json::str("palette-classic")),
        ColorScheme::Fixed(color) => {
            d.insert("mode", Json::str("fixed"));
            d.insert("fixedColor", Json::str(color.as_grafana()));
        },
        ColorScheme::Continuous(name) => d.insert("mode", Json::string(name)),
    }
    d.finish()
}

/// One threshold step.
pub open spec fn step_v(step: ThresholdStep) -> JsonV {
    JsonV::Dict(
        Map::empty().insert("color"@, JsonV::Str(color_name(step.color))).insert(
            "value"@,
            opt_float_v(step.value),
        ),
    )
}

/// The authored steps, in order.
pub open spec fn steps_v(steps: Seq<ThresholdStep>) -> Seq<JsonV>
    decreases steps.len(),
{
    if steps.len() == 0 {
        Seq::empty()
    } else {
        steps_v(steps.drop_last()).push(step_v(steps.last()))
    }
}

/// The base step Grafana needs in front of the authored steps: none when the
/// first authored step already is one (has no value); otherwise one in the
/// first step's color, or green when there are no steps.
pub open spec fn base_step_v(steps: Seq<ThresholdStep>) -> Seq<JsonV> {
    if steps.len() == 0 {
        seq![
            JsonV::Dict(
                Map::empty().insert("color"@, JsonV::Str("green"@)).insert("value"@, JsonV::Null),
            ),
        ]
    } else if steps[0].value is Some {
        seq![
            JsonV::Dict(
                Map::empty().insert("color"@, JsonV::Str(color_name(steps[0].color))).insert(
                    "value"@,
                    JsonV::Null,
                ),
            ),
        ]
    } else {
        Seq::empty()
    }
}

pub open spec fn threshold_mode_name(mode: ThresholdMode) -> Seq<char> {
    match mode {
        ThresholdMode::Absolute => "absolute"@,
        ThresholdMode::Percentage => "percentage"@,
    }
}

/// Thresholds as Grafana stores them: the mode, then a base step followed
/// by the authored steps.
pub open spec fn thresholds_v(t: Thresholds) -> JsonV {
    JsonV::Dict(
        Map::empty().insert("mode"@, JsonV::Str(threshold_mode_name(t.mode))).insert(
            "steps"@,
            JsonV::Array(base_step_v(t.steps@) + steps_v(t.steps@)),
        ),
    )
}

fn step_json(step: &ThresholdStep) -> (j: Json)
    ensures
        j@ == step_v(*step),
{
    let mut d = DictBuilder::new();
    d.insert("color", Json::str(step.color.as_grafana()));
    d.insert("value", opt_float_json(step.value));
    d.finish()
}

/// Lowers thresholds.
pub fn thresholds_value(t: &Thresholds) -> (j: Json)
    ensures
        j@ == thresholds_v(*t),
{
    let mut steps = ArrayBuilder::new();
    if t.steps.len() == 0 {
        let mut d = DictBuilder::new();
        d.insert("color", Json::str("green"));
        d.insert("value", Json::Null);
        steps.push(d.finish());
    } else if t.steps[0].value.is_some() {
        let mut d = DictBuilder::new();
        d.insert("color", Json::str(t.steps[0].color.as_grafana()));
        d.insert("value", Json::Null);
        steps.push(d.finish());
    }
    let ghost base = steps.items_v();
    proof {
        assert(base =~= base_step_v(t.steps@));
    }
    let mut i: usize = 0;
    while i < t.steps.len()
        invariant
            i <= t.steps@.len(),
            base == base_step_v(t.steps@),
            steps.items_v() == base + steps_v(t.steps@.take(i as int)),
        decreases t.steps@.len() - i,
    {
        steps.push(step_json(&t.steps[i]));
        proof {
            assert(t.steps@.take(i + 1).drop_last() =~= t.steps@.take(i as int));
            assert(steps.items_v() =~= base + steps_v(t.steps@.take(i + 1)));
        }
        i += 1;
    }
    proof {
        assert(t.steps@.take(t.steps@.len() as int) =~= t.steps@);
    }
    let mut d = DictBuilder::new();
    match t.mode {
        ThresholdMode::Absolute => d.insert("mode", Json::str("absolute")),
        ThresholdMode::Percentage => d.insert("mode", Json::str("percentage")),
    }
    d.insert("steps", steps.finish());
    d.finish()
}

proof fn lemma_steps_v(steps: Seq<ThresholdStep>)
    ensures
        steps_v(steps).len() == steps.len(),
        forall|i: int| 0 <= i < steps.len() ==> #[trigger] steps_v(steps)[i] == step_v(steps[i]),
    decreases steps.len(),
{
    if steps.len() > 0 {
        lemma_steps_v(steps.drop_last());
        assert forall|i: int| 0 <= i < steps.len() implies #[trigger] steps_v(steps)[i] == step_v(
            steps[i],
        ) by {
            if i < steps.len() - 1 {
                assert(steps.drop_last()[i] == steps[i]);
            }
        }
    }
}

/// The value a lowered threshold step carries.
pub open spec fn step_value(step: JsonV) -> JsonV {
    match step {
        JsonV::Dict(m) => m["value"@],
        _ => JsonV::Null,
    }
}

/// Lowered thresholds carry exactly one base step, first: whenever every
/// authored step after the first has a value, the first lowered step has
/// no value and every later one has one.
pub proof fn lemma_thresholds_one_base_step(t: Thresholds)
    requires
        forall|i: int| 1 <= i < t.steps@.len() ==> (#[trigger] t.steps@[i]).value is Some,
    ensures
        ({
            let steps = base_step_v(t.steps@) + steps_v(t.steps@);
            &&& steps.len() >= 1
            &&& step_value(steps[0]) == JsonV::Null
            &&& forall|i: int| 1 <= i < steps.len() ==> step_value(#[trigger] steps[i]) != JsonV::Null
        }),
{
    lemma_steps_v(t.steps@);
    let base = base_step_v(t.steps@);
    let steps = base + steps_v(t.steps@);
    assert forall|i: int| 1 <= i < steps.len() implies step_value(#[trigger] steps[i])
        != JsonV::Null by {
        let k = i - base.len();
        assert(steps[i] == steps_v(t.steps@)[k]);
        assert(t.steps@[k].value is Some);
    }
}

// ---------------------------------------------------------------------------
// Table cells
// ---------------------------------------------------------------------------

pub open spec fn cell_background_mode_name(mode: CellBackgroundMode) -> Seq<char> {
    match mode {
        CellBackgroundMode::Basic => "basic"@,
        CellBackgroundMode::Gradient => "gradient"@,
    }
}

pub open spec fn cell_value_display_name(display: CellValueDisplay) -> Seq<char> {
    match display {
        CellValueDisplay::Text => "text"@,
        CellValueDisplay::Color => "color"@,
        CellValueDisplay::Hidden => "hidden"@,
    }
}

fn cell_background_mode_str(mode: CellBackgroundMode) -> (s: &'static str)
    ensures
        s@ == cell_background_mode_name(mode),
{
    match mode {
        CellBackgroundMode::Basic => "basic",
        CellBackgroundMode::Gradient => "gradient",
    }
}

fn cell_value_display_str(display: CellValueDisplay) -> (s: &'static str)
    ensures
        s@ == cell_value_display_name(display),
{
    match display {
        CellValueDisplay::Text => "text",
        CellValueDisplay::Color => "color",
        CellValueDisplay::Hidden => "hidden",
    }
}

/// A table cell renderer as Grafana stores it: its type, then each option
/// that was set.
pub open spec fn cell_options_v(cell: TableCell) -> JsonV {
    let ty = "type"@;
    JsonV::Dict(
        match cell {
            TableCell::Auto => Map::empty().insert(ty, JsonV::Str("auto"@)),
            TableCell::ColoredText => Map::empty().insert(ty, JsonV::Str("color-text"@)),
            TableCell::ColoredBackground(o) => {
                let m = Map::empty().insert(ty, JsonV::Str("color-background"@));
                let m = ins_opt(
                    m,
                    "mode"@,
                    match o.mode {
                        Some(mode) => Some(JsonV::Str(cell_background_mode_name(mode))),
                        None => None,
                    },
                );
                let m = ins_opt(
                    m,
                    "applyToRow"@,
                    match o.apply_to_row {
                        Some(b) => Some(JsonV::Bool(b)),
                        None => None,
                    },
                );
                ins_opt(
                    m,
                    "wrapText"@,
                    match o.wrap_text {
                        Some(b) => Some(JsonV::Bool(b)),
                        None => None,
                    },
                )
            },
            TableCell::Gauge(o) => {
                let m = Map::empty().insert(ty, JsonV::Str("gauge"@));
                let m = ins_opt(
                    m,
                    "mode"@,
                    match o.mode {
                        Some(mode) => Some(JsonV::Str(bar_gauge_display_mode_name(mode))),
                        None => None,
                    },
                );
                ins_opt(
                    m,
                    "valueDisplayMode"@,
                    match o.value_display {
                        Some(d) => Some(JsonV::Str(cell_value_display_name(d))),
                        None => None,
                    },
                )
            },
            TableCell::Sparkline(o) => {
                let m = Map::empty().insert(ty, JsonV::Str("sparkline"@));
                let m = ins_opt(
                    m,
                    "hideValue"@,
                    match o.hide_value {
                        Some(b) => Some(JsonV::Bool(b)),
                        None => None,
                    },
                );
                let m = ins_opt(
                    m,
                    "lineWidth"@,
                    match o.line_width {
                        Some(f) => Some(float_v(f)),
                        None => None,
                    },
                );
                ins_opt(
                    m,
                    "fillOpacity"@,
                    match o.fill_opacity {
                        Some(f) => Some(float_v(f)),
                        None => None,
                    },
                )
            },
        },
    )
}

/// Lowers a table cell renderer.
pub fn cell_options_value(cell: &TableCell) -> (j: Json)
    ensures
        j@ == cell_options_v(*cell),
{
    let mut d = DictBuilder::new();
    match cell {
        TableCell::Auto => d.insert("type", Json::str("auto")),
        TableCell::ColoredText => d.insert("type", Json::str("color-text")),
        TableCell::ColoredBackground(o) => {
            d.insert("type", Json::str("color-background"));
            if let Some(mode) = o.mode {
                d.insert("mode", Json::str(cell_background_mode_str(mode)));
            }
            if let Some(b) = o.apply_to_row {
                d.insert("applyToRow", Json::Bool(b));
            }
            if let Some(b) = o.wrap_text {
                d.insert("wrapText", Json::Bool(b));
            }
        },
        TableCell::Gauge(o) => {
            d.insert("type", Json::str("gauge"));
            if let Some(mode) = o.mode {
                d.insert("mode", Json::str(mode.as_grafana()));
            }
            if let Some(display) = o.value_display {
                d.insert("valueDisplayMode", Json::str(cell_value_display_str(display)));
            }
        },
        TableCell::Sparkline(o) => {
            d.insert("type", Json::str("sparkline"));
            if let Some(b) = o.hide_value {
                d.insert("hideValue", Json::Bool(b));
            }
            if let Some(f) = o.line_width {
                d.insert("lineWidth", Json::Float(f.bits));
            }
            if let Some(f) = o.fill_opacity {
                d.insert("fillOpacity", Json::Float(f.bits));
            }
        },
    }
    d.finish()
}

// ---------------------------------------------------------------------------
// `fieldConfig.defaults.custom`
// ---------------------------------------------------------------------------

/// The `custom` keys every panel of a kind starts with.
pub open spec fn default_field_custom_v(kind: PanelKind) -> Map<Seq<char>, JsonV> {
    match kind {
        PanelKind::Timeseries => Map::empty().insert("drawStyle"@, JsonV::Str("line"@)).insert(
            "fillOpacity"@,
            JsonV::UInt(0),
        ).insert("lineInterpolation"@, JsonV::Str("linear"@)).insert(
            "lineWidth"@,
            JsonV::UInt(1),
        ).insert("showPoints"@, JsonV::Str("auto"@)).insert("spanNulls"@, JsonV::Bool(false)),
        PanelKind::Table => Map::empty().insert("align"@, JsonV::Str("auto"@)).insert(
            "inspect"@,
            JsonV::Bool(false),
        ),
        _ => Map::empty(),
    }
}

fn default_field_custom(kind: &PanelKind, d: &mut DictBuilder)
    ensures
        final(d).map_v() == old(d).map_v().union_prefer_right(default_field_custom_v(*kind)),
{
    let ghost start = d.map_v();
    match kind {
        PanelKind::Timeseries => {
            d.insert("drawStyle", Json::str("line"));
            d.insert("fillOpacity", Json::UInt(0));
            d.insert("lineInterpolation", Json::str("linear"));
            d.insert("lineWidth", Json::UInt(1));
            d.insert("showPoints", Json::str("auto"));
            d.insert("spanNulls", Json::Bool(false));
        },
        PanelKind::Table => {
            d.insert("align", Json::str("auto"));
            d.insert("inspect", Json::Bool(false));
        },
        _ => {},
    }
    proof {
        assert(d.map_v() =~= start.union_prefer_right(default_field_custom_v(*kind)));
    }
}

/// A stacking group as Grafana stores it.
pub open spec fn stacking_v(s: Stacking) -> JsonV {
    JsonV::Dict(
        Map::empty().insert("mode"@, JsonV::Str(stacking_mode_name(s.mode))).insert(
            "group"@,
            JsonV::Str(s.group@),
        ),
    )
}

fn stacking_value(s: &Stacking) -> (j: Json)
    ensures
        j@ == stacking_v(*s),
{
    let mut d = DictBuilder::new();
    d.insert("mode", Json::str(s.mode.as_grafana()));
    d.insert("group", Json::string(&s.group));
    d.finish()
}

/// The `custom` keys set by a panel's typed options.
pub open spec fn typed_field_custom_v(options: PanelOptions) -> Map<Seq<char>, JsonV> {
    match options {
        PanelOptions::Table(t) => ins_opt(
            Map::empty(),
            "cellOptions"@,
            match t.cell {
                Some(c) => Some(cell_options_v(c)),
                None => None,
            },
        ),
        PanelOptions::Timeseries(o) => {
            let m = Map::empty();
            let m = ins_opt(m, "fillOpacity"@, match o.fill_opacity {
                Some(f) => Some(float_v(f)),
                None => None,
            });
            let m = ins_opt(m, "lineWidth"@, match o.line_width {
                Some(f) => Some(float_v(f)),
                None => None,
            });
            let m = ins_opt(m, "pointSize"@, match o.point_size {
                Some(f) => Some(float_v(f)),
                None => None,
            });
            let m = ins_opt(m, "lineInterpolation"@, match o.line_interpolation {
                Some(v) => Some(JsonV::Str(line_interpolation_name(v))),
                None => None,
            });
            let m = ins_opt(m, "showPoints"@, match o.show_points {
                Some(v) => Some(JsonV::Str(point_visibility_name(v))),
                None => None,
            });
            let m = ins_opt(m, "spanNulls"@, match o.span_nulls {
                Some(b) => Some(JsonV::Bool(b)),
                None => None,
            });
            ins_opt(m, "stacking"@, match o.stacking {
                Some(s) => Some(stacking_v(s)),
                None => None,
            })
        },
        _ => Map::empty(),
    }
}

fn typed_field_custom(options: &PanelOptions, d: &mut DictBuilder)
    ensures
        final(d).map_v() == old(d).map_v().union_prefer_right(typed_field_custom_v(*options)),
{
    let ghost start = d.map_v();
    match options {
        PanelOptions::Table(t) => {
            if let Some(c) = &t.cell {
                d.insert("cellOptions", cell_options_value(c));
            }
        },
        PanelOptions::Timeseries(o) => {
            if let Some(f) = o.fill_opacity {
                d.insert("fillOpacity", Json::Float(f.bits));
            }
            if let Some(f) = o.line_width {
                d.insert("lineWidth", Json::Float(f.bits));
            }
            if let Some(f) = o.point_size {
                d.insert("pointSize", Json::Float(f.bits));
            }
            if let Some(v) = o.line_interpolation {
                d.insert("lineInterpolation", Json::str(v.as_grafana()));
            }
            if let Some(v) = o.show_points {
                d.insert("showPoints", Json::str(v.as_grafana()));
            }
            if let Some(b) = o.span_nulls {
                d.insert("spanNulls", Json::Bool(b));
            }
            if let Some(s) = &o.stacking {
                d.insert("stacking", stacking_value(s));
            }
        },
        _ => {},
    }
    proof {
        assert(d.map_v() =~= start.union_prefer_right(typed_field_custom_v(*options)));
    }
}

/// `fieldConfig.defaults.custom` in three layers, each overwriting keys of
/// the one before: the kind's defaults, the typed options, then the
/// caller's raw entries.
pub open spec fn field_custom_v(config: FieldConfig, kind: PanelKind, options: PanelOptions) -> Map<
    Seq<char>,
    JsonV,
> {
    default_field_custom_v(kind).union_prefer_right(typed_field_custom_v(options)).union_prefer_right(
        raw_map(config.custom@),
    )
}

/// Raw `custom` entries always win: each key the caller set has the value
/// the caller gave, whatever the kind defaults and typed options say.
pub proof fn lemma_raw_custom_wins(
    config: FieldConfig,
    kind: PanelKind,
    options: PanelOptions,
    key: Seq<char>,
)
    requires
        raw_map(config.custom@).dom().contains(key),
    ensures
        field_custom_v(config, kind, options)[key] == raw_map(config.custom@)[key],
{
}

// ---------------------------------------------------------------------------
// Value mappings and field defaults
// ---------------------------------------------------------------------------

/// The result a value mapping produces.
pub open spec fn mapping_result_v(m: ValueMapping) -> JsonV {
    JsonV::Dict(
        ins_opt(
            Map::empty().insert("text"@, JsonV::Str(m.text@)),
            "color"@,
            match m.color {
                Some(c) => Some(JsonV::Str(color_name(c))),
                None => None,
            },
        ),
    )
}

/// Value mappings keyed by the matched value; a later mapping of the same
/// value replaces an earlier one.
pub open spec fn mapping_options_v(mappings: Seq<ValueMapping>) -> Map<Seq<char>, JsonV>
    decreases mappings.len(),
{
    if mappings.len() == 0 {
        Map::empty()
    } else {
        mapping_options_v(mappings.drop_last()).insert(
            mappings.last().value@,
            mapping_result_v(mappings.last()),
        )
    }
}

/// The `mappings` entry: one `value` mapping holding every authored one.
pub open spec fn mappings_v(mappings: Seq<ValueMapping>) -> JsonV {
    JsonV::Array(
        seq![
            JsonV::Dict(
                Map::empty().insert("type"@, JsonV::Str("value"@)).insert(
                    "options"@,
                    JsonV::Dict(mapping_options_v(mappings)),
                ),
            ),
        ],
    )
}

fn mappings_json(mappings: &Vec<ValueMapping>) -> (j: Json)
    ensures
        j@ == mappings_v(mappings@),
{
    let mut options = DictBuilder::new();
    let mut i: usize = 0;
    while i < mappings.len()
        invariant
            i <= mappings@.len(),
            options.map_v() == mapping_options_v(mappings@.take(i as int)),
        decreases mappings@.len() - i,
    {
        let m = &mappings[i];
        let mut result = DictBuilder::new();
        result.insert("text", Json::string(&m.text));
        if let Some(c) = &m.color {
            result.insert("color", Json::str(c.as_grafana()));
        }
        options.insert_string(m.value.clone(), result.finish());
        proof {
            assert(mappings@.take(i + 1).drop_last() =~= mappings@.take(i as int));
        }
        i += 1;
    }
    proof {
        assert(mappings@.take(mappings@.len() as int) =~= mappings@);
    }
    let mut entry = DictBuilder::new();
    entry.insert("type", Json::str("value"));
    entry.insert("options", options.finish());
    let mut array = ArrayBuilder::new();
    array.push(entry.finish());
    array.finish()
}

/// `fieldConfig.defaults`: each setting that was given, in Grafana's keys.
/// Non-finite minimums and maximums are left out; so are empty mappings and
/// an empty `custom` block.
pub open spec fn field_defaults_v(config: FieldConfig, kind: PanelKind, options: PanelOptions) -> Map<
    Seq<char>,
    JsonV,
> {
    let m = Map::empty();
    let m = ins_opt(m, "unit"@, match config.unit {
        Some(u) => Some(JsonV::Str(unit_name(u))),
        None => None,
    });
    let m = ins_opt(m, "min"@, finite_v(config.min));
    let m = ins_opt(m, "max"@, finite_v(config.max));
    let m = ins_opt(m, "decimals"@, match config.decimals {
        Some(d) => Some(JsonV::UInt(d as u64)),
        None => None,
    });
    let m = ins_opt(m, "displayName"@, match config.display_name {
        Some(s) => Some(JsonV::Str(s@)),
        None => None,
    });
    let m = ins_opt(m, "color"@, match config.color {
        Some(c) => Some(color_scheme_v(c)),
        None => None,
    });
    let m = ins_opt(m, "thresholds"@, match config.thresholds {
        Some(t) => Some(thresholds_v(t)),
        None => None,
    });
    let m = if config.mappings@.len() > 0 {
        m.insert("mappings"@, mappings_v(config.mappings@))
    } else {
        m
    };
    let custom = field_custom_v(config, kind, options);
    if custom != Map::<Seq<char>, JsonV>::empty() {
        m.insert("custom"@, JsonV::Dict(custom))
    } else {
        m
    }
}

/// The lowered field defaults carry the authored minimum under `min` and
/// the authored maximum under `max`, each as the same number, when it is
/// finite; an unset or non-finite bound is left out.
pub proof fn lemma_defaults_min_max(config: FieldConfig, kind: PanelKind, options: PanelOptions)
    ensures
        ({
            let m = field_defaults_v(config, kind, options);
            &&& match config.min {
                Some(f) if is_finite(f.bits) => m.contains_key("min"@) && m["min"@] == JsonV::Float(
                    f.bits,
                ),
                _ => !m.contains_key("min"@),
            }
            &&& match config.max {
                Some(f) if is_finite(f.bits) => m.contains_key("max"@) && m["max"@] == JsonV::Float(
                    f.bits,
                ),
                _ => !m.contains_key("max"@),
            }
        }),
{
    reveal_strlit("min");
    reveal_strlit("max");
    reveal_strlit("unit");
    reveal_strlit("decimals");
    reveal_strlit("displayName");
    reveal_strlit("color");
    reveal_strlit("thresholds");
    reveal_strlit("mappings");
    reveal_strlit("custom");
    assert("min"@ != "max"@) by {
        assert("min"@[1] != "max"@[1]);
    }
    let later = seq![
        "decimals"@,
        "displayName"@,
        "color"@,
        "thresholds"@,
        "mappings"@,
        "custom"@,
        "unit"@,
    ];
    assert forall|i: int| 0 <= i < later.len() implies #[trigger] later[i] != "min"@ && later[i]
        != "max"@ by {
        assert(later[i].len() != 3);
    }
    assert(later[0] == "decimals"@ && later[1] == "displayName"@ && later[2] == "color"@);
    assert(later[3] == "thresholds"@ && later[4] == "mappings"@ && later[5] == "custom"@);
    assert(later[6] == "unit"@);
}

fn insert_number(d: &mut DictBuilder, key: &str, number: Option<Float>)
    ensures
        final(d).map_v() == ins_opt(old(d).map_v(), key@, finite_v(number)),
{
    if let Some(f) = number {
        if f.is_finite() {
            d.insert(key, Json::Float(f.bits));
        }
    }
}

// ---------------------------------------------------------------------------
// Overrides
// ---------------------------------------------------------------------------

/// A field matcher as Grafana stores it: its ID, then its options where the
/// matcher takes any.
pub open spec fn matcher_v(m: OverrideMatcher) -> JsonV {
    let id = "id"@;
    let options = "options"@;
    JsonV::Object(
        match m {
            OverrideMatcher::Name(s) => Seq::empty().push((id, JsonV::Str("byName"@))).push(
                (options, JsonV::Str(s@)),
            ),
            OverrideMatcher::Regex(s) => Seq::empty().push((id, JsonV::Str("byRegexp"@))).push(
                (options, JsonV::Str(s@)),
            ),
            OverrideMatcher::Type(s) => Seq::empty().push((id, JsonV::Str("byType"@))).push(
                (options, JsonV::Str(s@)),
            ),
            OverrideMatcher::QueryRefId(s) => Seq::empty().push(
                (id, JsonV::Str("byFrameRefID"@)),
            ).push((options, JsonV::Str(s@))),
            OverrideMatcher::Names(names) => Seq::empty().push((id, JsonV::Str("byNames"@))).push(
                (
                    options,
                    JsonV::Dict(Map::empty().insert("names"@, JsonV::Array(strs_v(names@)))),
                ),
            ),
            OverrideMatcher::Numeric => seq![(id, JsonV::Str("numeric"@))],
            OverrideMatcher::Time => seq![(id, JsonV::Str("time"@))],
        },
        Map::empty(),
    )
}

fn matcher_json(m: &OverrideMatcher) -> (j: Json)
    ensures
        j@ == matcher_v(*m),
{
    let mut b = ObjectBuilder::new();
    match m {
        OverrideMatcher::Name(s) => {
            b.insert("id", Json::str("byName"));
            b.insert("options", Json::string(s));
        },
        OverrideMatcher::Regex(s) => {
            b.insert("id", Json::str("byRegexp"));
            b.insert("options", Json::string(s));
        },
        OverrideMatcher::Type(s) => {
            b.insert("id", Json::str("byType"));
            b.insert("options", Json::string(s));
        },
        OverrideMatcher::QueryRefId(s) => {
            b.insert("id", Json::str("byFrameRefID"));
            b.insert("options", Json::string(s));
        },
        OverrideMatcher::Names(names) => {
            b.insert("id", Json::str("byNames"));
            let mut d = DictBuilder::new();
            d.insert("names", Json::strings(names));
            b.insert("options", d.finish());
        },
        OverrideMatcher::Numeric => b.insert("id", Json::str("numeric")),
        OverrideMatcher::Time => b.insert("id", Json::str("time")),
    }
    b.finish()
}

/// A field property as Grafana stores it.
pub open spec fn property_v(id: Seq<char>, value: JsonV) -> JsonV {
    JsonV::Object(Seq::empty().push(("id"@, JsonV::Str(id))).push(("value"@, value)), Map::empty())
}

/// An override property in Grafana's field-property IDs.
pub open spec fn override_property_v(p: OverrideProperty) -> JsonV {
    match p {
        OverrideProperty::Unit(u) => property_v("unit"@, JsonV::Str(unit_name(u))),
        OverrideProperty::Min(f) => property_v("min"@, number_v(f)),
        OverrideProperty::Max(f) => property_v("max"@, number_v(f)),
        OverrideProperty::Decimals(d) => property_v("decimals"@, JsonV::UInt(d as u64)),
        OverrideProperty::DisplayName(s) => property_v("displayName"@, JsonV::Str(s@)),
        OverrideProperty::Color(c) => property_v("color"@, color_scheme_v(c)),
        OverrideProperty::LineWidth(w) => property_v("custom.lineWidth"@, JsonV::UInt(w as u64)),
        OverrideProperty::Thresholds(t) => property_v("thresholds"@, thresholds_v(t)),
        OverrideProperty::Cell(c) => property_v("custom.cellOptions"@, cell_options_v(c)),
        OverrideProperty::Custom { id, value } => property_v(id@, JsonV::Raw(value)),
    }
}

fn property_value(id: &str, value: Json) -> (j: Json)
    ensures
        j@ == property_v(id@, value@),
{
    let mut b = ObjectBuilder::new();
    b.insert("id", Json::str(id));
    b.insert("value", value);
    b.finish()
}

fn override_property_json(p: &OverrideProperty) -> (j: Json)
    ensures
        j@ == override_property_v(*p),
{
    match p {
        OverrideProperty::Unit(u) => property_value("unit", Json::str(u.as_grafana())),
        OverrideProperty::Min(f) => property_value("min", number_property(*f)),
        OverrideProperty::Max(f) => property_value("max", number_property(*f)),
        OverrideProperty::Decimals(d) => property_value("decimals", Json::UInt(*d as u64)),
        OverrideProperty::DisplayName(s) => property_value("displayName", Json::string(s)),
        OverrideProperty::Color(c) => property_value("color", color_scheme_value(c)),
        OverrideProperty::LineWidth(w) => property_value("custom.lineWidth", Json::UInt(*w as u64)),
        OverrideProperty::Thresholds(t) => property_value("thresholds", thresholds_value(t)),
        OverrideProperty::Cell(c) => property_value("custom.cellOptions", cell_options_value(c)),
        OverrideProperty::Custom { id, value } => property_value(id.as_str(), Json::Raw(value.clone())),
    }
}

/// The lowered properties of an override, in order.
pub open spec fn properties_v(properties: Seq<OverrideProperty>) -> Seq<JsonV>
    decreases properties.len(),
{
    if properties.len() == 0 {
        Seq::empty()
    } else {
        properties_v(properties.drop_last()).push(override_property_v(properties.last()))
    }
}

/// A field override as Grafana stores it.
pub open spec fn override_v(o: FieldOverride) -> JsonV {
    JsonV::Object(
        Seq::empty().push(("matcher"@, matcher_v(o.matcher))).push(
            ("properties"@, JsonV::Array(properties_v(o.properties@))),
        ),
        Map::empty(),
    )
}

/// Lowers a field override.
pub fn normalize_override(o: &FieldOverride) -> (j: Json)
    ensures
        j@ == override_v(*o),
{
    let mut properties = ArrayBuilder::new();
    let mut i: usize = 0;
    while i < o.properties.len()
        invariant
            i <= o.properties@.len(),
            properties.items_v() == properties_v(o.properties@.take(i as int)),
        decreases o.properties@.len() - i,
    {
        properties.push(override_property_json(&o.properties[i]));
        proof {
            assert(o.properties@.take(i + 1).drop_last() =~= o.properties@.take(i as int));
        }
        i += 1;
    }
    proof {
        assert(o.properties@.take(o.properties@.len() as int) =~= o.properties@);
    }
    let mut b = ObjectBuilder::new();
    b.insert("matcher", matcher_json(&o.matcher));
    b.insert("properties", properties.finish());
    b.finish()
}

/// The lowered overrides, in order.
pub open spec fn overrides_v(overrides: Seq<FieldOverride>) -> Seq<JsonV>
    decreases overrides.len(),
{
    if overrides.len() == 0 {
        Seq::empty()
    } else {
        overrides_v(overrides.drop_last()).push(override_v(overrides.last()))
    }
}

/// A panel's `fieldConfig`: its defaults and its overrides.
pub open spec fn field_config_v(config: FieldConfig, kind: PanelKind, options: PanelOptions) -> JsonV {
    JsonV::Object(
        Seq::empty().push(("defaults"@, JsonV::Dict(field_defaults_v(config, kind, options)))).push(
            ("overrides"@, JsonV::Array(overrides_v(config.overrides@))),
        ),
        Map::empty(),
    )
}

/// Lowers a panel's field configuration for its kind and typed options.
pub fn normalize_field_config(config: &FieldConfig, kind: &PanelKind, options: &PanelOptions) -> (j:
    Json)
    ensures
        j@ == field_config_v(*config, *kind, *options),
{
    let mut d = DictBuilder::new();
    if let Some(u) = &config.unit {
        d.insert("unit", Json::str(u.as_grafana()));
    }
    insert_number(&mut d, "min", config.min);
    insert_number(&mut d, "max", config.max);
    if let Some(decimals) = config.decimals {
        d.insert("decimals", Json::UInt(decimals as u64));
    }
    if let Some(name) = &config.display_name {
        d.insert("displayName", Json::string(name));
    }
    if let Some(c) = &config.color {
        d.insert("color", color_scheme_value(c));
    }
    if let Some(t) = &config.thresholds {
        d.insert("thresholds", thresholds_value(t));
    }
    if config.mappings.len() > 0 {
        d.insert("mappings", mappings_json(&config.mappings));
    }
    let mut custom = DictBuilder::new();
    default_field_custom(kind, &mut custom);
    typed_field_custom(options, &mut custom);
    custom.extend_raw(&config.custom);
    proof {
        assert(Map::<Seq<char>, JsonV>::empty().union_prefer_right(default_field_custom_v(*kind))
            =~= default_field_custom_v(*kind));
    }
    if !custom.is_empty() {
        d.insert("custom", custom.finish());
    }
    let mut overrides = ArrayBuilder::new();
    let mut i: usize = 0;
    while i < config.overrides.len()
        invariant
            i <= config.overrides@.len(),
            overrides.items_v() == overrides_v(config.overrides@.take(i as int)),
        decreases config.overrides@.len() - i,
    {
        overrides.push(normalize_override(&config.overrides[i]));
        proof {
            assert(config.overrides@.take(i + 1).drop_last() =~= config.overrides@.take(i as int));
        }
        i += 1;
    }
    proof {
        assert(config.overrides@.take(config.overrides@.len() as int) =~= config.overrides@);
    }
    let mut b = ObjectBuilder::new();
    b.insert("defaults", d.finish());
    b.insert("overrides", overrides.finish());
    b.finish()
}

} // verus!
