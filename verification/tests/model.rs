//! The authoring model end to end: IDs, layout, lowering and validation.

use panelist::{
    prometheus, Color, ConstantVariable, CustomVariable, Dashboard, FieldOverride, Float, Gauge,
    Heatmap, Json, Legend, LegendMode, LegendPlacement, PrometheusQuery, QueryVariable, Reducer,
    Row, Stat, Table, Text, Thresholds, Timeseries, Unit, BarGauge,
};
use serde_json::{Number, Value};

fn f(x: f64) -> Float {
    Float::from_bits(x.to_bits())
}

fn to_value(json: &Json) -> Value {
    match json {
        Json::Null => Value::Null,
        Json::Bool(b) => Value::Bool(*b),
        Json::UInt(n) => Value::Number(Number::from(*n)),
        Json::Float(bits) => Number::from_f64(f64::from_bits(*bits)).map_or(Value::Null, Value::Number),
        Json::Str(s) => Value::String(s.clone()),
        Json::Array(items) => Value::Array(items.iter().map(to_value).collect()),
        Json::Object(entries, flattened) => {
            let mut map = serde_json::Map::new();
            for (key, value) in entries.iter().chain(flattened.iter()) {
                map.insert(key.clone(), to_value(value));
            }
            Value::Object(map)
        }
        Json::Dict(entries) => {
            let mut map = serde_json::Map::new();
            for (key, value) in entries {
                map.insert(key.clone(), to_value(value));
            }
            Value::Object(map)
        }
        Json::Raw(value) => value.clone(),
    }
}

fn parse(text: &str) -> Value {
    serde_json::from_str(text).unwrap()
}

fn as_value(dashboard: &Dashboard) -> Value {
    assert!(dashboard.within_id_space());
    match dashboard.to_json_value() {
        Ok(json) => to_value(&json),
        Err(errors) => panic!("test dashboard should serialize: {}", errors.message()),
    }
}

#[test]
fn assigns_deterministic_panel_and_query_ids() {
    let dashboard = Dashboard::new("IDs").row(
        Row::new("Queries").panel(
            Timeseries::new("Traffic")
                .query(PrometheusQuery::new("rate(foo_total[5m])"))
                .query(PrometheusQuery::new("rate(bar_total[5m])")),
        ),
    );

    let value = as_value(&dashboard);
    assert_eq!(value["panels"][0]["id"], 1);
    assert_eq!(value["panels"][1]["id"], 2);
    assert_eq!(value["panels"][1]["targets"][0]["refId"], "A");
    assert_eq!(value["panels"][1]["targets"][1]["refId"], "B");
    assert_eq!(as_value(&dashboard), as_value(&dashboard));
}

#[test]
fn explicit_ids_and_refs_are_preserved_and_reserved() {
    let dashboard = Dashboard::new("Explicit").row(
        Row::new("Row").panel(
            Timeseries::new("Panel")
                .id(1)
                .query(PrometheusQuery::new("foo").ref_id("B"))
                .query(PrometheusQuery::new("bar")),
        ),
    );

    let value = as_value(&dashboard);
    assert_eq!(value["panels"][0]["id"], 2);
    assert_eq!(value["panels"][1]["id"], 1);
    assert_eq!(value["panels"][1]["targets"][0]["refId"], "B");
    assert_eq!(value["panels"][1]["targets"][1]["refId"], "A");
}

#[test]
fn wraps_panels_after_twenty_four_columns_and_places_following_rows() {
    let dashboard = Dashboard::new("Layout")
        .row(
            Row::new("First")
                .panel(Timeseries::new("A").width(12))
                .panel(Timeseries::new("B").width(12))
                .panel(Timeseries::new("C").width(8)),
        )
        .row(Row::new("Second").panel(Timeseries::new("D").width(24)));

    let value = as_value(&dashboard);
    assert_eq!(
        value["panels"][1]["gridPos"],
        parse(r#"{"x": 0, "y": 1, "w": 12, "h": 8}"#)
    );
    assert_eq!(
        value["panels"][2]["gridPos"],
        parse(r#"{"x": 12, "y": 1, "w": 12, "h": 8}"#)
    );
    assert_eq!(
        value["panels"][3]["gridPos"],
        parse(r#"{"x": 0, "y": 9, "w": 8, "h": 8}"#)
    );
    assert_eq!(
        value["panels"][4]["gridPos"],
        parse(r#"{"x": 0, "y": 17, "w": 24, "h": 1}"#)
    );
    assert_eq!(
        value["panels"][5]["gridPos"],
        parse(r#"{"x": 0, "y": 18, "w": 24, "h": 8}"#)
    );
}

#[test]
fn collapsed_rows_nest_panels_and_only_consume_the_row_height() {
    let dashboard = Dashboard::new("Collapsed")
        .row(
            Row::new("Hidden")
                .collapsed(true)
                .panel(Timeseries::new("Nested")),
        )
        .row(Row::new("Visible").panel(Stat::new("Value")));

    let value = as_value(&dashboard);
    assert_eq!(value["panels"].as_array().unwrap().len(), 3);
    assert_eq!(value["panels"][0]["collapsed"], true);
    assert_eq!(value["panels"][0]["panels"][0]["title"], "Nested");
    assert_eq!(value["panels"][1]["gridPos"]["y"], 1);
    assert_eq!(value["panels"][2]["gridPos"]["y"], 2);
}

#[test]
fn serializes_units_thresholds_legends_and_overrides() {
    let panel = Timeseries::new("Latency")
        .query(PrometheusQuery::new("latency").legend_format("p99"))
        .unit(Unit::Milliseconds)
        .thresholds(Thresholds::new().green(f(0.0)).yellow(f(250.0)).red(f(500.0)))
        .legend_options(
            Legend::new()
                .mode(LegendMode::Table)
                .placement(LegendPlacement::Right)
                .calculations(vec![Reducer::Last, Reducer::Max]),
        )
        .override_field(FieldOverride::by_name("p99").color(Color::Red).line_width(3));
    let value = as_value(&Dashboard::new("Fields").panel(panel));
    let panel = &value["panels"][0];

    assert_eq!(panel["fieldConfig"]["defaults"]["unit"], "ms");
    assert_eq!(
        panel["fieldConfig"]["defaults"]["thresholds"]["steps"][0]["value"],
        Value::Null
    );
    assert_eq!(
        panel["fieldConfig"]["overrides"][0]["matcher"]["id"],
        "byName"
    );
    assert_eq!(panel["options"]["legend"]["displayMode"], "table");
    assert_eq!(panel["options"]["legend"]["placement"], "right");
}

#[test]
fn serializes_every_initial_panel_type() {
    let dashboard = Dashboard::new("Kinds")
        .panel(Timeseries::new("Timeseries"))
        .panel(Stat::new("Stat"))
        .panel(Gauge::new("Gauge"))
        .panel(Table::new("Table"))
        .panel(Text::new("Text").content("hello"))
        .panel(BarGauge::new("Bar gauge"))
        .panel(Heatmap::new("Heatmap"));
    let value = as_value(&dashboard);
    let kinds = value["panels"]
        .as_array()
        .unwrap()
        .iter()
        .map(|panel| panel["type"].as_str().unwrap())
        .collect::<Vec<_>>();

    assert_eq!(
        kinds,
        [
            "timeseries",
            "stat",
            "gauge",
            "table",
            "text",
            "bargauge",
            "heatmap"
        ]
    );
}

#[test]
fn serializes_query_custom_and_constant_variables() {
    let dashboard = Dashboard::new("Variables")
        .datasource(prometheus("prometheus"))
        .variable(QueryVariable::new(
            "instance",
            PrometheusQuery::new("label_values(up, instance)"),
        ))
        .variable(CustomVariable::new("region", &["east", "west"]).default("east"))
        .variable(ConstantVariable::new("cluster", "primary").hidden(true));
    let value = as_value(&dashboard);
    let variables = value["templating"]["list"].as_array().unwrap();

    assert_eq!(variables[0]["type"], "query");
    assert_eq!(variables[0]["datasource"]["uid"], "prometheus");
    assert_eq!(variables[1]["type"], "custom");
    assert_eq!(variables[2]["type"], "constant");
}

#[test]
fn rejects_invalid_dimensions_duplicate_ids_refs_and_thresholds() {
    let dashboard = Dashboard::new("Invalid")
        .panel(
            Timeseries::new("Too wide")
                .width(30)
                .id(7)
                .query(PrometheusQuery::new("foo").ref_id("A"))
                .query(PrometheusQuery::new("bar").ref_id("A"))
                .thresholds(Thresholds::new().red(f(5.0)).green(f(1.0))),
        )
        .panel(Stat::new("Duplicate").id(7));
    let errors = dashboard.validate().unwrap_err();
    let messages = errors
        .errors()
        .iter()
        .map(|error| error.message())
        .collect::<Vec<_>>()
        .join("\n");

    assert!(messages.contains("width must be between 1 and 24"));
    assert!(messages.contains("duplicate explicit panel ID 7"));
    assert!(messages.contains("duplicate query reference ID \"A\""));
    assert!(messages.contains("threshold values must be finite and strictly increasing"));
}
