//! The library's laws and error reports on concrete dashboards.

use panelist::grafana::layout::{reference_id, FlowLayout};
use panelist::grafana::transform::escape_frame_name;
use panelist::{
    Color, CustomVariable, Dashboard, Float, GridPos, Json, PrometheusQuery, QueryVariable, Row,
    Stat, StatColorMode, Table, Text, Thresholds, Timeseries, ValidationError, VariableBuilder,
    VariableRefresh, VariableSort, Variable, prometheus, FieldOverride, OrganizeFields,
    RawTransformation, SortBy, TimeSeriesToTable, Reducer,
};
use panelist::variable::{VariableDiagnostic, VariableOption};
use serde_json::{Number, Value};

fn f(x: f64) -> Float {
    Float::from_bits(x.to_bits())
}

fn to_value(json: &Json) -> Value {
    match json {
        Json::Null => Value::Null,
        Json::Bool(b) => Value::Bool(*b),
        Json::UInt(n) => Value::Number(Number::from(*n)),
        Json::Float(bits) => Number::from_f64(f64::from_bits(*bits)).map_or(Value::Null, Value::Number),
        Json::Str(s) => Value::String(s.clone()),
        Json::Array(items) => Value::Array(items.iter().map(to_value).collect()),
        Json::Object(entries, flattened) => {
            let mut map = serde_json::Map::new();
            for (key, value) in entries.iter().chain(flattened.iter()) {
                map.insert(key.clone(), to_value(value));
            }
            Value::Object(map)
        }
        Json::Dict(entries) => {
            let mut map = serde_json::Map::new();
            for (key, value) in entries {
                map.insert(key.clone(), to_value(value));
            }
            Value::Object(map)
        }
        Json::Raw(value) => value.clone(),
    }
}

fn as_value(dashboard: &Dashboard) -> Value {
    assert!(dashboard.within_id_space());
    to_value(&dashboard.to_json_value().unwrap())
}

fn messages(dashboard: &Dashboard) -> Vec<String> {
    dashboard
        .validate()
        .unwrap_err()
        .errors()
        .iter()
        .map(|error| error.message())
        .collect()
}

fn ids(value: &Value) -> Vec<u64> {
    value["panels"]
        .as_array()
        .unwrap()
        .iter()
        .map(|panel| panel["id"].as_u64().unwrap())
        .collect()
}

#[test]
fn reference_ids_count_in_bijective_base_26() {
    assert_eq!(reference_id(0), "A");
    assert_eq!(reference_id(25), "Z");
    assert_eq!(reference_id(26), "AA");
    assert_eq!(reference_id(27), "AB");
    assert_eq!(reference_id(701), "ZZ");
    assert_eq!(reference_id(702), "AAA");
}

#[test]
fn generated_reference_ids_skip_explicit_ones_and_never_repeat() {
    let dashboard = Dashboard::new("Refs").panel(
        Timeseries::new("Queries")
            .query(PrometheusQuery::new("a"))
            .query(PrometheusQuery::new("b").ref_id("A"))
            .query(PrometheusQuery::new("c"))
            .query(PrometheusQuery::new("d").ref_id("C")),
    );
    let value = as_value(&dashboard);
    let refs: Vec<&str> = value["panels"][0]["targets"]
        .as_array()
        .unwrap()
        .iter()
        .map(|target| target["refId"].as_str().unwrap())
        .collect();
    assert_eq!(refs, ["B", "A", "D", "C"]);
}

#[test]
fn generated_panel_ids_never_collide_with_explicit_ones() {
    let dashboard = Dashboard::new("IDs")
        .panel(Stat::new("a").query(PrometheusQuery::new("up")))
        .panel(Stat::new("b").id(2).query(PrometheusQuery::new("up")))
        .row(
            Row::new("Row")
                .panel(Stat::new("c").query(PrometheusQuery::new("up")))
                .panel(Stat::new("d").id(4).query(PrometheusQuery::new("up"))),
        )
        .panel(Stat::new("e").query(PrometheusQuery::new("up")));
    let value = as_value(&dashboard);
    assert_eq!(ids(&value), [1, 2, 3, 5, 4, 6]);
    let mut sorted = ids(&value);
    sorted.sort_unstable();
    sorted.dedup();
    assert_eq!(sorted.len(), 6);
}

#[test]
fn automatic_placement_stays_inside_the_grid_without_overlap() {
    let dashboard = Dashboard::new("Flow")
        .panel(Stat::new("a").width(10).height(3))
        .panel(Stat::new("b").width(10).height(5))
        .panel(Stat::new("c").width(10).height(2))
        .panel(Stat::new("d").width(24).height(4))
        .panel(Stat::new("e").width(7).height(6))
        .panel(Stat::new("f").width(17).height(1));
    let value = as_value(&dashboard);
    let grids: Vec<(u64, u64, u64, u64)> = value["panels"]
        .as_array()
        .unwrap()
        .iter()
        .map(|panel| {
            let g = &panel["gridPos"];
            (
                g["x"].as_u64().unwrap(),
                g["y"].as_u64().unwrap(),
                g["w"].as_u64().unwrap(),
                g["h"].as_u64().unwrap(),
            )
        })
        .collect();
    assert_eq!(
        grids,
        [(0, 0, 10, 3), (10, 0, 10, 5), (0, 5, 10, 2), (0, 7, 24, 4), (0, 11, 7, 6), (7, 11, 17, 1)]
    );
    for (i, a) in grids.iter().enumerate() {
        assert!(a.0 + a.2 <= 24);
        for b in &grids[i + 1..] {
            let apart = a.0 + a.2 <= b.0 || b.0 + b.2 <= a.0 || a.1 + a.3 <= b.1 || b.1 + b.3 <= a.1;
            assert!(apart, "{a:?} overlaps {b:?}");
        }
    }
}

#[test]
fn an_explicit_position_is_kept_and_following_panels_start_below_it() {
    let dashboard = Dashboard::new("Pinned")
        .panel(Stat::new("pinned").grid_pos(GridPos::new(6, 10, 12, 8)))
        .panel(Stat::new("next").width(6));
    let value = as_value(&dashboard);
    assert_eq!(value["panels"][0]["gridPos"]["x"], 6);
    assert_eq!(value["panels"][0]["gridPos"]["y"], 10);
    assert_eq!(value["panels"][1]["gridPos"]["x"], 0);
    assert_eq!(value["panels"][1]["gridPos"]["y"], 18);
}

#[test]
fn a_collapsed_row_takes_one_unit_and_an_expanded_row_takes_its_panels() {
    let collapsed = Dashboard::new("Rows")
        .row(Row::new("Hidden").collapsed(true).panel(Stat::new("x").height(9)))
        .panel(Stat::new("after"));
    let value = as_value(&collapsed);
    assert_eq!(value["panels"].as_array().unwrap().len(), 2);
    assert_eq!(value["panels"][0]["gridPos"]["y"], 0);
    assert_eq!(value["panels"][0]["panels"][0]["gridPos"]["y"], 1);
    assert_eq!(value["panels"][1]["gridPos"]["y"], 1);

    let expanded = Dashboard::new("Rows")
        .row(Row::new("Shown").panel(Stat::new("x").height(9)))
        .panel(Stat::new("after"));
    let value = as_value(&expanded);
    assert_eq!(value["panels"].as_array().unwrap().len(), 3);
    assert_eq!(value["panels"][0]["collapsed"], false);
    assert!(value["panels"][0].get("panels").is_none());
    assert_eq!(value["panels"][1]["gridPos"]["y"], 1);
    assert_eq!(value["panels"][2]["gridPos"]["y"], 10);
}

#[test]
fn an_explicit_base_step_is_not_doubled() {
    let dashboard = Dashboard::new("Steps").panel(
        Stat::new("v").thresholds(Thresholds::new().step(Color::Blue, None).red(f(3.5))),
    );
    let value = as_value(&dashboard);
    let steps = value["panels"][0]["fieldConfig"]["defaults"]["thresholds"]["steps"]
        .as_array()
        .unwrap()
        .clone();
    assert_eq!(steps.len(), 2);
    assert_eq!(steps[0]["value"], Value::Null);
    assert_eq!(steps[0]["color"], "blue");
    assert_eq!(steps[1]["value"], 3.5);
}

#[test]
fn frame_names_are_escaped_so_they_match_exactly() {
    assert_eq!(escape_frame_name("p95.total"), "p95\\.total");
    assert_eq!(escape_frame_name("/api/v1"), "\\/api\\/v1");
    assert_eq!(escape_frame_name("a(b)|c"), "a\\(b\\)\\|c");
    assert_eq!(escape_frame_name("plain"), "plain");
    assert_eq!(escape_frame_name(""), "");
}

#[test]
fn raw_options_win_over_typed_options_and_kind_defaults() {
    let dashboard = Dashboard::new("Layers").panel(
        Stat::new("v")
            .color_mode(StatColorMode::Background)
            .option("colorMode", Value::String("none".to_owned()))
            .option("custom_flag", Value::Bool(true)),
    );
    let value = as_value(&dashboard);
    assert_eq!(value["panels"][0]["options"]["colorMode"], "none");
    assert_eq!(value["panels"][0]["options"]["custom_flag"], true);
    assert_eq!(value["panels"][0]["options"]["graphMode"], "area");
}

#[test]
fn non_finite_limits_are_left_out() {
    let dashboard = Dashboard::new("Limits").panel(
        Table::new("t").min(f(f64::NAN)).max(f(f64::INFINITY)).decimals(2),
    );
    let value = as_value(&dashboard);
    let defaults = &value["panels"][0]["fieldConfig"]["defaults"];
    assert!(defaults.get("min").is_none());
    assert!(defaults.get("max").is_none());
    assert_eq!(defaults["decimals"], 2);
}

#[test]
fn a_custom_variable_starts_on_its_first_value() {
    let dashboard =
        Dashboard::new("Vars").variable(CustomVariable::new("tier", &["gold", "silver"]));
    let value = as_value(&dashboard);
    let variable = &value["templating"]["list"][0];
    assert_eq!(variable["query"], "gold,silver");
    assert_eq!(variable["current"]["value"], "gold");
    assert_eq!(variable["options"][0]["selected"], true);
    assert_eq!(variable["options"][1]["selected"], false);
}

#[test]
fn validation_and_lowering_agree() {
    let good = Dashboard::new("Good").panel(Text::new("notes").content("hi"));
    assert!(good.validate().is_ok());
    assert!(good.to_json_value().is_ok());

    let bad = Dashboard::new("Bad").panel(Text::new(""));
    assert!(bad.validate().is_err());
    assert_eq!(bad.to_json_value().unwrap_err(), bad.validate().unwrap_err());
}

#[test]
fn every_authoring_mistake_is_reported_with_its_message() {
    let dashboard = Dashboard::new(" ")
        .variable(QueryVariable::new("", PrometheusQuery::new(" ")))
        .row(Row::new("").panel(Stat::new("").width(0).height(0)))
        .panel(
            Stat::new("Pinned")
                .id(3)
                .grid_pos(GridPos::new(20, 0, 8, 2))
                .query(PrometheusQuery::new("").ref_id("Q"))
                .query(PrometheusQuery::new("up").ref_id("Q"))
                .thresholds(Thresholds::new().green(f(2.0)).red(f(2.0))),
        )
        .panel(Stat::new("Again").id(3));
    let errors = dashboard.validate().unwrap_err();
    assert_eq!(
        errors.errors(),
        [
            ValidationError::MissingDashboardTitle,
            ValidationError::MissingVariableName,
            ValidationError::MissingQueryExpression { panel: "variable ".to_owned() },
            ValidationError::MissingRowTitle,
            ValidationError::MissingPanelTitle,
            ValidationError::InvalidPanelWidth { panel: String::new(), width: 0 },
            ValidationError::InvalidPanelHeight { panel: String::new(), height: 0 },
            ValidationError::InvalidGridPosition {
                panel: "Pinned".to_owned(),
                x: 20,
                y: 0,
                width: 8,
                height: 2,
            },
            ValidationError::MissingQueryExpression { panel: "Pinned".to_owned() },
            ValidationError::DuplicateQueryRefId {
                panel: "Pinned".to_owned(),
                ref_id: "Q".to_owned(),
            },
            ValidationError::InvalidThresholds { panel: "Pinned".to_owned() },
            ValidationError::DuplicatePanelId { id: 3, panel: "Again".to_owned() },
        ]
    );
    let rendered = messages(&dashboard);
    assert_eq!(rendered[0], "dashboard title must not be empty");
    assert_eq!(rendered[5], "panel \"\": width must be between 1 and 24, got 0");
    assert_eq!(
        rendered[7],
        "panel \"Pinned\": invalid grid position x=20, y=0, w=8, h=2"
    );
    assert_eq!(rendered[9], "panel \"Pinned\": duplicate query reference ID \"Q\"");
    assert_eq!(rendered[11], "duplicate explicit panel ID 3 on panel \"Again\"");
    assert!(errors.message().starts_with("dashboard validation failed with 12 error(s): "));
}

#[test]
fn variable_options_that_do_not_apply_are_reported() {
    let dashboard = Dashboard::new("Vars").variable(
        VariableBuilder::new("tier")
            .values(&["gold"])
            .regex("ignored")
            .sort(VariableSort::NumericalDescending),
    );
    let rendered = messages(&dashboard).join("\n");
    assert!(rendered.contains("regex does not apply to a custom variable"), "{rendered}");
    assert!(rendered.contains("sort does not apply to a custom variable"), "{rendered}");

    let none = Dashboard::new("Vars").variable(VariableBuilder::new("empty"));
    assert_eq!(
        messages(&none),
        ["variable \"empty\": set exactly one of query, plugin, value or values"]
    );

    let both = Dashboard::new("Vars")
        .variable(VariableBuilder::new("both").query(PrometheusQuery::new("up")).value("x"));
    assert_eq!(
        messages(&both),
        ["variable \"both\": value is ignored because query is set; set exactly one of query, plugin, value or values"]
    );
}

#[test]
fn constant_variable_reports_every_dropped_option() {
    let built = VariableBuilder::new("c").value("v").multi(true).build();
    match &built {
        Variable::Constant(c) => {
            assert_eq!(c.name, "c");
            assert_eq!(c.value, "v");
            assert_eq!(c.diagnostics, vec![VariableDiagnostic::OptionNotApplicable(VariableOption::Multi)]);
        }
        other => panic!("expected a constant variable, got {other:?}"),
    }
    let dashboard = Dashboard::new("Vars").variable(
        VariableBuilder::new("c")
            .value("v")
            .multi(true)
            .include_all(true)
            .all_value("*")
            .allow_custom_value(true)
            .skip_url_sync(true)
            .datasource(prometheus("p"))
            .refresh(VariableRefresh::OnTimeRangeChange)
            .default("v"),
    );
    let rendered = messages(&dashboard);
    for option in [
        "multi", "include_all", "all_value", "allow_custom_value", "skip_url_sync", "datasource",
        "refresh", "default",
    ] {
        let expected = format!("variable \"c\": {option} does not apply to a constant variable");
        assert!(rendered.contains(&expected), "{rendered:?}");
    }
    assert_eq!(rendered.len(), 8);
}

#[test]
fn custom_and_datasource_variables_report_a_dropped_datasource() {
    let custom = Dashboard::new("Vars").variable(
        VariableBuilder::new("tier")
            .values(&["gold"])
            .datasource(prometheus("p"))
            .refresh(VariableRefresh::Never),
    );
    assert_eq!(
        messages(&custom),
        [
            "variable \"tier\": datasource does not apply to a custom variable",
            "variable \"tier\": refresh does not apply to a custom variable",
        ]
    );
    let source = Dashboard::new("Vars")
        .variable(VariableBuilder::new("src").plugin("prometheus").datasource(prometheus("p")));
    assert_eq!(
        messages(&source),
        ["variable \"src\": datasource does not apply to a datasource variable"]
    );
    let query = Dashboard::new("Vars").variable(
        VariableBuilder::new("q").query(PrometheusQuery::new("up")).datasource(prometheus("p")),
    );
    assert!(query.validate().is_ok());
}

#[test]
fn references_that_no_query_carries_are_reported() {
    let dashboard = Dashboard::new("Refs").panel(
        Table::new("T")
            .query(PrometheusQuery::new("up"))
            .query(PrometheusQuery::new("down").ref_id("Q"))
            .transform(SortBy::asc("p95").only_ref_id("A"))
            .transform(SortBy::asc("p95").only_ref_id("Q"))
            .transform(SortBy::asc("p95").only_ref_id("B"))
            .override_field(FieldOverride::by_query("Q"))
            .override_field(FieldOverride::by_query("Z")),
    );
    assert_eq!(
        messages(&dashboard),
        [
            "panel \"T\": transformation references unknown query reference ID \"B\"",
            "panel \"T\": field override references unknown query reference ID \"Z\"",
        ]
    );
    assert!(dashboard.to_json_value().is_err());
}

#[test]
fn a_raw_transformation_needs_an_id() {
    let dashboard = Dashboard::new("Raw").panel(
        Table::new("T").query(PrometheusQuery::new("up")).transform(RawTransformation::new("")),
    );
    assert_eq!(messages(&dashboard), ["panel \"T\": raw transformation ID must not be empty"]);
    let named = Dashboard::new("Raw").panel(
        Table::new("T").query(PrometheusQuery::new("up")).transform(RawTransformation::new("merge")),
    );
    assert!(named.validate().is_ok());
}

#[test]
fn an_order_entry_two_renames_produce_is_ambiguous() {
    let dashboard = Dashboard::new("Organize").panel(
        Table::new("T").query(PrometheusQuery::new("up")).transform(
            OrganizeFields::new()
                .rename("Value #A", "RPS")
                .rename("Value #B", "RPS")
                .rename("Value #C", "Errors")
                .order(&["route", "RPS", "Errors"]),
        ),
    );
    assert_eq!(
        messages(&dashboard),
        ["panel \"T\": organize order entry \"RPS\" is produced by more than one rename"]
    );
    let err = dashboard.validate().unwrap_err();
    assert!(matches!(
        &err.errors()[0],
        ValidationError::AmbiguousOrganizeOrder { panel, name } if panel == "T" && name == "RPS"
    ));
}

#[test]
fn hiding_a_field_is_a_set_insertion() {
    let once = OrganizeFields::new().hide_field("Time");
    assert_eq!(OrganizeFields::new().hide_field("Time").hide_field("Time"), once);

    let ab = OrganizeFields::new().hide_field("a").hide_field("b").hide_field("a");
    let ba = OrganizeFields::new().hide_field("b").hide_field("a");
    assert_eq!(ab, ba);
    assert_ne!(ab, OrganizeFields::new().hide_field("a"));
    let emit = |o: OrganizeFields| {
        let dashboard =
            Dashboard::new("Organize").panel(Table::new("T").query(PrometheusQuery::new("up")).transform(o));
        as_value(&dashboard)
    };
    let (ab2, ba2) = (
        OrganizeFields::new().hide_field("a").hide_field("b"),
        OrganizeFields::new().hide_field("b").hide_field("a"),
    );
    assert_eq!(emit(ab2), emit(ba2));
}

#[test]
fn the_order_of_renames_and_queries_leaves_no_trace() {
    let xy = OrganizeFields::new().rename("b", "y").rename("a", "x").rename("b", "z");
    let yx = OrganizeFields::new().rename("a", "x").rename("b", "z");
    assert_eq!(xy, yx);
    assert_ne!(xy, OrganizeFields::new().rename("a", "x").rename("b", "y"));
    let ab = TimeSeriesToTable::new().query("B").query_with("A", Reducer::Max);
    let ba = TimeSeriesToTable::new().query_with("A", Reducer::Max).query("B");
    assert_eq!(ab, ba);
    assert_ne!(ab, TimeSeriesToTable::new().query("B").query("A"));
}

#[test]
fn reference_ids_cover_every_short_name_in_shortlex_order() {
    let letters: Vec<char> = ('A'..='Z').collect();
    let mut expected: Vec<String> = letters.iter().map(|c| c.to_string()).collect();
    for a in &letters {
        for b in &letters {
            expected.push(format!("{a}{b}"));
        }
    }
    let generated: Vec<String> = (0..expected.len() as u64).map(reference_id).collect();
    assert_eq!(generated, expected);
    for i in 0..2000u64 {
        let (a, b) = (reference_id(i), reference_id(i + 1));
        assert!(a.len() < b.len() || (a.len() == b.len() && a < b), "{a} then {b}");
    }
}

#[test]
fn the_flow_bottom_lies_below_every_placed_panel() {
    let mut flow = FlowLayout::new(2);
    let sizes = [(10u16, 3u16), (10, 5), (10, 2), (24, 4), (7, 6), (17, 1)];
    let mut placed = Vec::new();
    for (w, h) in sizes {
        placed.push(flow.place(&Stat::new("p").width(w).height(h).build()));
    }
    assert_eq!((placed[0].x, placed[0].y), (0, 2));
    for g in &placed {
        assert!(flow.bottom() >= g.y + g.height);
    }
    assert_eq!(flow.bottom(), 19);
    for j in 1..placed.len() {
        let (p, g) = (&placed[j - 1], &placed[j]);
        let same_line = g.y == p.y && g.x == p.x + p.width;
        let line_bottom = placed[..j].iter().filter(|k| k.y == p.y).map(|k| k.y + k.height).max();
        let wrapped = g.x == 0 && p.x + p.width + g.width > 24 && line_bottom == Some(g.y);
        assert!(same_line || wrapped, "{j}");
    }
}
