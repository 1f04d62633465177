//! Guards on the shipped example dashboards.
//!
//! The example programs are scanned for mistakes that a compiler cannot
//! see: escaped quotes inside raw strings reach Grafana as literal
//! backslashes, and an example without a uid cannot be addressed.

const BASIC_SOURCE: &str = r####"// SPDX-License-Identifier: Apache-2.0

use panelist::prelude::*;

fn main() -> panelist::Result<()> {
    let dashboard = dashboard! {
        title: "Service";
        uid: "basic";
        description: "A compact service-health dashboard.";
        refresh: "30s";

        row "Traffic" {
            timeseries "Requests" {
                query: promql!("sum(rate(requests_total[$__rate_interval]))");
                unit: reqps;
                width: 12;
            }

            stat "Errors" {
                query: promql!("sum(rate(errors_total[$__rate_interval]))");
                unit: reqps;
                width: 12;
            }
        }
    };

    dashboard.validate()?;
    let _json = dashboard.to_json_pretty()?;
    Ok(())
}
"####;

const PROMETHEUS_SOURCE: &str = r####"// SPDX-License-Identifier: Apache-2.0

use panelist::prelude::*;

fn main() -> panelist::Result<()> {
    let latency = Timeseries::new("Request latency")
        .query(
            PrometheusQuery::new(
                "histogram_quantile(0.50, sum by (le) (rate(request_duration_seconds_bucket[$__rate_interval])))",
            )
            .legend("p50"),
        )
        .query(
            PrometheusQuery::new(
                "histogram_quantile(0.99, sum by (le) (rate(request_duration_seconds_bucket[$__rate_interval])))",
            )
            .legend("p99"),
        )
        .unit(Unit::Seconds)
        .thresholds(
            Thresholds::new()
                .green(0.0)
                .yellow(0.5)
                .red(1.0),
        )
        .legend_options(
            Legend::new()
                .mode(LegendMode::Table)
                .calculations([
                    LegendCalculation::Last,
                    LegendCalculation::Min,
                    LegendCalculation::Max,
                ]),
        );

    let dashboard = Dashboard::new("Prometheus queries")
        .uid("prometheus")
        .datasource(prometheus("prometheus"))
        .row(Row::new("Latency").panel(latency));

    let _json = dashboard.to_json_pretty()?;
    Ok(())
}
"####;

const VARIABLES_SOURCE: &str = r####"//
//  ░█▀█░█▀█░█▀█░█▀▀░█░░░▀█▀░█▀▀░▀█▀
//  ░█▀▀░█▀█░█░█░█▀▀░█░░░░█░░▀▀█░░█░
//  ░▀░░░▀░▀░▀░▀░▀▀▀░▀▀▀░▀▀▀░▀▀▀░░▀░
//
//  Panelist — Strongly Typed Grafana Dashboards
//  https://github.com/prisma-risk/panelist
//
//  Copyright (c) 2026 Prisma Risk
//
//  Licensed under the Apache License, Version 2.0 (the "License");
//  you may not use this file except in compliance with the License.
//  You may obtain a copy of the License at
//
//      https://www.apache.org/licenses/LICENSE-2.0
//
//  Unless required by applicable law or agreed to in writing, software
//  distributed under the License is distributed on an "AS IS" BASIS,
//  WITHOUT WARRANTIES OR CONDITIONS OF ANY KIND, either express or implied.
//  See the License for the specific language governing permissions and
//  limitations under the License.
//

// Examples print the dashboard JSON so that `cargo run --example <name>`
// is useful on its own, and so the demo stack in `examples/demo` can
// provision the very same dashboards a reader builds. The workspace
// otherwise denies printing to stdout.
#![allow(clippy::print_stdout)]

use panelist::prelude::*;

fn main() -> panelist::Result<()> {
    let dashboard = dashboard! {
        title: "Variables";
        uid: "variables";
        datasource: prometheus("prometheus");

        variable "environment" {
            values: ["production", "staging"];
            default: "production";
        }

        variable "instance" {
            query: promql!("label_values(up{environment=\"$environment\"}, instance)");
            multi: true;
            include_all: true;
            refresh: time_range;
        }

        row "Fleet" {
            timeseries "Instances up" {
                query: promql!("sum(up{instance=~\"$instance\"})");
                unit: short;
            }
        }
    };

    dashboard.validate()?;
    println!("{}", dashboard.to_json_pretty()?);
    Ok(())
}
"####;

const LAYOUT_SOURCE: &str = r####"//
//  ░█▀█░█▀█░█▀█░█▀▀░█░░░▀█▀░█▀▀░▀█▀
//  ░█▀▀░█▀█░█░█░█▀▀░█░░░░█░░▀▀█░░█░
//  ░▀░░░▀░▀░▀░▀░▀▀▀░▀▀▀░▀▀▀░▀▀▀░░▀░
//
//  Panelist — Strongly Typed Grafana Dashboards
//  https://github.com/prisma-risk/panelist
//
//  Copyright (c) 2026 Prisma Risk
//
//  Licensed under the Apache License, Version 2.0 (the "License");
//  you may not use this file except in compliance with the License.
//  You may obtain a copy of the License at
//
//      https://www.apache.org/licenses/LICENSE-2.0
//
//  Unless required by applicable law or agreed to in writing, software
//  distributed under the License is distributed on an "AS IS" BASIS,
//  WITHOUT WARRANTIES OR CONDITIONS OF ANY KIND, either express or implied.
//  See the License for the specific language governing permissions and
//  limitations under the License.
//

use panelist::prelude::*;

fn service_stats(service: &str) -> Vec<Panel> {
    vec![
        Stat::new("Requests")
            .query(PrometheusQuery::new(format!(
                "sum(rate({service}_requests_total[$__rate_interval]))"
            )))
            .unit(Unit::RequestsPerSecond)
            .width(8)
            .into(),
        Stat::new("Errors")
            .query(PrometheusQuery::new(format!(
                "sum(rate({service}_errors_total[$__rate_interval]))"
            )))
            .unit(Unit::RequestsPerSecond)
            .width(8)
            .into(),
        Gauge::new("Availability")
            .query(PrometheusQuery::new(format!(
                "avg_over_time(up{{job=\"{service}\"}}[$__rate_interval])"
            )))
            .unit(Unit::Percent)
            .width(8)
            .into(),
    ]
}

fn main() -> panelist::Result<()> {
    let panels = service_stats("checkout");
    let dashboard = dashboard! {
        title: "Automatic layout";
        uid: "layout";

        row "Golden signals" {
            panels: panels;
        }
    };

    let _json = dashboard.to_json_pretty()?;
    Ok(())
}
"####;

const FULL_DASHBOARD_SOURCE: &str = r####"//
//  ░█▀█░█▀█░█▀█░█▀▀░█░░░▀█▀░█▀▀░▀█▀
//  ░█▀▀░█▀█░█░█░█▀▀░█░░░░█░░▀▀█░░█░
//  ░▀░░░▀░▀░▀░▀░▀▀▀░▀▀▀░▀▀▀░▀▀▀░░▀░
//
//  Panelist — Strongly Typed Grafana Dashboards
//  https://github.com/prisma-risk/panelist
//
//  Copyright (c) 2026 Prisma Risk
//
//  Licensed under the Apache License, Version 2.0 (the "License");
//  you may not use this file except in compliance with the License.
//  You may obtain a copy of the License at
//
//      https://www.apache.org/licenses/LICENSE-2.0
//
//  Unless required by applicable law or agreed to in writing, software
//  distributed under the License is distributed on an "AS IS" BASIS,
//  WITHOUT WARRANTIES OR CONDITIONS OF ANY KIND, either express or implied.
//  See the License for the specific language governing permissions and
//  limitations under the License.
//

use panelist::prelude::*;

fn main() -> panelist::Result<()> {
    let dashboard = dashboard! {
        title: "GeoIP";
        uid: "geoip";
        description: "GeoIP service health and performance.";
        tags: ["geoip", "production"];
        refresh: "30s";
        datasource: prometheus("prometheus");

        variable "instance" {
            query: promql!("label_values(up{job=\"geoip\"}, instance)");
            multi: true;
            include_all: true;
        }

        row "Overview" {
            stat "Availability" {
                query: promql!("avg_over_time(up{job=\"geoip\"}[$__rate_interval])");
                unit: percent;
                width: 6;

                thresholds {
                    red: 0.0;
                    yellow: 0.99;
                    green: 0.999;
                }
            }

            stat "Requests / sec" {
                query: promql!("sum(rate(geoip_http_requests_total[$__rate_interval]))");
                unit: reqps;
                width: 6;
            }

            stat "p99 latency" {
                query: promql!(r#"histogram_quantile(0.99, sum by (le) (rate(geoip_http_request_duration_seconds_bucket[$__rate_interval])))"#);
                unit: seconds;
                width: 6;
            }

            stat "Resolution rate" {
                query: promql!("sum(rate(geoip_resolutions_total[$__rate_interval]))");
                unit: ops;
                width: 6;
            }
        }

        row "Traffic" {
            timeseries "HTTP traffic" {
                query: promql!("sum by (status) (rate(geoip_http_requests_total{instance=~\"$instance\"}[$__rate_interval]))") {
                    legend: "{{status}}";
                }
                unit: reqps;
                width: 12;
            }

            timeseries "Latency" {
                query: promql!(r#"histogram_quantile(0.50, sum by (le) (rate(geoip_http_request_duration_seconds_bucket[$__rate_interval])))"#) {
                    legend: "p50";
                }
                query: promql!(r#"histogram_quantile(0.99, sum by (le) (rate(geoip_http_request_duration_seconds_bucket[$__rate_interval])))"#) {
                    legend: "p99";
                }
                unit: seconds;
                width: 12;

                legend {
                    position: bottom;
                    mode: table;
                    values: [last, min, max];
                }

                override field("p99") {
                    color: red;
                    line_width: 3;
                }
            }
        }

        row "Resolution" {
            timeseries "Resolution outcomes / second" {
                query: promql!("sum by (outcome) (rate(geoip_resolutions_total{instance=~\"$instance\"}[$__rate_interval]))") {
                    legend: "{{outcome}}";
                }
                unit: ops;
                width: 12;
            }

            table "Failures" {
                query: loki!("{service=\"geoip\"} |= \"resolution failed\"");
                datasource: loki("loki");
                width: 12;
            }
        }

        row "Reference" {
            text "Runbook" {
                content: "See the **GeoIP runbook** before paging the service owner.";
                mode: markdown;
            }
        }
    };

    dashboard.validate()?;
    let _json = dashboard.to_json_pretty()?;
    Ok(())
}
"####;

const ROUTE_PERFORMANCE_SOURCE: &str = r####"//
//  ░█▀█░█▀█░█▀█░█▀▀░█░░░▀█▀░█▀▀░▀█▀
//  ░█▀▀░█▀█░█░█░█▀▀░█░░░░█░░▀▀█░░█░
//  ░▀░░░▀░▀░▀░▀░▀▀▀░▀▀▀░▀▀▀░▀▀▀░░▀░
//
//  Panelist — Strongly Typed Grafana Dashboards
//  https://github.com/prisma-risk/panelist
//
//  Copyright (c) 2026 Prisma Risk
//
//  Licensed under the Apache License, Version 2.0 (the "License");
//  you may not use this file except in compliance with the License.
//  You may obtain a copy of the License at
//
//      https://www.apache.org/licenses/LICENSE-2.0
//
//  Unless required by applicable law or agreed to in writing, software
//  distributed under the License is distributed on an "AS IS" BASIS,
//  WITHOUT WARRANTIES OR CONDITIONS OF ANY KIND, either express or implied.
//  See the License for the specific language governing permissions and
//  limitations under the License.
//

use panelist::prelude::*;

fn main() -> panelist::Result<()> {
    let dashboard = dashboard! {
        title: "Route performance";
        uid: "route-performance";
        refresh: "30s";
        datasource: prometheus("prometheus-main");

        variable "route" {
            query: promql!("label_values(http_requests_total, route)");
            include_all: true;
        }

        row "Overview" {
            stat "Requests / sec" {
                query: promql!("sum(rate(http_requests_total[$__rate_interval]))");
                unit: reqps;
                width: 6;
            }

            stat "Error rate" {
                query: promql!("sum(rate(http_requests_total{status=~\"5..\"}[$__rate_interval])) / sum(rate(http_requests_total[$__rate_interval]))");
                unit: percent_unit;
                width: 6;

                thresholds {
                    green: 0.0;
                    yellow: 0.01;
                    red: 0.05;
                }
            }

            stat "p50" {
                query: promql!("histogram_quantile(0.50, sum by (le) (rate(http_request_duration_seconds_bucket[$__rate_interval])))");
                unit: seconds;
                width: 6;
            }

            stat "p95" {
                query: promql!("histogram_quantile(0.95, sum by (le) (rate(http_request_duration_seconds_bucket[$__rate_interval])))");
                unit: seconds;
                width: 6;
            }
        }

        row "Traffic" {
            timeseries "Request rate by status" {
                query: promql!("sum(rate(http_requests_total{status=~\"2..\"}[$__rate_interval]))") {
                    legend_format: "2xx";
                }
                query: promql!("sum(rate(http_requests_total{status=~\"4..\"}[$__rate_interval]))") {
                    legend_format: "4xx";
                }
                query: promql!("sum(rate(http_requests_total{status=~\"5..\"}[$__rate_interval]))") {
                    legend_format: "5xx";
                }
                unit: reqps;
                width: 12;
                stacking: normal;
            }

            bar_gauge "Top routes by traffic" {
                query: promql!("topk(10, sum by (route) (rate(http_requests_total[$__rate_interval])))") {
                    legend_format: "{{route}}";
                    instant: true;
                }
                unit: reqps;
                width: 12;
            }
        }

        row "Routes" {
            table "Route performance" {
                query: promql!("sum by (route) (rate(http_requests_total[$__rate_interval]))") {
                    ref_id: "A";
                    format: table;
                    instant: true;
                }
                query: promql!("sum by (route) (rate(http_requests_total{status=~\"4..\"}[$__rate_interval]))") {
                    ref_id: "B";
                    format: table;
                    instant: true;
                }
                query: promql!("sum by (route) (rate(http_requests_total{status=~\"5..\"}[$__rate_interval]))") {
                    ref_id: "C";
                    format: table;
                    instant: true;
                }
                query: promql!("sum by (route) (rate(http_requests_total{status=~\"5..\"}[$__rate_interval])) / sum by (route) (rate(http_requests_total[$__rate_interval]))") {
                    ref_id: "D";
                    format: table;
                    instant: true;
                }
                query: promql!("histogram_quantile(0.50, sum by (route, le) (rate(http_request_duration_seconds_bucket[$__rate_interval])))") {
                    ref_id: "E";
                    format: table;
                    instant: true;
                }
                query: promql!("histogram_quantile(0.95, sum by (route, le) (rate(http_request_duration_seconds_bucket[$__rate_interval])))") {
                    ref_id: "F";
                    format: table;
                    instant: true;
                }
                query: promql!("histogram_quantile(0.99, sum by (route, le) (rate(http_request_duration_seconds_bucket[$__rate_interval])))") {
                    ref_id: "G";
                    format: table;
                    instant: true;
                }
                query: promql!("histogram_quantile(0.95, sum by (route, le) (rate(http_request_duration_seconds_bucket[$__rate_interval])))") {
                    ref_id: "H";
                    format: time_series;
                }
                width: 24;

                transform time_series_to_table {
                    query "H": last;
                }
                transform join_by_field("route", outer_tabular);
                transform organize {
                    rename "Value #A" => "RPS";
                    rename "Value #B" => "4xx rate";
                    rename "Value #C" => "5xx rate";
                    rename "Value #D" => "error %";
                    rename "Value #E" => "p50";
                    rename "Value #F" => "p95";
                    rename "Value #G" => "p99";
                    // The `Value #<refId>` names on A-G come from the
                    // Prometheus datasource's own response transform, which
                    // renames each query's `Value` field to `Value #<refId>`
                    // whenever a panel has more than one `format: table`
                    // query — before any panel transformation runs.
                    // `timeSeriesTable`, by contrast, is a panel transform
                    // that names its synthesized trend field `Trend #<refId>`
                    // directly at creation; it never produces a plain
                    // `Value` field, so it never goes through that
                    // datasource-side renaming. Renaming from `Value #H`
                    // here would be a silent no-op, so this one differs from
                    // the other seven on purpose — do not "fix" it back to
                    // match them.
                    rename "Trend #H" => "Trend";
                    // The joined frame carries seven separate `Time` fields,
                    // one per `format: table` query above — `excludeByName`
                    // matches by name, so this one entry hides all of them.
                    hide "Time";
                    order ["route", "RPS", "4xx rate", "5xx rate", "error %", "p50", "p95", "p99", "Trend"];
                }
                sort_by: ("p95", desc);

                override field("RPS") {
                    unit: reqps;
                }

                override field("4xx rate") {
                    unit: reqps;
                }

                override field("5xx rate") {
                    unit: reqps;
                }

                override field("error %") {
                    unit: percent_unit;
                    cell: colored_background;
                    thresholds {
                        green: 0.0;
                        yellow: 0.01;
                        red: 0.05;
                    }
                }

                override field("p50") {
                    unit: seconds;
                }

                override field("p95") {
                    unit: seconds;
                    cell: colored_background;
                    thresholds {
                        green: 0.0;
                        yellow: 0.3;
                        red: 1.0;
                    }
                }

                override field("p99") {
                    unit: seconds;
                }

                override field("Trend") {
                    cell: sparkline { hide_value: true; line_width: 2.0; };
                }
            }
        }

        row "Latency" {
            timeseries "p95 by route" {
                query: promql!("topk(5, histogram_quantile(0.95, sum by (route, le) (rate(http_request_duration_seconds_bucket[$__rate_interval]))))") {
                    legend_format: "{{route}}";
                }
                unit: seconds;
                width: 12;
            }

            heatmap "Latency distribution" {
                query: promql!("sum by (le) (rate(http_request_duration_seconds_bucket{route=~\"$route\"}[$__rate_interval]))") {
                    format: heatmap;
                }
                unit: seconds;
                width: 12;
                color_scheme: "Oranges";
                color_steps: 64;
                cell_gap: 1;
                calculate: false;

                y_axis {
                    unit: seconds;
                    placement: left;
                }
            }
        }

        row "Health" {
            gauge "Error budget remaining" {
                query: promql!("100 - ((sum(increase(http_requests_total{status=~\"5..\"}[30d])) / sum(increase(http_requests_total[30d]))) * 100 / 0.1)");
                unit: percent;
                width: 12;

                thresholds {
                    red: 0.0;
                    yellow: 20.0;
                    green: 50.0;
                }
            }

            text "Runbook" {
                content: "See the **route performance runbook** before paging the on-call engineer. Escalate to #eng-oncall if the error rate stays above threshold for more than 15 minutes.";
                mode: markdown;
                width: 12;
            }
        }
    };

    dashboard.validate()?;
    let _json = dashboard.to_json_pretty()?;
    Ok(())
}
"####;

/// Every example, as (name, source).
const EXAMPLES: &[(&str, &str)] = &[
    ("basic", BASIC_SOURCE),
    ("prometheus", PROMETHEUS_SOURCE),
    ("variables", VARIABLES_SOURCE),
    ("layout", LAYOUT_SOURCE),
    ("full_dashboard", FULL_DASHBOARD_SOURCE),
    ("route_performance", ROUTE_PERFORMANCE_SOURCE),
];

/// Spans of `r#"…"#` raw string literals in `source`, as (line, contents).
fn raw_string_spans(source: &str) -> Vec<(usize, String)> {
    let bytes: Vec<char> = source.chars().collect();
    let mut spans = Vec::new();
    let mut index = 0;
    let mut line = 1;

    while index < bytes.len() {
        if bytes[index] == '\n' {
            line += 1;
        }

        // Only `r#"` … `"#` is scanned. A plain `r"…"` cannot contain a
        // quote at all, so it has no way to express this mistake.
        if bytes[index] == 'r' && bytes.get(index + 1) == Some(&'#') {
            let mut hashes = 0;
            let mut cursor = index + 1;
            while bytes.get(cursor) == Some(&'#') {
                hashes += 1;
                cursor += 1;
            }
            if bytes.get(cursor) == Some(&'"') {
                let start_line = line;
                let body_start = cursor + 1;
                let terminator: String = std::iter::once('"')
                    .chain(std::iter::repeat_n('#', hashes))
                    .collect();
                let rest: String = bytes[body_start..].iter().collect();
                if let Some(end) = rest.find(&terminator) {
                    let body = rest[..end].to_owned();
                    line += body.matches('\n').count();
                    index = body_start + body.chars().count() + terminator.len();
                    spans.push((start_line, body));
                    continue;
                }
            }
        }
        index += 1;
    }
    spans
}

/// A raw string does not process escapes, so `\"` inside one is two
/// characters that reach the query verbatim.
#[test]
fn no_example_escapes_a_quote_inside_a_raw_string() {
    let mut offenders = Vec::new();
    for (name, source) in EXAMPLES {
        for (line, body) in raw_string_spans(source) {
            if body.contains("\\\"") {
                offenders.push(format!("{name}.rs:{line}: {body}"));
            }
        }
    }
    assert!(
        offenders.is_empty(),
        "raw strings do not process escapes, so these `\\\"` sequences reach \
         Grafana as literal backslashes and make the query invalid. Drop the \
         backslashes, or use a normal string literal:\n  {}",
        offenders.join("\n  ")
    );
}

/// Every example sets a uid, so it can be provisioned and addressed.
#[test]
fn every_example_sets_a_dashboard_uid() {
    let missing: Vec<&str> = EXAMPLES
        .iter()
        .filter(|(_, source)| !source.contains("uid: \"") && !source.contains(".uid("))
        .map(|(name, _)| *name)
        .collect();
    assert!(
        missing.is_empty(),
        "these examples set no uid, so the demo stack cannot render them: {missing:?}"
    );
}

/// The guard is only worth having if it fires.
#[test]
fn the_raw_string_scanner_finds_what_it_claims_to() {
    let offending = r####"query: promql!(r#"up{job=\"x\"}"#);"####;
    let spans = raw_string_spans(offending);
    assert_eq!(spans.len(), 1, "one raw string should be found: {spans:?}");
    assert!(spans[0].1.contains("\\\""), "the escape should be visible");

    // A normal string literal containing `\"` is correct Rust and must not
    // be reported: the compiler turns it into a plain quote.
    let fine = r#"query: promql!("up{job=\"x\"}");"#;
    assert!(
        raw_string_spans(fine).is_empty(),
        "a normal string literal is not a raw string"
    );

    // A raw string with no escape is fine.
    let clean = r####"query: promql!(r#"up{job="x"}"#);"####;
    let spans = raw_string_spans(clean);
    assert_eq!(spans.len(), 1);
    assert!(!spans[0].1.contains("\\\""));
}
