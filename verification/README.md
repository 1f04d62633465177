# panelist

Strongly typed Grafana dashboards, with their behaviour proved.

Dashboards are authored with builders, validated, laid out on Grafana's
24-column grid with deterministic panel IDs and query reference IDs, and
lowered into the Grafana Classic dashboard JSON model.

## Layout

- `src/` — the library. Every function carries a contract that Verus proves.
  - authoring model: `dashboard`, `panel`, `query`, `field`, `table`,
    `heatmap`, `transformation`, `variable`, `visualization`, `datasource`
  - `json` — the JSON document model the dashboard is lowered into
  - `validation` — validation errors and their messages
  - `grafana` — validation, ID and reference-ID assignment, the flow
    layout, and the lowering of every part of a dashboard
- `tests/` — scenario tests on concrete dashboards and guards on the
  example sources.
- `app/` — JSON text output with `serde_json`, file output, and the
  `Error` type.

## Laws proved

- Generated panel IDs never collide with explicit ones or each other.
- Generated query reference IDs (`A`, `B`, … `AA`, …) never collide.
- Automatically placed panels stay inside the 24 columns and never overlap.
- Collapsed rows keep their panels and take one unit; expanded rows place
  their panels at the dashboard level below the header.
- Raw options win over typed options, which win over kind defaults.
- Thresholds always carry exactly one base step.
- Escaped frame names read back to the name.
