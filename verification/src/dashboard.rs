//! Dashboards, rows, links, and time ranges.
use vstd::prelude::*;

use crate::datasource::DataSource;
use crate::json::{raw_insert, raw_map, JsonV};
use crate::panel::{IntoPanel, Panel};
use crate::text::{str_views, views};
use crate::variable::{IntoVariable, Variable};

verus! {

/// The default Classic dashboard schema version emitted.
pub const DEFAULT_SCHEMA_VERSION: u32 = 41u32;

/// How panel cursors and tooltips are synchronized across a dashboard.
#[derive(Debug, Clone, Copy, PartialEq, Eq)]
pub enum DashboardCursorSync {
    /// Do not synchronize panel cursors or tooltips.
    Off,
    /// Share a crosshair between compatible panels.
    Crosshair,
    /// Share tooltips between compatible panels.
    Tooltip,
}

pub open spec fn cursor_sync_code(c: DashboardCursorSync) -> u8 {
    match c {
        DashboardCursorSync::Off => 0,
        DashboardCursorSync::Crosshair => 1,
        DashboardCursorSync::Tooltip => 2,
    }
}

impl DashboardCursorSync {
    /// Grafana's numeric `graphTooltip` code.
    pub fn as_grafana(self) -> (n: u8)
        ensures
            n == cursor_sync_code(self),
    {
        match self {
            DashboardCursorSync::Off => 0,
            DashboardCursorSync::Crosshair => 1,
            DashboardCursorSync::Tooltip => 2,
        }
    }
}

impl Default for DashboardCursorSync {
    fn default() -> (c: Self)
        ensures
            c == DashboardCursorSync::Off,
    {
        DashboardCursorSync::Off
    }
}

/// A Grafana dashboard time range.
#[derive(Debug, PartialEq, Eq)]
pub struct TimeRange {
    pub from: String,
    pub to: String,
}

impl TimeRange {
    /// Creates a relative or absolute Grafana time range.
    pub fn new(from: &str, to: &str) -> (t: Self)
        ensures
            t.from@ == from@,
            t.to@ == to@,
    {
        TimeRange { from: from.to_string(), to: to.to_string() }
    }
}

impl Default for TimeRange {
    /// The last six hours.
    fn default() -> (t: Self)
        ensures
            t.from@ == "now-6h"@,
            t.to@ == "now"@,
    {
        TimeRange::new("now-6h", "now")
    }
}

/// A dashboard or panel navigation link.
#[derive(Debug, PartialEq, Eq)]
pub struct DashboardLink {
    pub title: String,
    pub url: String,
    pub tooltip: Option<String>,
    pub target_blank: bool,
    pub include_vars: bool,
    pub keep_time: bool,
    pub tags: Vec<String>,
}

impl DashboardLink {
    /// Creates a URL link.
    pub fn new(title: &str, url: &str) -> (l: Self)
        ensures
            l.title@ == title@,
            l.url@ == url@,
            l.tooltip is None,
            !l.target_blank,
            !l.include_vars,
            !l.keep_time,
            l.tags@.len() == 0,
    {
        DashboardLink {
            title: title.to_string(),
            url: url.to_string(),
            tooltip: None,
            target_blank: false,
            include_vars: false,
            keep_time: false,
            tags: Vec::new(),
        }
    }

    /// Sets hover text.
    pub fn tooltip(self, tooltip: &str) -> (l: Self)
        ensures
            l == (DashboardLink { tooltip: l.tooltip, ..self }),
            l.tooltip matches Some(t) && t@ == tooltip@,
    {
        DashboardLink { tooltip: Some(tooltip.to_string()), ..self }
    }

    /// Opens the link in a new browser tab.
    pub fn target_blank(self, target_blank: bool) -> (l: Self)
        ensures
            l == (DashboardLink { target_blank, ..self }),
    {
        DashboardLink { target_blank, ..self }
    }

    /// Preserves dashboard variables in the generated URL.
    pub fn include_vars(self, include_vars: bool) -> (l: Self)
        ensures
            l == (DashboardLink { include_vars, ..self }),
    {
        DashboardLink { include_vars, ..self }
    }

    /// Preserves the current time range in the generated URL.
    pub fn keep_time(self, keep_time: bool) -> (l: Self)
        ensures
            l == (DashboardLink { keep_time, ..self }),
    {
        DashboardLink { keep_time, ..self }
    }

    /// Limits dashboard-discovery links to matching tags.
    pub fn tags(self, tags: &[&str]) -> (l: Self)
        ensures
            l == (DashboardLink { tags: l.tags, ..self }),
            views(l.tags@) == str_views(tags@),
    {
        DashboardLink { tags: crate::text::own_strings(tags), ..self }
    }
}

/// A semantic row that owns an ordered set of panels.
pub struct Row {
    pub title: String,
    pub collapsed: bool,
    pub panels: Vec<Panel>,
}

impl Row {
    /// Creates an expanded row.
    pub fn new(title: &str) -> (r: Self)
        ensures
            r.title@ == title@,
            !r.collapsed,
            r.panels@.len() == 0,
    {
        Row { title: title.to_string(), collapsed: false, panels: Vec::new() }
    }

    /// Controls whether Grafana initially collapses this row.
    pub fn collapsed(self, collapsed: bool) -> (r: Self)
        ensures
            r == (Row { collapsed, ..self }),
    {
        Row { collapsed, ..self }
    }

    /// Appends one panel.
    pub fn panel<P: IntoPanel>(self, panel: P) -> (r: Self)
        ensures
            r == (Row { panels: r.panels, ..self }),
            r.panels@ == self.panels@.push(panel.spec_panel()),
    {
        let mut panels = self.panels;
        panels.push(panel.into_panel());
        Row { panels, ..self }
    }

    /// Appends a reusable fragment of panels.
    pub fn panels<P: IntoPanel>(self, fragment: Vec<P>) -> (r: Self)
        ensures
            r == (Row { panels: r.panels, ..self }),
            r.panels@ == self.panels@ + fragment@.map_values(|p: P| p.spec_panel()),
    {
        let mut panels = self.panels;
        let mut rest = fragment;
        let ghost all = rest@;
        let ghost mut k: int = 0;
        while rest.len() > 0
            invariant
                0 <= k <= all.len(),
                k + rest@.len() == all.len(),
                rest@ =~= all.skip(k),
                panels@ =~= self.panels@ + all.take(k).map_values(|p: P| p.spec_panel()),
            decreases rest.len(),
        {
            let next = rest.remove(0);
            proof {
                assert(next == all[k]);
            }
            panels.push(next.into_panel());
            proof {
                assert(all.take(k + 1) =~= all.take(k).push(all[k]));
                k = k + 1;
                assert(rest@ =~= all.skip(k));
            }
        }
        proof {
            assert(all.take(all.len() as int) =~= all);
        }
        Row { panels, ..self }
    }
}

/// An ordered top-level dashboard item.
#[non_exhaustive]
pub enum DashboardItem {
    /// A semantic row and its panels.
    Row(Row),
    /// A panel outside an explicit row.
    Panel(Box<Panel>),
}

/// A strongly typed dashboard authoring model.
pub struct Dashboard {
    pub title: String,
    pub uid: Option<String>,
    pub description: Option<String>,
    pub tags: Vec<String>,
    pub refresh: Option<String>,
    pub time: TimeRange,
    pub timezone: String,
    pub editable: bool,
    pub cursor_sync: DashboardCursorSync,
    pub schema_version: u32,
    pub version: u32,
    pub datasource: Option<DataSource>,
    pub variables: Vec<Variable>,
    pub links: Vec<DashboardLink>,
    pub items: Vec<DashboardItem>,
    pub extra: Vec<(String, serde_json::Value)>,
}

impl Dashboard {
    /// Creates an empty dashboard with a six-hour time range.
    pub fn new(title: &str) -> (d: Self)
        ensures
            d.title@ == title@,
            d.uid is None,
            d.description is None,
            d.tags@.len() == 0,
            d.refresh is None,
            d.time.from@ == "now-6h"@,
            d.time.to@ == "now"@,
            d.timezone@ == "browser"@,
            d.editable,
            d.cursor_sync == DashboardCursorSync::Off,
            d.schema_version == DEFAULT_SCHEMA_VERSION,
            d.version == 0,
            d.datasource is None,
            d.variables@.len() == 0,
            d.links@.len() == 0,
            d.items@.len() == 0,
            d.extra@.len() == 0,
    {
        Dashboard {
            title: title.to_string(),
            uid: None,
            description: None,
            tags: Vec::new(),
            refresh: None,
            time: TimeRange::default(),
            timezone: "browser".to_string(),
            editable: true,
            cursor_sync: DashboardCursorSync::Off,
            schema_version: DEFAULT_SCHEMA_VERSION,
            version: 0,
            datasource: None,
            variables: Vec::new(),
            links: Vec::new(),
            items: Vec::new(),
            extra: Vec::new(),
        }
    }

    /// Sets a stable Grafana dashboard UID.
    pub fn uid(self, uid: &str) -> (d: Self)
        ensures
            d == (Dashboard { uid: d.uid, ..self }),
            d.uid matches Some(s) && s@ == uid@,
    {
        Dashboard { uid: Some(uid.to_string()), ..self }
    }

    /// Sets the dashboard description.
    pub fn description(self, description: &str) -> (d: Self)
        ensures
            d == (Dashboard { description: d.description, ..self }),
            d.description matches Some(s) && s@ == description@,
    {
        Dashboard { description: Some(description.to_string()), ..self }
    }

    /// Replaces dashboard tags.
    pub fn tags(self, tags: &[&str]) -> (d: Self)
        ensures
            d == (Dashboard { tags: d.tags, ..self }),
            views(d.tags@) == str_views(tags@),
    {
        Dashboard { tags: crate::text::own_strings(tags), ..self }
    }

    /// Sets Grafana's auto-refresh interval, such as `30s` or `1m`.
    pub fn refresh(self, refresh: &str) -> (d: Self)
        ensures
            d == (Dashboard { refresh: d.refresh, ..self }),
            d.refresh matches Some(s) && s@ == refresh@,
    {
        Dashboard { refresh: Some(refresh.to_string()), ..self }
    }

    /// Sets the initial dashboard time range.
    pub fn time(self, time: TimeRange) -> (d: Self)
        ensures
            d == (Dashboard { time, ..self }),
    {
        Dashboard { time, ..self }
    }

    /// Sets the Grafana timezone string, commonly `browser` or `utc`.
    pub fn timezone(self, timezone: &str) -> (d: Self)
        ensures
            d == (Dashboard { timezone: d.timezone, ..self }),
            d.timezone@ == timezone@,
    {
        Dashboard { timezone: timezone.to_string(), ..self }
    }

    /// Controls whether viewers can edit the dashboard.
    pub fn editable(self, editable: bool) -> (d: Self)
        ensures
            d == (Dashboard { editable, ..self }),
    {
        Dashboard { editable, ..self }
    }

    /// Controls crosshair or tooltip synchronization between panels.
    pub fn cursor_sync(self, cursor_sync: DashboardCursorSync) -> (d: Self)
        ensures
            d == (Dashboard { cursor_sync, ..self }),
    {
        Dashboard { cursor_sync, ..self }
    }

    /// Overrides the emitted Classic dashboard schema version.
    pub fn schema_version(self, schema_version: u32) -> (d: Self)
        ensures
            d == (Dashboard { schema_version, ..self }),
    {
        Dashboard { schema_version, ..self }
    }

    /// Sets the persisted Grafana dashboard revision.
    pub fn version(self, version: u32) -> (d: Self)
        ensures
            d == (Dashboard { version, ..self }),
    {
        Dashboard { version, ..self }
    }

    /// Sets the datasource inherited by panels, targets, and query variables.
    pub fn datasource(self, datasource: DataSource) -> (d: Self)
        ensures
            d == (Dashboard { datasource: Some(datasource), ..self }),
    {
        Dashboard { datasource: Some(datasource), ..self }
    }

    /// Appends a dashboard variable.
    pub fn variable<V: IntoVariable>(self, variable: V) -> (d: Self)
        ensures
            d == (Dashboard { variables: d.variables, ..self }),
            d.variables@.drop_last() == self.variables@,
            d.variables@.len() == self.variables@.len() + 1,
            variable.produces(d.variables@.last()),
    {
        let mut variables = self.variables;
        variables.push(variable.into_variable());
        assert(variables@.drop_last() =~= self.variables@);
        Dashboard { variables, ..self }
    }

    /// Appends a dashboard link.
    pub fn link(self, link: DashboardLink) -> (d: Self)
        ensures
            d == (Dashboard { links: d.links, ..self }),
            d.links@ == self.links@.push(link),
    {
        let mut links = self.links;
        links.push(link);
        Dashboard { links, ..self }
    }

    /// Appends a semantic row.
    pub fn row(self, row: Row) -> (d: Self)
        ensures
            d == (Dashboard { items: d.items, ..self }),
            d.items@ == self.items@.push(DashboardItem::Row(row)),
    {
        let mut items = self.items;
        items.push(DashboardItem::Row(row));
        Dashboard { items, ..self }
    }

    /// Appends a panel outside an explicit row.
    pub fn panel<P: IntoPanel>(self, panel: P) -> (d: Self)
        ensures
            d == (Dashboard { items: d.items, ..self }),
            d.items@ == self.items@.push(DashboardItem::Panel(Box::new(panel.spec_panel()))),
    {
        let mut items = self.items;
        items.push(DashboardItem::Panel(Box::new(panel.into_panel())));
        Dashboard { items, ..self }
    }

    /// Appends reusable top-level panels.
    pub fn panels<P: IntoPanel>(self, fragment: Vec<P>) -> (d: Self)
        ensures
            d == (Dashboard { items: d.items, ..self }),
            d.items@ == self.items@ + fragment@.map_values(
                |p: P| DashboardItem::Panel(Box::new(p.spec_panel())),
            ),
    {
        let mut items = self.items;
        let mut rest = fragment;
        let ghost all = rest@;
        let ghost mut k: int = 0;
        while rest.len() > 0
            invariant
                0 <= k <= all.len(),
                k + rest@.len() == all.len(),
                rest@ =~= all.skip(k),
                items@ =~= self.items@ + all.take(k).map_values(
                    |p: P| DashboardItem::Panel(Box::new(p.spec_panel())),
                ),
            decreases rest.len(),
        {
            let next = rest.remove(0);
            proof {
                assert(next == all[k]);
            }
            items.push(DashboardItem::Panel(Box::new(next.into_panel())));
            proof {
                assert(all.take(k + 1) =~= all.take(k).push(all[k]));
                k = k + 1;
                assert(rest@ =~= all.skip(k));
            }
        }
        proof {
            assert(all.take(all.len() as int) =~= all);
        }
        Dashboard { items, ..self }
    }

    /// Adds an unsupported top-level Grafana dashboard property.
    pub fn extra(self, key: &str, value: serde_json::Value) -> (d: Self)
        ensures
            d == (Dashboard { extra: d.extra, ..self }),
            raw_map(d.extra@) == raw_map(self.extra@).insert(key@, JsonV::Raw(value)),
    {
        let mut extra = self.extra;
        raw_insert(&mut extra, key, value);
        Dashboard { extra, ..self }
    }
}

} // verus!
