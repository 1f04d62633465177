//! Dashboard variables.
use vstd::prelude::*;

use crate::datasource::DataSource;
use crate::query::{IntoQuery, Query};
use crate::text::{str_views, views};

verus! {

/// When Grafana should refresh a variable's values.
#[derive(Debug, Clone, Copy, PartialEq, Eq)]
pub enum VariableRefresh {
    /// Do not refresh automatically.
    Never,
    /// Refresh when the dashboard loads.
    OnDashboardLoad,
    /// Refresh whenever the dashboard time range changes.
    OnTimeRangeChange,
}

pub open spec fn refresh_code(r: VariableRefresh) -> u8 {
    match r {
        VariableRefresh::Never => 0,
        VariableRefresh::OnDashboardLoad => 1,
        VariableRefresh::OnTimeRangeChange => 2,
    }
}

impl VariableRefresh {
    /// Grafana's numeric refresh code.
    pub fn as_grafana(self) -> (n: u8)
        ensures
            n == refresh_code(self),
    {
        match self {
            VariableRefresh::Never => 0,
            VariableRefresh::OnDashboardLoad => 1,
            VariableRefresh::OnTimeRangeChange => 2,
        }
    }
}

impl Default for VariableRefresh {
    fn default() -> (r: Self)
        ensures
            r == VariableRefresh::Never,
    {
        VariableRefresh::Never
    }
}

/// The selectors that choose a variable's kind.
#[derive(Debug, Clone, Copy, PartialEq, Eq)]
pub enum VariableSelector {
    /// `query`: a query variable.
    Query,
    /// `plugin`: a datasource variable.
    Plugin,
    /// `value`: a constant variable.
    Value,
    /// `values`: a custom variable.
    Values,
}

/// Options that only some variable kinds have a Grafana key for.
#[derive(Debug, Clone, Copy, PartialEq, Eq)]
pub enum VariableOption {
    Regex,
    Sort,
    AllValue,
    AllowCustomValue,
    Multi,
    IncludeAll,
    Datasource,
    SkipUrlSync,
    Refresh,
    Default,
    Current,
}

/// A problem `VariableBuilder` found while resolving a variable, carried on
/// the produced variable so validation can report it.
#[derive(Debug, Clone, Copy, PartialEq, Eq)]
pub enum VariableDiagnostic {
    /// An option was set that this variable kind has no Grafana key for.
    OptionNotApplicable(VariableOption),
    /// Nothing selected a variable kind.
    NoSelector,
    /// More than one selector was set.
    ConflictingSelectors {
        /// The selector that decided the kind.
        chosen: VariableSelector,
        /// A selector that was ignored.
        ignored: VariableSelector,
    },
}

/// Ordering applied to values returned for a query variable.
#[derive(Debug, Clone, Copy, PartialEq, Eq)]
pub enum VariableSort {
    /// Keep the datasource response order.
    Disabled,
    /// Sort text alphabetically in ascending order.
    AlphabeticalAscending,
    /// Sort text alphabetically in descending order.
    AlphabeticalDescending,
    /// Sort numeric values in ascending order.
    NumericalAscending,
    /// Sort numeric values in descending order.
    NumericalDescending,
    /// Sort alphabetically without regard to letter case, ascending.
    AlphabeticalCaseInsensitiveAscending,
    /// Sort alphabetically without regard to letter case, descending.
    AlphabeticalCaseInsensitiveDescending,
}

pub open spec fn sort_code(s: VariableSort) -> u8 {
    match s {
        VariableSort::Disabled => 0,
        VariableSort::AlphabeticalAscending => 1,
        VariableSort::AlphabeticalDescending => 2,
        VariableSort::NumericalAscending => 3,
        VariableSort::NumericalDescending => 4,
        VariableSort::AlphabeticalCaseInsensitiveAscending => 5,
        VariableSort::AlphabeticalCaseInsensitiveDescending => 6,
    }
}

impl VariableSort {
    /// Grafana's numeric sort code.
    pub fn as_grafana(self) -> (n: u8)
        ensures
            n == sort_code(self),
    {
        match self {
            VariableSort::Disabled => 0,
            VariableSort::AlphabeticalAscending => 1,
            VariableSort::AlphabeticalDescending => 2,
            VariableSort::NumericalAscending => 3,
            VariableSort::NumericalDescending => 4,
            VariableSort::AlphabeticalCaseInsensitiveAscending => 5,
            VariableSort::AlphabeticalCaseInsensitiveDescending => 6,
        }
    }
}

impl Default for VariableSort {
    fn default() -> (s: Self)
        ensures
            s == VariableSort::Disabled,
    {
        VariableSort::Disabled
    }
}

/// The current text and value persisted for a dashboard variable.
#[derive(Debug, PartialEq, Eq)]
pub struct VariableSelection {
    pub text: String,
    pub value: String,
    pub selected: bool,
}

impl VariableSelection {
    /// Creates a selected variable value with independently controlled display
    /// text and interpolation value.
    pub fn new(text: &str, value: &str) -> (s: Self)
        ensures
            s.text@ == text@,
            s.value@ == value@,
            s.selected,
    {
        VariableSelection { text: text.to_string(), value: value.to_string(), selected: true }
    }

    /// Controls whether Grafana marks this persisted value as selected.
    pub fn selected(self, selected: bool) -> (s: Self)
        ensures
            s == (VariableSelection { selected, ..self }),
    {
        VariableSelection { selected, ..self }
    }

    pub fn copy(&self) -> (s: Self)
        ensures
            s == *self,
    {
        VariableSelection { text: self.text.clone(), value: self.value.clone(), selected: self.selected }
    }
}

/// A selection whose text and value are both `value`.
pub open spec fn same_selection(s: VariableSelection, value: Seq<char>) -> bool {
    s.text@ == value && s.value@ == value && s.selected
}

fn selection_of(value: &String) -> (s: VariableSelection)
    ensures
        same_selection(s, value@),
{
    VariableSelection { text: value.clone(), value: value.clone(), selected: true }
}

/// A variable that lets viewers select one Grafana datasource instance.
#[derive(Debug, PartialEq, Eq)]
pub struct DataSourceVariable {
    pub name: String,
    pub label: Option<String>,
    pub plugin_id: String,
    pub current: Option<VariableSelection>,
    pub regex: String,
    pub refresh: VariableRefresh,
    pub hidden: bool,
    pub skip_url_sync: bool,
    /// Problems found while producing this variable; never serialized.
    pub diagnostics: Vec<VariableDiagnostic>,
}

impl DataSourceVariable {
    /// Creates a variable for datasource instances of `plugin_id`.
    pub fn new(name: &str, plugin_id: &str) -> (v: Self)
        ensures
            v.name@ == name@,
            v.label is None,
            v.plugin_id@ == plugin_id@,
            v.current is None,
            v.regex@ == Seq::<char>::empty(),
            v.refresh == VariableRefresh::OnDashboardLoad,
            !v.hidden,
            !v.skip_url_sync,
            v.diagnostics@.len() == 0,
    {
        DataSourceVariable {
            name: name.to_string(),
            label: None,
            plugin_id: plugin_id.to_string(),
            current: None,
            regex: String::new(),
            refresh: VariableRefresh::OnDashboardLoad,
            hidden: false,
            skip_url_sync: false,
            diagnostics: Vec::new(),
        }
    }

    /// Sets the visible label.
    pub fn label(self, label: &str) -> (v: Self)
        ensures
            v == (DataSourceVariable { label: v.label, ..self }),
            v.label matches Some(x) && x@ == label@,
    {
        DataSourceVariable { label: Some(label.to_string()), ..self }
    }

    /// Sets a persisted selection whose display text and value are both
    /// `value`.
    pub fn default(self, value: &str) -> (v: Self)
        ensures
            v == (DataSourceVariable { current: v.current, ..self }),
            v.current matches Some(c) && same_selection(c, value@),
    {
        let value = value.to_string();
        DataSourceVariable { current: Some(selection_of(&value)), ..self }
    }

    /// Sets the complete persisted selection.
    pub fn current(self, current: VariableSelection) -> (v: Self)
        ensures
            v == (DataSourceVariable { current: Some(current), ..self }),
    {
        DataSourceVariable { current: Some(current), ..self }
    }

    /// Filters selectable datasource names with a Grafana regular expression.
    pub fn regex(self, regex: &str) -> (v: Self)
        ensures
            v == (DataSourceVariable { regex: v.regex, ..self }),
            v.regex@ == regex@,
    {
        DataSourceVariable { regex: regex.to_string(), ..self }
    }

    /// Controls when Grafana refreshes the datasource list.
    pub fn refresh(self, refresh: VariableRefresh) -> (v: Self)
        ensures
            v == (DataSourceVariable { refresh, ..self }),
    {
        DataSourceVariable { refresh, ..self }
    }

    /// Hides the variable control.
    pub fn hidden(self, hidden: bool) -> (v: Self)
        ensures
            v == (DataSourceVariable { hidden, ..self }),
    {
        DataSourceVariable { hidden, ..self }
    }

    /// Excludes the variable from dashboard URLs.
    pub fn skip_url_sync(self, skip_url_sync: bool) -> (v: Self)
        ensures
            v == (DataSourceVariable { skip_url_sync, ..self }),
    {
        DataSourceVariable { skip_url_sync, ..self }
    }
}

/// A datasource-backed dashboard variable.
#[derive(Debug, PartialEq)]
pub struct QueryVariable {
    pub name: String,
    pub label: Option<String>,
    pub query: Query,
    pub current: Option<VariableSelection>,
    pub datasource: Option<DataSource>,
    pub multi: bool,
    pub include_all: bool,
    pub all_value: Option<String>,
    pub allow_custom_value: bool,
    pub skip_url_sync: bool,
    pub regex: String,
    pub sort: VariableSort,
    pub hidden: bool,
    pub refresh: VariableRefresh,
    /// Problems found while producing this variable; never serialized.
    pub diagnostics: Vec<VariableDiagnostic>,
}

impl QueryVariable {
    /// Creates a datasource query variable.
    pub fn new<Q: IntoQuery>(name: &str, query: Q) -> (v: Self)
        ensures
            v.name@ == name@,
            v.label is None,
            v.query == query.spec_query(),
            v.current is None,
            v.datasource is None,
            !v.multi,
            !v.include_all,
            v.all_value is None,
            !v.allow_custom_value,
            !v.skip_url_sync,
            v.regex@ == Seq::<char>::empty(),
            v.sort == VariableSort::AlphabeticalAscending,
            !v.hidden,
            v.refresh == VariableRefresh::OnDashboardLoad,
            v.diagnostics@.len() == 0,
    {
        QueryVariable {
            name: name.to_string(),
            label: None,
            query: query.into_query(),
            current: None,
            datasource: None,
            multi: false,
            include_all: false,
            all_value: None,
            allow_custom_value: false,
            skip_url_sync: false,
            regex: String::new(),
            sort: VariableSort::AlphabeticalAscending,
            hidden: false,
            refresh: VariableRefresh::OnDashboardLoad,
            diagnostics: Vec::new(),
        }
    }

    /// Sets the visible label.
    pub fn label(self, label: &str) -> (v: Self)
        ensures
            v == (QueryVariable { label: v.label, ..self }),
            v.label matches Some(x) && x@ == label@,
    {
        QueryVariable { label: Some(label.to_string()), ..self }
    }

    /// Sets a persisted selection whose display text and value are both
    /// `value`.
    pub fn default(self, value: &str) -> (v: Self)
        ensures
            v == (QueryVariable { current: v.current, ..self }),
            v.current matches Some(c) && same_selection(c, value@),
    {
        let value = value.to_string();
        QueryVariable { current: Some(selection_of(&value)), ..self }
    }

    /// Sets the complete persisted selection.
    pub fn current(self, current: VariableSelection) -> (v: Self)
        ensures
            v == (QueryVariable { current: Some(current), ..self }),
    {
        QueryVariable { current: Some(current), ..self }
    }

    /// Sets a datasource specifically for this variable.
    pub fn datasource(self, datasource: DataSource) -> (v: Self)
        ensures
            v == (QueryVariable { datasource: Some(datasource), ..self }),
    {
        QueryVariable { datasource: Some(datasource), ..self }
    }

    /// Enables multiple selection.
    pub fn multi(self, multi: bool) -> (v: Self)
        ensures
            v == (QueryVariable { multi, ..self }),
    {
        QueryVariable { multi, ..self }
    }

    /// Adds Grafana's `All` selection.
    pub fn include_all(self, include_all: bool) -> (v: Self)
        ensures
            v == (QueryVariable { include_all, ..self }),
    {
        QueryVariable { include_all, ..self }
    }

    /// Sets the interpolated value used for Grafana's `All` selection.
    pub fn all_value(self, all_value: &str) -> (v: Self)
        ensures
            v == (QueryVariable { all_value: v.all_value, ..self }),
            v.all_value matches Some(x) && x@ == all_value@,
    {
        QueryVariable { all_value: Some(all_value.to_string()), ..self }
    }

    /// Allows values not returned by the datasource query.
    pub fn allow_custom_value(self, allow_custom_value: bool) -> (v: Self)
        ensures
            v == (QueryVariable { allow_custom_value, ..self }),
    {
        QueryVariable { allow_custom_value, ..self }
    }

    /// Excludes the variable from dashboard URLs.
    pub fn skip_url_sync(self, skip_url_sync: bool) -> (v: Self)
        ensures
            v == (QueryVariable { skip_url_sync, ..self }),
    {
        QueryVariable { skip_url_sync, ..self }
    }

    /// Filters values returned by the datasource query.
    pub fn regex(self, regex: &str) -> (v: Self)
        ensures
            v == (QueryVariable { regex: v.regex, ..self }),
            v.regex@ == regex@,
    {
        QueryVariable { regex: regex.to_string(), ..self }
    }

    /// Controls how returned values are sorted.
    pub fn sort(self, sort: VariableSort) -> (v: Self)
        ensures
            v == (QueryVariable { sort, ..self }),
    {
        QueryVariable { sort, ..self }
    }

    /// Hides the variable control.
    pub fn hidden(self, hidden: bool) -> (v: Self)
        ensures
            v == (QueryVariable { hidden, ..self }),
    {
        QueryVariable { hidden, ..self }
    }

    /// Controls automatic refresh.
    pub fn refresh(self, refresh: VariableRefresh) -> (v: Self)
        ensures
            v == (QueryVariable { refresh, ..self }),
    {
        QueryVariable { refresh, ..self }
    }
}

/// A dashboard variable with a fixed list of selectable values.
#[derive(Debug, PartialEq)]
pub struct CustomVariable {
    pub name: String,
    pub label: Option<String>,
    pub values: Vec<String>,
    pub current: Option<VariableSelection>,
    pub multi: bool,
    pub include_all: bool,
    pub all_value: Option<String>,
    pub allow_custom_value: bool,
    pub skip_url_sync: bool,
    pub hidden: bool,
    /// Problems found while producing this variable; never serialized.
    pub diagnostics: Vec<VariableDiagnostic>,
}

impl CustomVariable {
    /// Creates a custom variable.
    pub fn new(name: &str, values: &[&str]) -> (v: Self)
        ensures
            v.name@ == name@,
            v.label is None,
            views(v.values@) == str_views(values@),
            v.current is None,
            !v.multi,
            !v.include_all,
            v.all_value is None,
            !v.allow_custom_value,
            !v.skip_url_sync,
            !v.hidden,
            v.diagnostics@.len() == 0,
    {
        CustomVariable {
            name: name.to_string(),
            label: None,
            values: crate::text::own_strings(values),
            current: None,
            multi: false,
            include_all: false,
            all_value: None,
            allow_custom_value: false,
            skip_url_sync: false,
            hidden: false,
            diagnostics: Vec::new(),
        }
    }

    /// Sets the visible label.
    pub fn label(self, label: &str) -> (v: Self)
        ensures
            v == (CustomVariable { label: v.label, ..self }),
            v.label matches Some(x) && x@ == label@,
    {
        CustomVariable { label: Some(label.to_string()), ..self }
    }

    /// Sets a persisted selection whose display text and value are both
    /// `value`.
    pub fn default(self, value: &str) -> (v: Self)
        ensures
            v == (CustomVariable { current: v.current, ..self }),
            v.current matches Some(c) && same_selection(c, value@),
    {
        let value = value.to_string();
        CustomVariable { current: Some(selection_of(&value)), ..self }
    }

    /// Sets the complete persisted selection.
    pub fn current(self, current: VariableSelection) -> (v: Self)
        ensures
            v == (CustomVariable { current: Some(current), ..self }),
    {
        CustomVariable { current: Some(current), ..self }
    }

    /// Enables multiple selection.
    pub fn multi(self, multi: bool) -> (v: Self)
        ensures
            v == (CustomVariable { multi, ..self }),
    {
        CustomVariable { multi, ..self }
    }

    /// Adds Grafana's `All` selection.
    pub fn include_all(self, include_all: bool) -> (v: Self)
        ensures
            v == (CustomVariable { include_all, ..self }),
    {
        CustomVariable { include_all, ..self }
    }

    /// Sets the interpolated value used for Grafana's `All` selection.
    pub fn all_value(self, all_value: &str) -> (v: Self)
        ensures
            v == (CustomVariable { all_value: v.all_value, ..self }),
            v.all_value matches Some(x) && x@ == all_value@,
    {
        CustomVariable { all_value: Some(all_value.to_string()), ..self }
    }

    /// Allows values outside the configured list.
    pub fn allow_custom_value(self, allow_custom_value: bool) -> (v: Self)
        ensures
            v == (CustomVariable { allow_custom_value, ..self }),
    {
        CustomVariable { allow_custom_value, ..self }
    }

    /// Excludes the variable from dashboard URLs.
    pub fn skip_url_sync(self, skip_url_sync: bool) -> (v: Self)
        ensures
            v == (CustomVariable { skip_url_sync, ..self }),
    {
        CustomVariable { skip_url_sync, ..self }
    }

    /// Hides the variable control.
    pub fn hidden(self, hidden: bool) -> (v: Self)
        ensures
            v == (CustomVariable { hidden, ..self }),
    {
        CustomVariable { hidden, ..self }
    }
}

/// A dashboard variable with one constant value.
#[derive(Debug, PartialEq)]
pub struct ConstantVariable {
    pub name: String,
    pub label: Option<String>,
    pub value: String,
    pub hidden: bool,
    /// Problems found while producing this variable; never serialized.
    pub diagnostics: Vec<VariableDiagnostic>,
}

impl ConstantVariable {
    /// Creates a constant variable.
    pub fn new(name: &str, value: &str) -> (v: Self)
        ensures
            v.name@ == name@,
            v.label is None,
            v.value@ == value@,
            !v.hidden,
            v.diagnostics@.len() == 0,
    {
        ConstantVariable {
            name: name.to_string(),
            label: None,
            value: value.to_string(),
            hidden: false,
            diagnostics: Vec::new(),
        }
    }

    /// Sets the visible label.
    pub fn label(self, label: &str) -> (v: Self)
        ensures
            v == (ConstantVariable { label: v.label, ..self }),
            v.label matches Some(x) && x@ == label@,
    {
        ConstantVariable { label: Some(label.to_string()), ..self }
    }

    /// Hides the variable control.
    pub fn hidden(self, hidden: bool) -> (v: Self)
        ensures
            v == (ConstantVariable { hidden, ..self }),
    {
        ConstantVariable { hidden, ..self }
    }
}

/// Any supported dashboard variable.
#[derive(Debug, PartialEq)]
#[non_exhaustive]
pub enum Variable {
    /// Grafana datasource instance selector.
    DataSource(DataSourceVariable),
    /// Datasource query variable.
    Query(Box<QueryVariable>),
    /// Fixed list variable.
    Custom(CustomVariable),
    /// Constant variable.
    Constant(ConstantVariable),
}

impl Variable {
    pub open spec fn spec_name(self) -> String {
        match self {
            Variable::DataSource(v) => v.name,
            Variable::Query(v) => v.name,
            Variable::Custom(v) => v.name,
            Variable::Constant(v) => v.name,
        }
    }

    pub open spec fn spec_diagnostics(self) -> Seq<VariableDiagnostic> {
        match self {
            Variable::DataSource(v) => v.diagnostics@,
            Variable::Query(v) => v.diagnostics@,
            Variable::Custom(v) => v.diagnostics@,
            Variable::Constant(v) => v.diagnostics@,
        }
    }

    /// The variable's name.
    pub fn name(&self) -> (n: &String)
        ensures
            *n == self.spec_name(),
    {
        match self {
            Variable::DataSource(v) => &v.name,
            Variable::Query(v) => &v.name,
            Variable::Custom(v) => &v.name,
            Variable::Constant(v) => &v.name,
        }
    }

    /// The problems found while producing the variable.
    pub fn diagnostics(&self) -> (d: &Vec<VariableDiagnostic>)
        ensures
            d@ == self.spec_diagnostics(),
    {
        match self {
            Variable::DataSource(v) => &v.diagnostics,
            Variable::Query(v) => &v.diagnostics,
            Variable::Custom(v) => &v.diagnostics,
            Variable::Constant(v) => &v.diagnostics,
        }
    }
}

/// A flexible helper that selects a typed variable by which selector is set.
#[derive(Debug, PartialEq)]
pub struct VariableBuilder {
    pub name: String,
    pub label: Option<String>,
    pub query: Option<Query>,
    pub values: Vec<String>,
    pub constant: Option<String>,
    pub default: Option<String>,
    pub datasource: Option<DataSource>,
    pub multi: bool,
    pub include_all: bool,
    pub hidden: bool,
    pub refresh: VariableRefresh,
    pub plugin: Option<String>,
    pub regex: Option<String>,
    pub sort: Option<VariableSort>,
    pub all_value: Option<String>,
    pub allow_custom_value: bool,
    pub skip_url_sync: bool,
    pub current: Option<VariableSelection>,
}

/// `[NotApplicable(option)]` when `set`, else nothing.
pub open spec fn flag(set: bool, option: VariableOption) -> Seq<VariableDiagnostic> {
    if set {
        seq![VariableDiagnostic::OptionNotApplicable(option)]
    } else {
        Seq::empty()
    }
}

/// Appends `NotApplicable(option)` when `set`.
fn flag_exec(d: &mut Vec<VariableDiagnostic>, set: bool, option: VariableOption)
    ensures
        final(d)@ == old(d)@ + flag(set, option),
{
    if set {
        d.push(VariableDiagnostic::OptionNotApplicable(option));
    }
    assert(final(d)@ =~= old(d)@ + flag(set, option));
}

/// `[selector]` when `set`, else nothing.
pub open spec fn selector_if(set: bool, selector: VariableSelector) -> Seq<VariableSelector> {
    if set {
        seq![selector]
    } else {
        Seq::empty()
    }
}

/// The regex text a builder's optional regex stands for.
pub open spec fn regex_or_empty(regex: Option<String>) -> Seq<char> {
    match regex {
        Some(r) => r@,
        None => Seq::empty(),
    }
}

impl VariableBuilder {
    /// The selectors that were set, in precedence order.
    pub open spec fn selectors(self) -> Seq<VariableSelector> {
        selector_if(self.query is Some, VariableSelector::Query) + selector_if(
            self.plugin is Some,
            VariableSelector::Plugin,
        ) + selector_if(self.constant is Some, VariableSelector::Value) + selector_if(
            self.values@.len() > 0,
            VariableSelector::Values,
        )
    }

    /// The options set that the chosen kind has no Grafana key for.
    #[verifier::opaque]
    pub open spec fn not_applicable(self, kind: VariableSelector) -> Seq<VariableDiagnostic> {
        let refresh_set = self.refresh != VariableRefresh::OnDashboardLoad;
        match kind {
            VariableSelector::Query => Seq::empty(),
            VariableSelector::Plugin => flag(self.sort is Some, VariableOption::Sort) + flag(
                self.all_value is Some,
                VariableOption::AllValue,
            ) + flag(self.allow_custom_value, VariableOption::AllowCustomValue) + flag(
                self.multi,
                VariableOption::Multi,
            ) + flag(self.include_all, VariableOption::IncludeAll) + flag(
                self.datasource is Some,
                VariableOption::Datasource,
            ),
            VariableSelector::Value => flag(self.regex is Some, VariableOption::Regex) + flag(
                self.sort is Some,
                VariableOption::Sort,
            ) + flag(self.multi, VariableOption::Multi) + flag(
                self.include_all,
                VariableOption::IncludeAll,
            ) + flag(self.all_value is Some, VariableOption::AllValue) + flag(
                self.allow_custom_value,
                VariableOption::AllowCustomValue,
            ) + flag(self.skip_url_sync, VariableOption::SkipUrlSync) + flag(
                self.datasource is Some,
                VariableOption::Datasource,
            ) + flag(refresh_set, VariableOption::Refresh) + flag(
                self.default is Some,
                VariableOption::Default,
            ) + flag(self.current is Some, VariableOption::Current),
            VariableSelector::Values => flag(self.regex is Some, VariableOption::Regex) + flag(
                self.sort is Some,
                VariableOption::Sort,
            ) + flag(self.datasource is Some, VariableOption::Datasource) + flag(
                refresh_set,
                VariableOption::Refresh,
            ),
        }
    }

    /// Every problem the built variable carries: no selector at all, or one
    /// conflict per ignored selector followed by each inapplicable option.
    pub open spec fn expected_diagnostics(self) -> Seq<VariableDiagnostic> {
        let selected = self.selectors();
        if selected.len() == 0 {
            seq![VariableDiagnostic::NoSelector]
        } else {
            selected.drop_first().map_values(
                |ignored: VariableSelector|
                    VariableDiagnostic::ConflictingSelectors { chosen: selected[0], ignored },
            ) + self.not_applicable(selected[0])
        }
    }

    /// The persisted selection: an explicit one, else one made from the
    /// default value.
    pub open spec fn current_is(self, current: Option<VariableSelection>) -> bool {
        match self.current {
            Some(c) => current == Some(c),
            None => match self.default {
                Some(d) => current matches Some(c) && same_selection(c, d@),
                None => current is None,
            },
        }
    }

    /// Whether `v` is the variable this builder resolves to.
    pub open spec fn builds(self, v: Variable) -> bool {
        let selected = self.selectors();
        &&& v.spec_name() == self.name
        &&& v.spec_diagnostics() == self.expected_diagnostics()
        &&& if selected.len() == 0 {
            v matches Variable::Custom(c) && c.label == self.label && c.values@.len() == 0
                && c.current is None && !c.multi && !c.include_all && c.all_value is None
                && !c.allow_custom_value && !c.skip_url_sync && c.hidden == self.hidden
        } else if selected[0] == VariableSelector::Query {
            v matches Variable::Query(q) && q.label == self.label && Some(q.query) == self.query
                && self.current_is(q.current) && q.datasource == self.datasource && q.multi
                == self.multi && q.include_all == self.include_all && q.all_value
                == self.all_value && q.allow_custom_value == self.allow_custom_value
                && q.skip_url_sync == self.skip_url_sync && q.regex@ == regex_or_empty(self.regex)
                && q.sort == (match self.sort {
                Some(s) => s,
                None => VariableSort::AlphabeticalAscending,
            }) && q.hidden == self.hidden && q.refresh == self.refresh
        } else if selected[0] == VariableSelector::Plugin {
            v matches Variable::DataSource(d) && d.label == self.label && Some(d.plugin_id)
                == self.plugin && self.current_is(d.current) && d.regex@ == regex_or_empty(
                self.regex,
            ) && d.refresh == self.refresh && d.hidden == self.hidden && d.skip_url_sync
                == self.skip_url_sync
        } else if selected[0] == VariableSelector::Value {
            v matches Variable::Constant(c) && c.label == self.label && Some(c.value)
                == self.constant && c.hidden == self.hidden
        } else {
            v matches Variable::Custom(c) && c.label == self.label && c.values == self.values
                && self.current_is(c.current) && c.multi == self.multi && c.include_all
                == self.include_all && c.all_value == self.all_value && c.allow_custom_value
                == self.allow_custom_value && c.skip_url_sync == self.skip_url_sync && c.hidden
                == self.hidden
        }
    }

    /// Starts a variable definition.
    pub fn new(name: &str) -> (b: Self)
        ensures
            b.name@ == name@,
            b.label is None,
            b.query is None,
            b.values@.len() == 0,
            b.constant is None,
            b.default is None,
            b.datasource is None,
            !b.multi,
            !b.include_all,
            !b.hidden,
            b.refresh == VariableRefresh::OnDashboardLoad,
            b.plugin is None,
            b.regex is None,
            b.sort is None,
            b.all_value is None,
            !b.allow_custom_value,
            !b.skip_url_sync,
            b.current is None,
    {
        VariableBuilder {
            name: name.to_string(),
            label: None,
            query: None,
            values: Vec::new(),
            constant: None,
            default: None,
            datasource: None,
            multi: false,
            include_all: false,
            hidden: false,
            refresh: VariableRefresh::OnDashboardLoad,
            plugin: None,
            regex: None,
            sort: None,
            all_value: None,
            allow_custom_value: false,
            skip_url_sync: false,
            current: None,
        }
    }

    /// Selects a query variable.
    pub fn query<Q: IntoQuery>(self, query: Q) -> (b: Self)
        ensures
            b == (VariableBuilder { query: Some(query.spec_query()), ..self }),
    {
        VariableBuilder { query: Some(query.into_query()), ..self }
    }

    /// Selects a custom variable.
    pub fn values(self, values: &[&str]) -> (b: Self)
        ensures
            b == (VariableBuilder { values: b.values, ..self }),
            views(b.values@) == str_views(values@),
    {
        VariableBuilder { values: crate::text::own_strings(values), ..self }
    }

    /// Selects a constant variable.
    pub fn value(self, value: &str) -> (b: Self)
        ensures
            b == (VariableBuilder { constant: b.constant, ..self }),
            b.constant matches Some(c) && c@ == value@,
    {
        VariableBuilder { constant: Some(value.to_string()), ..self }
    }

    /// Sets a visible label.
    pub fn label(self, label: &str) -> (b: Self)
        ensures
            b == (VariableBuilder { label: b.label, ..self }),
            b.label matches Some(x) && x@ == label@,
    {
        VariableBuilder { label: Some(label.to_string()), ..self }
    }

    /// Sets the selected value.
    pub fn default(self, default: &str) -> (b: Self)
        ensures
            b == (VariableBuilder { default: b.default, ..self }),
            b.default matches Some(x) && x@ == default@,
    {
        VariableBuilder { default: Some(default.to_string()), ..self }
    }

    /// Sets the datasource a query variable runs against.
    pub fn datasource(self, datasource: DataSource) -> (b: Self)
        ensures
            b == (VariableBuilder { datasource: Some(datasource), ..self }),
    {
        VariableBuilder { datasource: Some(datasource), ..self }
    }

    /// Enables multiple values.
    pub fn multi(self, multi: bool) -> (b: Self)
        ensures
            b == (VariableBuilder { multi, ..self }),
    {
        VariableBuilder { multi, ..self }
    }

    /// Enables the `All` option.
    pub fn include_all(self, include_all: bool) -> (b: Self)
        ensures
            b == (VariableBuilder { include_all, ..self }),
    {
        VariableBuilder { include_all, ..self }
    }

    /// Hides the variable.
    pub fn hidden(self, hidden: bool) -> (b: Self)
        ensures
            b == (VariableBuilder { hidden, ..self }),
    {
        VariableBuilder { hidden, ..self }
    }

    /// Sets refresh behavior.
    pub fn refresh(self, refresh: VariableRefresh) -> (b: Self)
        ensures
            b == (VariableBuilder { refresh, ..self }),
    {
        VariableBuilder { refresh, ..self }
    }

    /// Selects a datasource variable over the given Grafana plugin id.
    pub fn plugin(self, plugin_id: &str) -> (b: Self)
        ensures
            b == (VariableBuilder { plugin: b.plugin, ..self }),
            b.plugin matches Some(x) && x@ == plugin_id@,
    {
        VariableBuilder { plugin: Some(plugin_id.to_string()), ..self }
    }

    /// Restricts a query or datasource variable's values with a regex; on other
    /// kinds validation reports it.
    pub fn regex(self, regex: &str) -> (b: Self)
        ensures
            b == (VariableBuilder { regex: b.regex, ..self }),
            b.regex matches Some(x) && x@ == regex@,
    {
        VariableBuilder { regex: Some(regex.to_string()), ..self }
    }

    /// Orders a query variable's values; on other kinds validation reports it.
    pub fn sort(self, sort: VariableSort) -> (b: Self)
        ensures
            b == (VariableBuilder { sort: Some(sort), ..self }),
    {
        VariableBuilder { sort: Some(sort), ..self }
    }

    /// Sets the value substituted when "All" is selected.
    pub fn all_value(self, all_value: &str) -> (b: Self)
        ensures
            b == (VariableBuilder { all_value: b.all_value, ..self }),
            b.all_value matches Some(x) && x@ == all_value@,
    {
        VariableBuilder { all_value: Some(all_value.to_string()), ..self }
    }

    /// Allows values typed by the viewer that the query did not return.
    pub fn allow_custom_value(self, allow_custom_value: bool) -> (b: Self)
        ensures
            b == (VariableBuilder { allow_custom_value, ..self }),
    {
        VariableBuilder { allow_custom_value, ..self }
    }

    /// Keeps the variable's value out of the dashboard URL.
    pub fn skip_url_sync(self, skip_url_sync: bool) -> (b: Self)
        ensures
            b == (VariableBuilder { skip_url_sync, ..self }),
    {
        VariableBuilder { skip_url_sync, ..self }
    }

    /// Sets the initially selected value, overriding `default`.
    pub fn current(self, current: VariableSelection) -> (b: Self)
        ensures
            b == (VariableBuilder { current: Some(current), ..self }),
    {
        VariableBuilder { current: Some(current), ..self }
    }

    fn resolve_current(current: Option<VariableSelection>, default: Option<String>) -> (c: Option<
        VariableSelection,
    >)
        ensures
            match current {
                Some(s) => c == Some(s),
                None => match default {
                    Some(d) => c matches Some(s) && same_selection(s, d@),
                    None => c is None,
                },
            },
    {
        match current {
            Some(selection) => Some(selection),
            None => match default {
                Some(value) => Some(selection_of(&value)),
                None => None,
            },
        }
    }

    fn not_applicable_exec(&self, kind: VariableSelector) -> (d: Vec<VariableDiagnostic>)
        ensures
            d@ == self.not_applicable(kind),
    {
        let mut d: Vec<VariableDiagnostic> = Vec::new();
        let refresh_set = match self.refresh {
            VariableRefresh::OnDashboardLoad => false,
            _ => true,
        };
        match kind {
            VariableSelector::Query => {},
            VariableSelector::Plugin => {
                flag_exec(&mut d, self.sort.is_some(), VariableOption::Sort);
                flag_exec(&mut d, self.all_value.is_some(), VariableOption::AllValue);
                flag_exec(&mut d, self.allow_custom_value, VariableOption::AllowCustomValue);
                flag_exec(&mut d, self.multi, VariableOption::Multi);
                flag_exec(&mut d, self.include_all, VariableOption::IncludeAll);
                flag_exec(&mut d, self.datasource.is_some(), VariableOption::Datasource);
            },
            VariableSelector::Value => {
                flag_exec(&mut d, self.regex.is_some(), VariableOption::Regex);
                flag_exec(&mut d, self.sort.is_some(), VariableOption::Sort);
                flag_exec(&mut d, self.multi, VariableOption::Multi);
                flag_exec(&mut d, self.include_all, VariableOption::IncludeAll);
                flag_exec(&mut d, self.all_value.is_some(), VariableOption::AllValue);
                flag_exec(&mut d, self.allow_custom_value, VariableOption::AllowCustomValue);
                flag_exec(&mut d, self.skip_url_sync, VariableOption::SkipUrlSync);
                flag_exec(&mut d, self.datasource.is_some(), VariableOption::Datasource);
                flag_exec(&mut d, refresh_set, VariableOption::Refresh);
                flag_exec(&mut d, self.default.is_some(), VariableOption::Default);
                flag_exec(&mut d, self.current.is_some(), VariableOption::Current);
            },
            VariableSelector::Values => {
                flag_exec(&mut d, self.regex.is_some(), VariableOption::Regex);
                flag_exec(&mut d, self.sort.is_some(), VariableOption::Sort);
                flag_exec(&mut d, self.datasource.is_some(), VariableOption::Datasource);
                flag_exec(&mut d, refresh_set, VariableOption::Refresh);
            },
        }
        proof {
            reveal(VariableBuilder::not_applicable);
        }
        assert(d@ =~= self.not_applicable(kind));
        d
    }

    /// The selectors that were set, in precedence order.
    fn selectors_exec(&self) -> (selected: Vec<VariableSelector>)
        ensures
            selected@ == self.selectors(),
    {
        let mut selected: Vec<VariableSelector> = Vec::new();
        if self.query.is_some() {
            selected.push(VariableSelector::Query);
        }
        if self.plugin.is_some() {
            selected.push(VariableSelector::Plugin);
        }
        if self.constant.is_some() {
            selected.push(VariableSelector::Value);
        }
        if self.values.len() > 0 {
            selected.push(VariableSelector::Values);
        }
        assert(selected@ =~= self.selectors());
        selected
    }

    /// The problems the built variable carries.
    fn diagnostics_exec(&self, selected: &Vec<VariableSelector>) -> (d: Vec<VariableDiagnostic>)
        requires
            selected@ == self.selectors(),
        ensures
            d@ == self.expected_diagnostics(),
    {
        let mut diagnostics: Vec<VariableDiagnostic> = Vec::new();
        if selected.len() == 0 {
            diagnostics.push(VariableDiagnostic::NoSelector);
            assert(diagnostics@ =~= self.expected_diagnostics());
            return diagnostics;
        }
        let chosen = selected[0];
        let mut i: usize = 1;
        while i < selected.len()
            invariant
                1 <= i <= selected@.len(),
                chosen == selected@[0],
                diagnostics@ =~= selected@.subrange(1, i as int).map_values(
                    |ignored: VariableSelector|
                        VariableDiagnostic::ConflictingSelectors { chosen, ignored },
                ),
            decreases selected@.len() - i,
        {
            diagnostics.push(VariableDiagnostic::ConflictingSelectors { chosen, ignored: selected[i] });
            i += 1;
        }
        let mut rest = self.not_applicable_exec(chosen);
        diagnostics.append(&mut rest);
        proof {
            assert(selected@.subrange(1, selected@.len() as int) =~= selected@.drop_first());
            assert(diagnostics@ =~= self.expected_diagnostics());
        }
        diagnostics
    }

    fn build_query(self, diagnostics: Vec<VariableDiagnostic>) -> (v: Variable)
        requires
            self.selectors().len() > 0,
            self.selectors()[0] == VariableSelector::Query,
            diagnostics@ == self.expected_diagnostics(),
        ensures
            self.builds(v),
    {
        let current = VariableBuilder::resolve_current(self.current, self.default);
        let regex = match self.regex {
            Some(r) => r,
            None => String::new(),
        };
        let sort = match self.sort {
            Some(s) => s,
            None => VariableSort::AlphabeticalAscending,
        };
        let query = self.query.unwrap();
        Variable::Query(Box::new(QueryVariable {
            name: self.name,
            label: self.label,
            query,
            current,
            datasource: self.datasource,
            multi: self.multi,
            include_all: self.include_all,
            all_value: self.all_value,
            allow_custom_value: self.allow_custom_value,
            skip_url_sync: self.skip_url_sync,
            regex,
            sort,
            hidden: self.hidden,
            refresh: self.refresh,
            diagnostics,
        }))
    }

    fn build_datasource(self, diagnostics: Vec<VariableDiagnostic>) -> (v: Variable)
        requires
            self.selectors().len() > 0,
            self.selectors()[0] == VariableSelector::Plugin,
            diagnostics@ == self.expected_diagnostics(),
        ensures
            self.builds(v),
    {
        let current = VariableBuilder::resolve_current(self.current, self.default);
        let regex = match self.regex {
            Some(r) => r,
            None => String::new(),
        };
        let plugin_id = self.plugin.unwrap();
        Variable::DataSource(DataSourceVariable {
            name: self.name,
            label: self.label,
            plugin_id,
            current,
            regex,
            refresh: self.refresh,
            hidden: self.hidden,
            skip_url_sync: self.skip_url_sync,
            diagnostics,
        })
    }

    fn build_constant(self, diagnostics: Vec<VariableDiagnostic>) -> (v: Variable)
        requires
            self.selectors().len() > 0,
            self.selectors()[0] == VariableSelector::Value,
            diagnostics@ == self.expected_diagnostics(),
        ensures
            self.builds(v),
    {
        let value = self.constant.unwrap();
        Variable::Constant(ConstantVariable {
            name: self.name,
            label: self.label,
            value,
            hidden: self.hidden,
            diagnostics,
        })
    }

    fn build_custom(self, diagnostics: Vec<VariableDiagnostic>) -> (v: Variable)
        requires
            self.selectors().len() > 0,
            self.selectors()[0] == VariableSelector::Values,
            diagnostics@ == self.expected_diagnostics(),
        ensures
            self.builds(v),
    {
        let current = VariableBuilder::resolve_current(self.current, self.default);
        Variable::Custom(CustomVariable {
            name: self.name,
            label: self.label,
            values: self.values,
            current,
            multi: self.multi,
            include_all: self.include_all,
            all_value: self.all_value,
            allow_custom_value: self.allow_custom_value,
            skip_url_sync: self.skip_url_sync,
            hidden: self.hidden,
            diagnostics,
        })
    }

    /// Resolves the accumulated fields into a concrete variable. The kind is
    /// chosen by the first selector set among `query`, `plugin`, `value`
    /// and `values`; a builder with none of them, or with more than one,
    /// still produces a variable and records the problem for validation.
    pub fn build(self) -> (v: Variable)
        ensures
            self.builds(v),
    {
        let selected = self.selectors_exec();
        let diagnostics = self.diagnostics_exec(&selected);
        if selected.len() == 0 {
            return Variable::Custom(CustomVariable {
                name: self.name,
                label: self.label,
                values: Vec::new(),
                current: None,
                multi: false,
                include_all: false,
                all_value: None,
                allow_custom_value: false,
                skip_url_sync: false,
                hidden: self.hidden,
                diagnostics,
            });
        }
        match selected[0] {
            VariableSelector::Query => self.build_query(diagnostics),
            VariableSelector::Plugin => self.build_datasource(diagnostics),
            VariableSelector::Value => self.build_constant(diagnostics),
            VariableSelector::Values => self.build_custom(diagnostics),
        }
    }
}

/// A value that can be added as a dashboard variable.
pub trait IntoVariable: Sized {
    /// Whether `v` is the variable this value stands for.
    spec fn produces(self, v: Variable) -> bool;

    fn into_variable(self) -> (v: Variable)
        ensures
            self.produces(v),
    ;
}

impl IntoVariable for Variable {
    open spec fn produces(self, v: Variable) -> bool {
        v == self
    }

    fn into_variable(self) -> (v: Variable) {
        self
    }
}

impl IntoVariable for DataSourceVariable {
    open spec fn produces(self, v: Variable) -> bool {
        v == Variable::DataSource(self)
    }

    fn into_variable(self) -> (v: Variable) {
        Variable::DataSource(self)
    }
}

impl IntoVariable for QueryVariable {
    open spec fn produces(self, v: Variable) -> bool {
        v == Variable::Query(Box::new(self))
    }

    fn into_variable(self) -> (v: Variable) {
        Variable::Query(Box::new(self))
    }
}

impl IntoVariable for CustomVariable {
    open spec fn produces(self, v: Variable) -> bool {
        v == Variable::Custom(self)
    }

    fn into_variable(self) -> (v: Variable) {
        Variable::Custom(self)
    }
}

impl IntoVariable for ConstantVariable {
    open spec fn produces(self, v: Variable) -> bool {
        v == Variable::Constant(self)
    }

    fn into_variable(self) -> (v: Variable) {
        Variable::Constant(self)
    }
}

impl IntoVariable for VariableBuilder {
    open spec fn produces(self, v: Variable) -> bool {
        self.builds(v)
    }

    fn into_variable(self) -> (v: Variable) {
        self.build()
    }
}

} // verus!
