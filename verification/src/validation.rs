//! Validation errors and their messages.
use vstd::prelude::*;

use crate::text::{decimal, join, push_decimal, push_str};
use crate::variable::{VariableOption, VariableSelector};

verus! {

/// The kind a variable resolved to.
#[derive(Debug, Clone, Copy, PartialEq, Eq)]
pub enum VariableKind {
    DataSource,
    Query,
    Custom,
    Constant,
}

pub open spec fn variable_kind_name(kind: VariableKind) -> Seq<char> {
    match kind {
        VariableKind::DataSource => "datasource"@,
        VariableKind::Query => "query"@,
        VariableKind::Custom => "custom"@,
        VariableKind::Constant => "constant"@,
    }
}

fn variable_kind_str(kind: VariableKind) -> (s: &'static str)
    ensures
        s@ == variable_kind_name(kind),
{
    match kind {
        VariableKind::DataSource => "datasource",
        VariableKind::Query => "query",
        VariableKind::Custom => "custom",
        VariableKind::Constant => "constant",
    }
}

/// The builder option's name, as the author writes it.
pub open spec fn variable_option_name(option: VariableOption) -> Seq<char> {
    match option {
        VariableOption::Regex => "regex"@,
        VariableOption::Sort => "sort"@,
        VariableOption::AllValue => "all_value"@,
        VariableOption::AllowCustomValue => "allow_custom_value"@,
        VariableOption::Multi => "multi"@,
        VariableOption::IncludeAll => "include_all"@,
        VariableOption::Datasource => "datasource"@,
        VariableOption::SkipUrlSync => "skip_url_sync"@,
        VariableOption::Refresh => "refresh"@,
        VariableOption::Default => "default"@,
        VariableOption::Current => "current"@,
    }
}

fn variable_option_str(option: VariableOption) -> (s: &'static str)
    ensures
        s@ == variable_option_name(option),
{
    match option {
        VariableOption::Regex => "regex",
        VariableOption::Sort => "sort",
        VariableOption::AllValue => "all_value",
        VariableOption::AllowCustomValue => "allow_custom_value",
        VariableOption::Multi => "multi",
        VariableOption::IncludeAll => "include_all",
        VariableOption::Datasource => "datasource",
        VariableOption::SkipUrlSync => "skip_url_sync",
        VariableOption::Refresh => "refresh",
        VariableOption::Default => "default",
        VariableOption::Current => "current",
    }
}

/// The selector's name, as the author writes it.
pub open spec fn variable_selector_name(selector: VariableSelector) -> Seq<char> {
    match selector {
        VariableSelector::Query => "query"@,
        VariableSelector::Plugin => "plugin"@,
        VariableSelector::Value => "value"@,
        VariableSelector::Values => "values"@,
    }
}

fn variable_selector_str(selector: VariableSelector) -> (s: &'static str)
    ensures
        s@ == variable_selector_name(selector),
{
    match selector {
        VariableSelector::Query => "query",
        VariableSelector::Plugin => "plugin",
        VariableSelector::Value => "value",
        VariableSelector::Values => "values",
    }
}

/// A specific mistake in an authored dashboard.
#[derive(Debug, PartialEq, Eq)]
#[non_exhaustive]
pub enum ValidationError {
    /// The dashboard title is empty.
    MissingDashboardTitle,
    /// A panel title is empty.
    MissingPanelTitle,
    /// A row title is empty.
    MissingRowTitle,
    /// A variable name is empty.
    MissingVariableName,
    /// A panel width falls outside Grafana's 24-column grid.
    InvalidPanelWidth { panel: String, width: u16 },
    /// A panel height is zero.
    InvalidPanelHeight { panel: String, height: u16 },
    /// An explicit grid position falls outside the 24-column grid.
    InvalidGridPosition { panel: String, x: u16, y: u16, width: u16, height: u16 },
    /// Two authored panels use the same explicit ID.
    DuplicatePanelId { id: u32, panel: String },
    /// Two queries in a panel use the same explicit reference ID.
    DuplicateQueryRefId { panel: String, ref_id: String },
    /// A query expression is empty.
    MissingQueryExpression { panel: String },
    /// Threshold values are not finite and strictly increasing.
    InvalidThresholds { panel: String },
    /// A transformation references a query reference ID the panel does not
    /// have.
    UnknownTransformationRefId { panel: String, ref_id: String },
    /// A field override's `by_query` matcher references a query reference ID
    /// the panel does not have.
    UnknownOverrideRefId { panel: String, ref_id: String },
    /// A transformation is missing a required field name.
    MissingTransformationField { panel: String, transformation: String },
    /// A raw transformation has no Grafana transformation ID.
    MissingTransformationId { panel: String },
    /// An organize order entry names a field that two or more renames
    /// produce, so it cannot be traced back to one source field.
    AmbiguousOrganizeOrder { panel: String, name: String },
    /// A variable builder had no selector set.
    NoVariableSelector { variable: String },
    /// A variable builder had more than one selector set; the first decided
    /// the kind.
    ConflictingVariableSelectors {
        variable: String,
        chosen: VariableSelector,
        ignored: VariableSelector,
    },
    /// An option was set that the variable's kind has no Grafana key for.
    VariableOptionNotApplicable { variable: String, option: VariableOption, kind: VariableKind },
}

/// The mathematical model of a [`ValidationError`]: its text fields as
/// character sequences.
pub enum ErrorV {
    MissingDashboardTitle,
    MissingPanelTitle,
    MissingRowTitle,
    MissingVariableName,
    InvalidPanelWidth { panel: Seq<char>, width: u16 },
    InvalidPanelHeight { panel: Seq<char>, height: u16 },
    InvalidGridPosition { panel: Seq<char>, x: u16, y: u16, width: u16, height: u16 },
    DuplicatePanelId { id: u32, panel: Seq<char> },
    DuplicateQueryRefId { panel: Seq<char>, ref_id: Seq<char> },
    MissingQueryExpression { panel: Seq<char> },
    InvalidThresholds { panel: Seq<char> },
    UnknownTransformationRefId { panel: Seq<char>, ref_id: Seq<char> },
    UnknownOverrideRefId { panel: Seq<char>, ref_id: Seq<char> },
    MissingTransformationField { panel: Seq<char>, transformation: Seq<char> },
    MissingTransformationId { panel: Seq<char> },
    AmbiguousOrganizeOrder { panel: Seq<char>, name: Seq<char> },
    NoVariableSelector { variable: Seq<char> },
    ConflictingVariableSelectors {
        variable: Seq<char>,
        chosen: VariableSelector,
        ignored: VariableSelector,
    },
    VariableOptionNotApplicable { variable: Seq<char>, option: VariableOption, kind: VariableKind },
}

impl View for ValidationError {
    type V = ErrorV;

    open spec fn view(&self) -> ErrorV {
        match *self {
            ValidationError::MissingDashboardTitle => ErrorV::MissingDashboardTitle,
            ValidationError::MissingPanelTitle => ErrorV::MissingPanelTitle,
            ValidationError::MissingRowTitle => ErrorV::MissingRowTitle,
            ValidationError::MissingVariableName => ErrorV::MissingVariableName,
            ValidationError::InvalidPanelWidth { panel, width } => ErrorV::InvalidPanelWidth {
                panel: panel@,
                width,
            },
            ValidationError::InvalidPanelHeight { panel, height } => ErrorV::InvalidPanelHeight {
                panel: panel@,
                height,
            },
            ValidationError::InvalidGridPosition { panel, x, y, width, height } =>
                ErrorV::InvalidGridPosition { panel: panel@, x, y, width, height },
            ValidationError::DuplicatePanelId { id, panel } => ErrorV::DuplicatePanelId {
                id,
                panel: panel@,
            },
            ValidationError::DuplicateQueryRefId { panel, ref_id } => ErrorV::DuplicateQueryRefId {
                panel: panel@,
                ref_id: ref_id@,
            },
            ValidationError::MissingQueryExpression { panel } => ErrorV::MissingQueryExpression {
                panel: panel@,
            },
            ValidationError::InvalidThresholds { panel } => ErrorV::InvalidThresholds {
                panel: panel@,
            },
            ValidationError::UnknownTransformationRefId { panel, ref_id } =>
                ErrorV::UnknownTransformationRefId { panel: panel@, ref_id: ref_id@ },
            ValidationError::UnknownOverrideRefId { panel, ref_id } =>
                ErrorV::UnknownOverrideRefId { panel: panel@, ref_id: ref_id@ },
            ValidationError::MissingTransformationField { panel, transformation } =>
                ErrorV::MissingTransformationField {
                    panel: panel@,
                    transformation: transformation@,
                },
            ValidationError::MissingTransformationId { panel } => ErrorV::MissingTransformationId {
                panel: panel@,
            },
            ValidationError::AmbiguousOrganizeOrder { panel, name } =>
                ErrorV::AmbiguousOrganizeOrder { panel: panel@, name: name@ },
            ValidationError::NoVariableSelector { variable } => ErrorV::NoVariableSelector {
                variable: variable@,
            },
            ValidationError::ConflictingVariableSelectors { variable, chosen, ignored } =>
                ErrorV::ConflictingVariableSelectors { variable: variable@, chosen, ignored },
            ValidationError::VariableOptionNotApplicable { variable, option, kind } =>
                ErrorV::VariableOptionNotApplicable { variable: variable@, option, kind },
        }
    }
}

/// The models of a list of errors.
pub open spec fn errors_view(errors: Seq<ValidationError>) -> Seq<ErrorV> {
    errors.map_values(|e: ValidationError| e@)
}

/// `prefix "name" suffix`.
pub open spec fn quoted(prefix: Seq<char>, name: Seq<char>, suffix: Seq<char>) -> Seq<char> {
    prefix + "\""@ + name + "\""@ + suffix
}

/// The human-readable message of an error.
pub open spec fn message_v(e: ValidationError) -> Seq<char> {
    match e {
        ValidationError::MissingDashboardTitle => "dashboard title must not be empty"@,
        ValidationError::MissingPanelTitle => "panel title must not be empty"@,
        ValidationError::MissingRowTitle => "row title must not be empty"@,
        ValidationError::MissingVariableName => "variable name must not be empty"@,
        ValidationError::InvalidPanelWidth { panel, width } => quoted(
            "panel "@,
            panel@,
            ": width must be between 1 and 24, got "@,
        ) + decimal(width as nat),
        ValidationError::InvalidPanelHeight { panel, height } => quoted(
            "panel "@,
            panel@,
            ": height must be at least 1, got "@,
        ) + decimal(height as nat),
        ValidationError::InvalidGridPosition { panel, x, y, width, height } => quoted(
            "panel "@,
            panel@,
            ": invalid grid position x="@,
        ) + decimal(x as nat) + ", y="@ + decimal(y as nat) + ", w="@ + decimal(width as nat)
            + ", h="@ + decimal(height as nat),
        ValidationError::DuplicatePanelId { id, panel } => quoted(
            "duplicate explicit panel ID "@ + decimal(id as nat) + " on panel "@,
            panel@,
            Seq::empty(),
        ),
        ValidationError::DuplicateQueryRefId { panel, ref_id } => quoted(
            quoted("panel "@, panel@, ": duplicate query reference ID "@),
            ref_id@,
            Seq::empty(),
        ),
        ValidationError::MissingQueryExpression { panel } => quoted(
            "panel "@,
            panel@,
            ": query expression must not be empty"@,
        ),
        ValidationError::InvalidThresholds { panel } => quoted(
            "panel "@,
            panel@,
            ": threshold values must be finite and strictly increasing"@,
        ),
        ValidationError::UnknownTransformationRefId { panel, ref_id } => quoted(
            quoted("panel "@, panel@, ": transformation references unknown query reference ID "@),
            ref_id@,
            Seq::empty(),
        ),
        ValidationError::UnknownOverrideRefId { panel, ref_id } => quoted(
            quoted("panel "@, panel@, ": field override references unknown query reference ID "@),
            ref_id@,
            Seq::empty(),
        ),
        ValidationError::MissingTransformationField { panel, transformation } => quoted(
            "panel "@,
            panel@,
            ": "@,
        ) + transformation@ + " transformation requires a field name"@,
        ValidationError::MissingTransformationId { panel } => quoted(
            "panel "@,
            panel@,
            ": raw transformation ID must not be empty"@,
        ),
        ValidationError::AmbiguousOrganizeOrder { panel, name } => quoted(
            quoted("panel "@, panel@, ": organize order entry "@),
            name@,
            " is produced by more than one rename"@,
        ),
        ValidationError::NoVariableSelector { variable } => quoted(
            "variable "@,
            variable@,
            ": set exactly one of query, plugin, value or values"@,
        ),
        ValidationError::ConflictingVariableSelectors { variable, chosen, ignored } => quoted(
            "variable "@,
            variable@,
            ": "@,
        ) + variable_selector_name(ignored) + " is ignored because "@ + variable_selector_name(
            chosen,
        ) + " is set; set exactly one of query, plugin, value or values"@,
        ValidationError::VariableOptionNotApplicable { variable, option, kind } => quoted(
            "variable "@,
            variable@,
            ": "@,
        ) + variable_option_name(option) + " does not apply to a "@ + variable_kind_name(kind)
            + " variable"@,
    }
}

fn push_quoted(out: &mut String, prefix: &str, name: &str, suffix: &str)
    ensures
        final(out)@ == old(out)@ + quoted(prefix@, name@, suffix@),
{
    push_str(out, prefix);
    push_str(out, "\"");
    push_str(out, name);
    push_str(out, "\"");
    push_str(out, suffix);
    proof {
        assert(final(out)@ =~= old(out)@ + quoted(prefix@, name@, suffix@));
    }
}

impl ValidationError {
    /// The human-readable message of this error.
    pub fn message(&self) -> (m: String)
        ensures
            m@ == message_v(*self),
    {
        proof {
            reveal_strlit("");
        }
        let mut out = String::new();
        match self {
            ValidationError::MissingDashboardTitle => push_str(
                &mut out,
                "dashboard title must not be empty",
            ),
            ValidationError::MissingPanelTitle => push_str(&mut out, "panel title must not be empty"),
            ValidationError::MissingRowTitle => push_str(&mut out, "row title must not be empty"),
            ValidationError::MissingVariableName => push_str(
                &mut out,
                "variable name must not be empty",
            ),
            ValidationError::InvalidPanelWidth { panel, width } => {
                push_quoted(&mut out, "panel ", panel, ": width must be between 1 and 24, got ");
                push_decimal(&mut out, *width as u64);
            },
            ValidationError::InvalidPanelHeight { panel, height } => {
                push_quoted(&mut out, "panel ", panel, ": height must be at least 1, got ");
                push_decimal(&mut out, *height as u64);
            },
            ValidationError::InvalidGridPosition { panel, x, y, width, height } => {
                push_quoted(&mut out, "panel ", panel, ": invalid grid position x=");
                push_decimal(&mut out, *x as u64);
                push_str(&mut out, ", y=");
                push_decimal(&mut out, *y as u64);
                push_str(&mut out, ", w=");
                push_decimal(&mut out, *width as u64);
                push_str(&mut out, ", h=");
                push_decimal(&mut out, *height as u64);
            },
            ValidationError::DuplicatePanelId { id, panel } => {
                push_str(&mut out, "duplicate explicit panel ID ");
                push_decimal(&mut out, *id as u64);
                push_quoted(&mut out, " on panel ", panel, "");
                proof {
                    assert(out@ =~= message_v(*self));
                }
            },
            ValidationError::DuplicateQueryRefId { panel, ref_id } => {
                push_quoted(&mut out, "panel ", panel, ": duplicate query reference ID ");
                push_quoted(&mut out, "", ref_id, "");
                proof {
                    assert(out@ =~= message_v(*self));
                }
            },
            ValidationError::MissingQueryExpression { panel } => push_quoted(
                &mut out,
                "panel ",
                panel,
                ": query expression must not be empty",
            ),
            ValidationError::InvalidThresholds { panel } => push_quoted(
                &mut out,
                "panel ",
                panel,
                ": threshold values must be finite and strictly increasing",
            ),
            ValidationError::UnknownTransformationRefId { panel, ref_id } => {
                push_quoted(
                    &mut out,
                    "panel ",
                    panel,
                    ": transformation references unknown query reference ID ",
                );
                push_quoted(&mut out, "", ref_id, "");
                proof {
                    assert(out@ =~= message_v(*self));
                }
            },
            ValidationError::UnknownOverrideRefId { panel, ref_id } => {
                push_quoted(
                    &mut out,
                    "panel ",
                    panel,
                    ": field override references unknown query reference ID ",
                );
                push_quoted(&mut out, "", ref_id, "");
                proof {
                    assert(out@ =~= message_v(*self));
                }
            },
            ValidationError::MissingTransformationField { panel, transformation } => {
                push_quoted(&mut out, "panel ", panel, ": ");
                push_str(&mut out, transformation);
                push_str(&mut out, " transformation requires a field name");
            },
            ValidationError::MissingTransformationId { panel } => push_quoted(
                &mut out,
                "panel ",
                panel,
                ": raw transformation ID must not be empty",
            ),
            ValidationError::AmbiguousOrganizeOrder { panel, name } => {
                push_quoted(&mut out, "panel ", panel, ": organize order entry ");
                push_quoted(&mut out, "", name, " is produced by more than one rename");
                proof {
                    assert(out@ =~= message_v(*self));
                }
            },
            ValidationError::NoVariableSelector { variable } => push_quoted(
                &mut out,
                "variable ",
                variable,
                ": set exactly one of query, plugin, value or values",
            ),
            ValidationError::ConflictingVariableSelectors { variable, chosen, ignored } => {
                push_quoted(&mut out, "variable ", variable, ": ");
                push_str(&mut out, variable_selector_str(*ignored));
                push_str(&mut out, " is ignored because ");
                push_str(&mut out, variable_selector_str(*chosen));
                push_str(&mut out, " is set; set exactly one of query, plugin, value or values");
            },
            ValidationError::VariableOptionNotApplicable { variable, option, kind } => {
                push_quoted(&mut out, "variable ", variable, ": ");
                push_str(&mut out, variable_option_str(*option));
                push_str(&mut out, " does not apply to a ");
                push_str(&mut out, variable_kind_str(*kind));
                push_str(&mut out, " variable");
            },
        }
        proof {
            assert(out@ =~= message_v(*self));
        }
        out
    }
}

/// A collection of authoring errors found in one validation pass.
#[derive(Debug, PartialEq, Eq)]
pub struct ValidationErrors(pub Vec<ValidationError>);

/// The messages of a list of errors.
pub open spec fn messages_v(errors: Seq<ValidationError>) -> Seq<Seq<char>>
    decreases errors.len(),
{
    if errors.len() == 0 {
        Seq::empty()
    } else {
        messages_v(errors.drop_last()).push(message_v(errors.last()))
    }
}

/// The message of a failed validation pass: the count, then every error's
/// message, separated by `; `.
pub open spec fn errors_message_v(errors: Seq<ValidationError>) -> Seq<char> {
    "dashboard validation failed with "@ + decimal(errors.len()) + " error(s): "@ + join(
        messages_v(errors),
        "; "@,
    )
}

impl ValidationErrors {
    /// Returns all individual validation errors.
    pub fn errors(&self) -> (e: &[ValidationError])
        ensures
            e@ == self.0@,
    {
        self.0.as_slice()
    }

    /// The message of this validation pass.
    pub fn message(&self) -> (m: String)
        ensures
            m@ == errors_message_v(self.0@),
    {
        let mut out = String::new();
        push_str(&mut out, "dashboard validation failed with ");
        push_decimal(&mut out, self.0.len() as u64);
        push_str(&mut out, " error(s): ");
        let ghost head = out@;
        let mut i: usize = 0;
        while i < self.0.len()
            invariant
                i <= self.0@.len(),
                out@ == head + join(messages_v(self.0@.take(i as int)), "; "@),
            decreases self.0@.len() - i,
        {
            proof {
                assert(self.0@.take(i + 1).drop_last() =~= self.0@.take(i as int));
            }
            let ghost before = out@;
            if i > 0 {
                push_str(&mut out, "; ");
            }
            let m = self.0[i].message();
            push_str(&mut out, m.as_str());
            proof {
                let ms = messages_v(self.0@.take(i + 1));
                assert(ms.drop_last() == messages_v(self.0@.take(i as int)));
                if i > 0 {
                    assert(out@ =~= head + join(ms, "; "@));
                } else {
                    assert(ms.len() == 1);
                    assert(out@ =~= head + join(ms, "; "@));
                }
            }
            i += 1;
        }
        proof {
            assert(self.0@.take(self.0@.len() as int) =~= self.0@);
            assert(out@ =~= errors_message_v(self.0@));
        }
        out
    }
}

} // verus!
