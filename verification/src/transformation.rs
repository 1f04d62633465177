//! Panel transformations applied to query results before rendering.
use vstd::prelude::*;

use crate::json::{raw_insert, raw_map, JsonV};
use crate::keyed::{
    keys_sorted, kv_map, lemma_kv_map_insert_sorted, lemma_kv_map_update, lemma_sorted_keys_unique,
    lemma_texts_insert_sorted, lemma_update_keeps_sorted, locate_key, locate_text, texts_sorted,
};
use crate::text::{str_views, views};
use crate::visualization::{Reducer, SortDirection};

verus! {

/// Restricts a transformation to a subset of a panel's query results
/// (Grafana's frame matchers).
#[derive(Debug, PartialEq, Eq)]
#[non_exhaustive]
pub enum TransformationFilter {
    /// Matches the data frame produced by one query reference ID.
    RefId(String),
    /// Matches the data frame with exactly this name.
    FrameName(String),
}

/// Which query results a transformation applies to, and whether it is
/// retained but disabled.
#[derive(Debug, PartialEq, Eq)]
pub struct TransformationEnvelope {
    pub filter: Option<TransformationFilter>,
    pub disabled: bool,
}

impl TransformationEnvelope {
    pub open spec fn empty() -> TransformationEnvelope {
        TransformationEnvelope { filter: None, disabled: false }
    }

    pub fn new() -> (e: TransformationEnvelope)
        ensures
            e == TransformationEnvelope::empty(),
    {
        TransformationEnvelope { filter: None, disabled: false }
    }
}

/// How Grafana joins multiple query results.
#[derive(Debug, Clone, Copy, PartialEq, Eq)]
pub enum JoinMode {
    /// Keep every row from every input.
    Outer,
    /// Keep only rows present in every input.
    Inner,
    /// Outer join permitting duplicate join values.
    OuterTabular,
}

impl Default for JoinMode {
    fn default() -> (m: Self)
        ensures
            m == JoinMode::Outer,
    {
        JoinMode::Outer
    }
}

/// Joins multiple query results on a shared field.
#[derive(Debug, PartialEq, Eq)]
pub struct JoinByField {
    pub field: String,
    pub mode: JoinMode,
    pub envelope: TransformationEnvelope,
}

impl JoinByField {
    /// Joins on a field using Grafana's outer join.
    pub fn new(field: &str) -> (j: Self)
        ensures
            j.field@ == field@,
            j.mode == JoinMode::Outer,
            j.envelope == TransformationEnvelope::empty(),
    {
        JoinByField { field: field.to_string(), mode: JoinMode::Outer, envelope: TransformationEnvelope::new() }
    }

    /// Joins on a field using an inner join.
    pub fn inner(field: &str) -> (j: Self)
        ensures
            j.field@ == field@,
            j.mode == JoinMode::Inner,
            j.envelope == TransformationEnvelope::empty(),
    {
        JoinByField::new(field).mode(JoinMode::Inner)
    }

    /// Joins on a field using a tabular outer join.
    pub fn outer_tabular(field: &str) -> (j: Self)
        ensures
            j.field@ == field@,
            j.mode == JoinMode::OuterTabular,
            j.envelope == TransformationEnvelope::empty(),
    {
        JoinByField::new(field).mode(JoinMode::OuterTabular)
    }

    /// Sets the join mode.
    pub fn mode(self, mode: JoinMode) -> (j: Self)
        ensures
            j == (JoinByField { mode, ..self }),
    {
        JoinByField { mode, ..self }
    }
}

/// Renames, hides, and reorders fields.
///
/// `renames` maps an incoming field name to its new name, ordered by
/// incoming name; `hidden` holds incoming (pre-rename) names in order;
/// `order` holds final (post-rename) names.
#[derive(Debug, PartialEq, Eq)]
pub struct OrganizeFields {
    pub(crate) renames: Vec<(String, String)>,
    pub(crate) hidden: Vec<String>,
    pub(crate) order: Vec<String>,
    pub(crate) envelope: TransformationEnvelope,
}

/// The model of an organize transformation.
pub struct OrganizeV {
    pub renames: Seq<(String, String)>,
    pub hidden: Seq<String>,
    pub order: Seq<String>,
    pub envelope: TransformationEnvelope,
}

impl OrganizeV {
    /// Renames are ordered by source name and hidden names are in order, so
    /// no field is renamed or hidden twice and the value depends only on
    /// which renames and hidden names it holds.
    pub open spec fn well_formed(self) -> bool {
        keys_sorted(self.renames) && texts_sorted(views(self.hidden))
    }
}

impl View for OrganizeFields {
    type V = OrganizeV;

    closed spec fn view(&self) -> OrganizeV {
        OrganizeV {
            renames: self.renames@,
            hidden: self.hidden@,
            order: self.order@,
            envelope: self.envelope,
        }
    }
}

impl OrganizeFields {
    #[verifier::type_invariant]
    spec fn organize_invariant(self) -> bool {
        self@.well_formed()
    }

    /// The renames, ordered by incoming name.
    pub(crate) fn renames(&self) -> (r: &Vec<(String, String)>)
        ensures
            r@ == self@.renames,
    {
        &self.renames
    }

    /// The hidden (pre-rename) names, in order.
    pub(crate) fn hidden_names(&self) -> (h: &Vec<String>)
        ensures
            h@ == self@.hidden,
    {
        &self.hidden
    }

    /// The ordered (post-rename) names.
    pub(crate) fn ordered_names(&self) -> (o: &Vec<String>)
        ensures
            o@ == self@.order,
    {
        &self.order
    }

    /// Creates an empty field-organization transformation.
    pub fn new() -> (o: Self)
        ensures
            o@.well_formed(),
            o@.renames.len() == 0,
            o@.hidden.len() == 0,
            o@.order.len() == 0,
            o@.envelope == TransformationEnvelope::empty(),
    {
        OrganizeFields {
            renames: Vec::new(),
            hidden: Vec::new(),
            order: Vec::new(),
            envelope: TransformationEnvelope::new(),
        }
    }

    /// Renames a field, replacing any earlier rename of the same field.
    pub fn rename(self, from: &str, to: &str) -> (o: Self)
        ensures
            o@.well_formed(),
            kv_map(o@.renames) == kv_map(self@.renames).insert(from@, kv_map(o@.renames)[from@]),
            kv_map(o@.renames)[from@]@ == to@,
            o@.hidden == self@.hidden,
            o@.order == self@.order,
            o@.envelope == self@.envelope,
    {
        proof {
            use_type_invariant(&self);
        }
        let mut renames = self.renames;
        let target = to.to_string();
        proof {
            lemma_sorted_keys_unique(renames@);
        }
        match locate_key(&renames, from) {
            Ok(i) => {
                let key = renames[i].0.clone();
                proof {
                    lemma_kv_map_update(renames@, i as int, target);
                    lemma_update_keeps_sorted(renames@, i as int, target);
                }
                renames.set(i, (key, target));
            },
            Err(i) => {
                let key = from.to_string();
                proof {
                    lemma_kv_map_insert_sorted(renames@, i as int, key, target);
                }
                renames.insert(i, (key, target));
            },
        }
        OrganizeFields { renames, ..self }
    }

    /// Hides a field, by its name before any rename in this same
    /// transformation. Hiding is a set insertion: a field already hidden
    /// leaves the value as it was, and the hidden set gains exactly `name`.
    pub fn hide_field(self, name: &str) -> (o: Self)
        ensures
            o@.well_formed(),
            o@.renames == self@.renames,
            o@.order == self@.order,
            o@.envelope == self@.envelope,
            views(self@.hidden).contains(name@) ==> o@ == self@,
            views(o@.hidden).to_set() == views(self@.hidden).to_set().insert(name@),
    {
        proof {
            use_type_invariant(&self);
        }
        match locate_text(&self.hidden, name) {
            Ok(i) => {
                proof {
                    assert(views(self.hidden@)[i as int] == name@);
                    assert(views(self.hidden@).to_set().insert(name@) =~= views(
                        self.hidden@,
                    ).to_set());
                }
                self
            },
            Err(i) => {
                let mut hidden = self.hidden;
                let field = name.to_string();
                proof {
                    lemma_texts_insert_sorted(hidden@, i as int, field);
                    if views(hidden@).contains(name@) {
                        let k = choose|k: int|
                            0 <= k < views(hidden@).len() && views(hidden@)[k] == name@;
                        assert(hidden@[k]@ == name@);
                        crate::keyed::lemma_text_less_irreflexive(name@);
                    }
                }
                hidden.insert(i, field);
                OrganizeFields { hidden, ..self }
            },
        }
    }

    /// Orders the listed fields, named by their final (post-rename) names;
    /// the nth listed field is assigned index `n`.
    pub fn order(self, fields: &[&str]) -> (o: Self)
        ensures
            o@.well_formed(),
            o@.renames == self@.renames,
            o@.hidden == self@.hidden,
            views(o@.order) == str_views(fields@),
            o@.envelope == self@.envelope,
    {
        proof {
            use_type_invariant(&self);
        }
        OrganizeFields { order: crate::text::own_strings(fields), ..self }
    }
}

/// The order of `rename` and `hide_field` calls leaves no trace: two
/// organize transformations whose renames denote the same map and that
/// hide the same set of names hold the same renames and hidden names,
/// position by position.
pub proof fn lemma_organize_canonical(a: OrganizeV, b: OrganizeV)
    requires
        a.well_formed(),
        b.well_formed(),
        kv_map(a.renames) == kv_map(b.renames),
        views(a.hidden).to_set() == views(b.hidden).to_set(),
    ensures
        views(a.hidden) == views(b.hidden),
        a.renames.len() == b.renames.len(),
        forall|i: int|
            0 <= i < a.renames.len() ==> (#[trigger] a.renames[i]).0@ == b.renames[i].0@
                && a.renames[i].1 == b.renames[i].1,
{
    crate::keyed::lemma_sorted_entries_canonical(a.renames, b.renames);
    crate::keyed::lemma_sorted_texts_canonical(views(a.hidden), views(b.hidden));
}

impl Default for OrganizeFields {
    fn default() -> (o: Self)
        ensures
            o@.well_formed(),
            o@.renames.len() == 0,
            o@.hidden.len() == 0,
            o@.order.len() == 0,
            o@.envelope == TransformationEnvelope::empty(),
    {
        OrganizeFields::new()
    }
}

/// One field in a sort transformation.
#[derive(Debug, PartialEq, Eq)]
pub struct SortByField {
    pub field: String,
    pub descending: bool,
}

/// Sorts rows by one field. Grafana applies only the first entry of its
/// `sort` array, so this transformation always holds exactly one.
#[derive(Debug, PartialEq, Eq)]
pub struct SortBy {
    pub fields: Vec<SortByField>,
    pub envelope: TransformationEnvelope,
}

impl SortBy {
    /// Sorts by one field in the given direction.
    pub fn new(field: &str, direction: SortDirection) -> (s: Self)
        ensures
            s.fields@.len() == 1,
            s.fields@[0].field@ == field@,
            s.fields@[0].descending == (direction == SortDirection::Descending),
            s.envelope == TransformationEnvelope::empty(),
    {
        let mut fields: Vec<SortByField> = Vec::new();
        fields.push(SortByField { field: field.to_string(), descending: direction.is_descending() });
        SortBy { fields, envelope: TransformationEnvelope::new() }
    }

    /// Sorts by one field, smallest value first.
    pub fn asc(field: &str) -> (s: Self)
        ensures
            s.fields@.len() == 1,
            s.fields@[0].field@ == field@,
            !s.fields@[0].descending,
            s.envelope == TransformationEnvelope::empty(),
    {
        SortBy::new(field, SortDirection::Ascending)
    }

    /// Sorts by one field, largest value first.
    pub fn desc(field: &str) -> (s: Self)
        ensures
            s.fields@.len() == 1,
            s.fields@[0].field@ == field@,
            s.fields@[0].descending,
            s.envelope == TransformationEnvelope::empty(),
    {
        SortBy::new(field, SortDirection::Descending)
    }
}

/// Per-query configuration for the time-series-to-table transformation.
#[derive(Debug, PartialEq, Eq)]
pub struct TimeSeriesToTableQuery {
    pub stat: Option<Reducer>,
    pub time_field: Option<String>,
}

impl TimeSeriesToTableQuery {
    pub open spec fn empty() -> TimeSeriesToTableQuery {
        TimeSeriesToTableQuery { stat: None, time_field: None }
    }
}

/// Converts time-series results into table rows with a trend field;
/// `queries` holds each reference ID once, ordered by reference ID.
#[derive(Debug, PartialEq, Eq)]
pub struct TimeSeriesToTable {
    pub(crate) queries: Vec<(String, TimeSeriesToTableQuery)>,
    pub(crate) envelope: TransformationEnvelope,
}

/// The model of a time-series-to-table transformation.
pub struct TimeSeriesToTableV {
    pub queries: Seq<(String, TimeSeriesToTableQuery)>,
    pub envelope: TransformationEnvelope,
}

impl TimeSeriesToTableV {
    /// Entries are ordered by reference ID, so each occurs once and the
    /// value depends only on the map they denote.
    pub open spec fn well_formed(self) -> bool {
        keys_sorted(self.queries)
    }
}

impl View for TimeSeriesToTable {
    type V = TimeSeriesToTableV;

    closed spec fn view(&self) -> TimeSeriesToTableV {
        TimeSeriesToTableV { queries: self.queries@, envelope: self.envelope }
    }
}

/// The per-query configuration `queries` holds for `ref_id`, or the empty
/// one.
pub open spec fn query_entry(
    queries: Map<Seq<char>, TimeSeriesToTableQuery>,
    ref_id: Seq<char>,
) -> TimeSeriesToTableQuery {
    if queries.contains_key(ref_id) {
        queries[ref_id]
    } else {
        TimeSeriesToTableQuery::empty()
    }
}

impl TimeSeriesToTable {
    #[verifier::type_invariant]
    spec fn table_invariant(self) -> bool {
        self@.well_formed()
    }

    /// The per-query entries, ordered by reference ID.
    pub(crate) fn entries(&self) -> (e: &Vec<(String, TimeSeriesToTableQuery)>)
        ensures
            e@ == self@.queries,
    {
        &self.queries
    }

    /// Creates an empty time-series-to-table transformation.
    pub fn new() -> (t: Self)
        ensures
            t@.well_formed(),
            t@.queries.len() == 0,
            t@.envelope == TransformationEnvelope::empty(),
    {
        TimeSeriesToTable { queries: Vec::new(), envelope: TransformationEnvelope::new() }
    }

    /// Replaces the entry for `ref_id` (creating an empty one first if
    /// needed) by `update`'s result.
    fn upsert(
        self,
        ref_id: &str,
        stat: Option<Reducer>,
        time_field: Option<String>,
    ) -> (t: Self)
        ensures
            t@.well_formed(),
            kv_map(t@.queries) == kv_map(self@.queries).insert(
                ref_id@,
                TimeSeriesToTableQuery {
                    stat: if stat is Some { stat } else { query_entry(kv_map(self@.queries), ref_id@).stat },
                    time_field: if time_field is Some { time_field } else { query_entry(kv_map(self@.queries), ref_id@).time_field },
                },
            ),
            t@.envelope == self@.envelope,
    {
        proof {
            use_type_invariant(&self);
        }
        let mut queries = self.queries;
        proof {
            lemma_sorted_keys_unique(queries@);
        }
        match locate_key(&queries, ref_id) {
            Ok(i) => {
                proof {
                    crate::keyed::lemma_kv_map_at(queries@, i as int);
                }
                let key = queries[i].0.clone();
                let current_stat = queries[i].1.stat;
                let current_time = crate::text::copy_opt(&queries[i].1.time_field);
                let entry = TimeSeriesToTableQuery {
                    stat: if stat.is_some() { stat } else { current_stat },
                    time_field: if time_field.is_some() { time_field } else { current_time },
                };
                proof {
                    lemma_kv_map_update(queries@, i as int, entry);
                    lemma_update_keeps_sorted(queries@, i as int, entry);
                }
                queries.set(i, (key, entry));
            },
            Err(i) => {
                proof {
                    crate::keyed::lemma_text_less_irreflexive(ref_id@);
                    assert forall|k: int| 0 <= k < queries@.len() implies (#[trigger] queries@[k]).0@
                        != ref_id@ by {}
                    crate::keyed::lemma_kv_map_dom(queries@, ref_id@);
                }
                let key = ref_id.to_string();
                let entry = TimeSeriesToTableQuery { stat, time_field };
                proof {
                    lemma_kv_map_insert_sorted(queries@, i as int, key, entry);
                }
                queries.insert(i, (key, entry));
            },
        }
        TimeSeriesToTable { queries, envelope: self.envelope }
    }

    /// Includes a query's results, with no explicit trend statistic.
    pub fn query(self, ref_id: &str) -> (t: Self)
        ensures
            t@.well_formed(),
            kv_map(t@.queries) == kv_map(self@.queries).insert(
                ref_id@,
                query_entry(kv_map(self@.queries), ref_id@),
            ),
            t@.envelope == self@.envelope,
    {
        self.upsert(ref_id, None, None)
    }

    /// Includes a query's results, reduced to a trend statistic.
    pub fn query_with(self, ref_id: &str, stat: Reducer) -> (t: Self)
        ensures
            t@.well_formed(),
            kv_map(t@.queries) == kv_map(self@.queries).insert(
                ref_id@,
                TimeSeriesToTableQuery { stat: Some(stat), ..query_entry(kv_map(self@.queries), ref_id@) },
            ),
            t@.envelope == self@.envelope,
    {
        self.upsert(ref_id, Some(stat), None)
    }

    /// Sets the time field backing the query's trend column.
    pub fn time_field(self, ref_id: &str, field: &str) -> (t: Self)
        ensures
            t@.well_formed(),
            kv_map(t@.queries).dom() == kv_map(self@.queries).dom().insert(ref_id@),
            kv_map(t@.queries)[ref_id@].stat == query_entry(kv_map(self@.queries), ref_id@).stat,
            kv_map(t@.queries)[ref_id@].time_field matches Some(f) && f@ == field@,
            forall|k: Seq<char>| k != ref_id@ && kv_map(self@.queries).contains_key(k) ==>
                kv_map(t@.queries)[k] == kv_map(self@.queries)[k],
            t@.envelope == self@.envelope,
    {
        self.upsert(ref_id, None, Some(field.to_string()))
    }
}

/// The order of `query`, `query_with` and `time_field` calls leaves no
/// trace: two well-formed models whose entries denote the same map
/// hold the same entries, position by position.
pub proof fn lemma_time_series_to_table_canonical(a: TimeSeriesToTableV, b: TimeSeriesToTableV)
    requires
        a.well_formed(),
        b.well_formed(),
        kv_map(a.queries) == kv_map(b.queries),
    ensures
        a.queries.len() == b.queries.len(),
        forall|i: int|
            0 <= i < a.queries.len() ==> (#[trigger] a.queries[i]).0@ == b.queries[i].0@
                && a.queries[i].1 == b.queries[i].1,
{
    crate::keyed::lemma_sorted_entries_canonical(a.queries, b.queries);
}

impl Default for TimeSeriesToTable {
    fn default() -> (t: Self)
        ensures
            t@.well_formed(),
            t@.queries.len() == 0,
            t@.envelope == TransformationEnvelope::empty(),
    {
        TimeSeriesToTable::new()
    }
}

/// Whether labels become columns or rows.
#[derive(Debug, Clone, Copy, PartialEq, Eq)]
pub enum LabelsToFieldsMode {
    /// One field per label.
    Columns,
    /// One row per label.
    Rows,
}

impl Default for LabelsToFieldsMode {
    fn default() -> (m: Self)
        ensures
            m == LabelsToFieldsMode::Columns,
    {
        LabelsToFieldsMode::Columns
    }
}

/// Converts datasource labels into fields.
#[derive(Debug, PartialEq, Eq)]
pub struct LabelsToFields {
    pub mode: LabelsToFieldsMode,
    pub keep: Vec<String>,
    pub value_label: Option<String>,
    pub envelope: TransformationEnvelope,
}

impl LabelsToFields {
    /// Creates a labels-to-fields transformation in column mode.
    pub fn new() -> (l: Self)
        ensures
            l.mode == LabelsToFieldsMode::Columns,
            l.keep@.len() == 0,
            l.value_label is None,
            l.envelope == TransformationEnvelope::empty(),
    {
        LabelsToFields {
            mode: LabelsToFieldsMode::Columns,
            keep: Vec::new(),
            value_label: None,
            envelope: TransformationEnvelope::new(),
        }
    }

    /// Sets column or row mode.
    pub fn mode(self, mode: LabelsToFieldsMode) -> (l: Self)
        ensures
            l == (LabelsToFields { mode, ..self }),
    {
        LabelsToFields { mode, ..self }
    }

    /// Restricts which labels become fields. An empty set keeps every label.
    pub fn keep(self, labels: &[&str]) -> (l: Self)
        ensures
            l == (LabelsToFields { keep: l.keep, ..self }),
            views(l.keep@) == str_views(labels@),
    {
        LabelsToFields { keep: crate::text::own_strings(labels), ..self }
    }

    /// Names the field that holds the label value in row mode.
    pub fn value_label(self, label: &str) -> (l: Self)
        ensures
            l == (LabelsToFields { value_label: l.value_label, ..self }),
            l.value_label matches Some(v) && v@ == label@,
    {
        LabelsToFields { value_label: Some(label.to_string()), ..self }
    }
}

impl Default for LabelsToFields {
    fn default() -> (l: Self)
        ensures
            l.mode == LabelsToFieldsMode::Columns,
            l.keep@.len() == 0,
            l.value_label is None,
            l.envelope == TransformationEnvelope::empty(),
    {
        LabelsToFields::new()
    }
}

/// An escape hatch for a transformation the library does not model.
#[derive(Debug, PartialEq)]
pub struct RawTransformation {
    pub id: String,
    pub options: Vec<(String, serde_json::Value)>,
    pub envelope: TransformationEnvelope,
}

impl RawTransformation {
    /// Creates a raw transformation for a Grafana transformer ID.
    pub fn new(id: &str) -> (r: Self)
        ensures
            r.id@ == id@,
            r.options@.len() == 0,
            r.envelope == TransformationEnvelope::empty(),
    {
        RawTransformation { id: id.to_string(), options: Vec::new(), envelope: TransformationEnvelope::new() }
    }

    /// Sets an entry under the transformation's `options` object.
    pub fn option(self, key: &str, value: serde_json::Value) -> (r: Self)
        ensures
            r.id == self.id,
            raw_map(r.options@) == raw_map(self.options@).insert(key@, JsonV::Raw(value)),
            r.envelope == self.envelope,
    {
        let mut options = self.options;
        raw_insert(&mut options, key, value);
        RawTransformation { id: self.id, options, envelope: self.envelope }
    }
}

impl JoinByField {
    /// Applies this transformation only to one query reference ID.
    pub fn only_ref_id(self, ref_id: &str) -> (t: Self)
        ensures
            t == (JoinByField { envelope: t.envelope, ..self }),
            t.envelope.disabled == self.envelope.disabled,
            t.envelope.filter matches Some(TransformationFilter::RefId(r)) && r@ == ref_id@,
    {
        let envelope = TransformationEnvelope {
            filter: Some(TransformationFilter::RefId(ref_id.to_string())),
            disabled: self.envelope.disabled,
        };
        JoinByField { envelope, ..self }
    }

    /// Applies this transformation only to the data frame with this exact
    /// name; the name is matched literally.
    pub fn only_frame_name(self, name: &str) -> (t: Self)
        ensures
            t == (JoinByField { envelope: t.envelope, ..self }),
            t.envelope.disabled == self.envelope.disabled,
            t.envelope.filter matches Some(TransformationFilter::FrameName(n)) && n@ == name@,
    {
        let envelope = TransformationEnvelope {
            filter: Some(TransformationFilter::FrameName(name.to_string())),
            disabled: self.envelope.disabled,
        };
        JoinByField { envelope, ..self }
    }

    /// Retains the transformation in the dashboard without applying it.
    pub fn disabled(self, disabled: bool) -> (t: Self)
        ensures
            t == (JoinByField { envelope: TransformationEnvelope { disabled, ..self.envelope }, ..self }),
    {
        let envelope = TransformationEnvelope { disabled, ..self.envelope };
        JoinByField { envelope, ..self }
    }
}

impl OrganizeFields {
    /// Applies this transformation only to one query reference ID.
    pub fn only_ref_id(self, ref_id: &str) -> (t: Self)
        ensures
            t@ == (OrganizeV { envelope: t@.envelope, ..self@ }),
            t@.envelope.disabled == self@.envelope.disabled,
            t@.envelope.filter matches Some(TransformationFilter::RefId(r)) && r@ == ref_id@,
    {
        proof {
            use_type_invariant(&self);
        }
        let envelope = TransformationEnvelope {
            filter: Some(TransformationFilter::RefId(ref_id.to_string())),
            disabled: self.envelope.disabled,
        };
        OrganizeFields { envelope, ..self }
    }

    /// Applies this transformation only to the data frame with this exact
    /// name; the name is matched literally.
    pub fn only_frame_name(self, name: &str) -> (t: Self)
        ensures
            t@ == (OrganizeV { envelope: t@.envelope, ..self@ }),
            t@.envelope.disabled == self@.envelope.disabled,
            t@.envelope.filter matches Some(TransformationFilter::FrameName(n)) && n@ == name@,
    {
        proof {
            use_type_invariant(&self);
        }
        let envelope = TransformationEnvelope {
            filter: Some(TransformationFilter::FrameName(name.to_string())),
            disabled: self.envelope.disabled,
        };
        OrganizeFields { envelope, ..self }
    }

    /// Retains the transformation in the dashboard without applying it.
    pub fn disabled(self, disabled: bool) -> (t: Self)
        ensures
            t@ == (OrganizeV { envelope: TransformationEnvelope { disabled, ..self@.envelope }, ..self@ }),
    {
        proof {
            use_type_invariant(&self);
        }
        let envelope = TransformationEnvelope { disabled, ..self.envelope };
        OrganizeFields { envelope, ..self }
    }
}

impl SortBy {
    /// Applies this transformation only to one query reference ID.
    pub fn only_ref_id(self, ref_id: &str) -> (t: Self)
        ensures
            t == (SortBy { envelope: t.envelope, ..self }),
            t.envelope.disabled == self.envelope.disabled,
            t.envelope.filter matches Some(TransformationFilter::RefId(r)) && r@ == ref_id@,
    {
        let envelope = TransformationEnvelope {
            filter: Some(TransformationFilter::RefId(ref_id.to_string())),
            disabled: self.envelope.disabled,
        };
        SortBy { envelope, ..self }
    }

    /// Applies this transformation only to the data frame with this exact
    /// name; the name is matched literally.
    pub fn only_frame_name(self, name: &str) -> (t: Self)
        ensures
            t == (SortBy { envelope: t.envelope, ..self }),
            t.envelope.disabled == self.envelope.disabled,
            t.envelope.filter matches Some(TransformationFilter::FrameName(n)) && n@ == name@,
    {
        let envelope = TransformationEnvelope {
            filter: Some(TransformationFilter::FrameName(name.to_string())),
            disabled: self.envelope.disabled,
        };
        SortBy { envelope, ..self }
    }

    /// Retains the transformation in the dashboard without applying it.
    pub fn disabled(self, disabled: bool) -> (t: Self)
        ensures
            t == (SortBy { envelope: TransformationEnvelope { disabled, ..self.envelope }, ..self }),
    {
        let envelope = TransformationEnvelope { disabled, ..self.envelope };
        SortBy { envelope, ..self }
    }
}

impl TimeSeriesToTable {
    /// Applies this transformation only to one query reference ID.
    pub fn only_ref_id(self, ref_id: &str) -> (t: Self)
        ensures
            t@ == (TimeSeriesToTableV { envelope: t@.envelope, ..self@ }),
            t@.envelope.disabled == self@.envelope.disabled,
            t@.envelope.filter matches Some(TransformationFilter::RefId(r)) && r@ == ref_id@,
    {
        proof {
            use_type_invariant(&self);
        }
        let envelope = TransformationEnvelope {
            filter: Some(TransformationFilter::RefId(ref_id.to_string())),
            disabled: self.envelope.disabled,
        };
        TimeSeriesToTable { envelope, ..self }
    }

    /// Applies this transformation only to the data frame with this exact
    /// name; the name is matched literally.
    pub fn only_frame_name(self, name: &str) -> (t: Self)
        ensures
            t@ == (TimeSeriesToTableV { envelope: t@.envelope, ..self@ }),
            t@.envelope.disabled == self@.envelope.disabled,
            t@.envelope.filter matches Some(TransformationFilter::FrameName(n)) && n@ == name@,
    {
        proof {
            use_type_invariant(&self);
        }
        let envelope = TransformationEnvelope {
            filter: Some(TransformationFilter::FrameName(name.to_string())),
            disabled: self.envelope.disabled,
        };
        TimeSeriesToTable { envelope, ..self }
    }

    /// Retains the transformation in the dashboard without applying it.
    pub fn disabled(self, disabled: bool) -> (t: Self)
        ensures
            t@ == (TimeSeriesToTableV { envelope: TransformationEnvelope { disabled, ..self@.envelope }, ..self@ }),
    {
        proof {
            use_type_invariant(&self);
        }
        let envelope = TransformationEnvelope { disabled, ..self.envelope };
        TimeSeriesToTable { envelope, ..self }
    }
}

impl LabelsToFields {
    /// Applies this transformation only to one query reference ID.
    pub fn only_ref_id(self, ref_id: &str) -> (t: Self)
        ensures
            t == (LabelsToFields { envelope: t.envelope, ..self }),
            t.envelope.disabled == self.envelope.disabled,
            t.envelope.filter matches Some(TransformationFilter::RefId(r)) && r@ == ref_id@,
    {
        let envelope = TransformationEnvelope {
            filter: Some(TransformationFilter::RefId(ref_id.to_string())),
            disabled: self.envelope.disabled,
        };
        LabelsToFields { envelope, ..self }
    }

    /// Applies this transformation only to the data frame with this exact
    /// name; the name is matched literally.
    pub fn only_frame_name(self, name: &str) -> (t: Self)
        ensures
            t == (LabelsToFields { envelope: t.envelope, ..self }),
            t.envelope.disabled == self.envelope.disabled,
            t.envelope.filter matches Some(TransformationFilter::FrameName(n)) && n@ == name@,
    {
        let envelope = TransformationEnvelope {
            filter: Some(TransformationFilter::FrameName(name.to_string())),
            disabled: self.envelope.disabled,
        };
        LabelsToFields { envelope, ..self }
    }

    /// Retains the transformation in the dashboard without applying it.
    pub fn disabled(self, disabled: bool) -> (t: Self)
        ensures
            t == (LabelsToFields { envelope: TransformationEnvelope { disabled, ..self.envelope }, ..self }),
    {
        let envelope = TransformationEnvelope { disabled, ..self.envelope };
        LabelsToFields { envelope, ..self }
    }
}

impl RawTransformation {
    /// Applies this transformation only to one query reference ID.
    pub fn only_ref_id(self, ref_id: &str) -> (t: Self)
        ensures
            t == (RawTransformation { envelope: t.envelope, ..self }),
            t.envelope.disabled == self.envelope.disabled,
            t.envelope.filter matches Some(TransformationFilter::RefId(r)) && r@ == ref_id@,
    {
        let envelope = TransformationEnvelope {
            filter: Some(TransformationFilter::RefId(ref_id.to_string())),
            disabled: self.envelope.disabled,
        };
        RawTransformation { envelope, ..self }
    }

    /// Applies this transformation only to the data frame with this exact
    /// name; the name is matched literally.
    pub fn only_frame_name(self, name: &str) -> (t: Self)
        ensures
            t == (RawTransformation { envelope: t.envelope, ..self }),
            t.envelope.disabled == self.envelope.disabled,
            t.envelope.filter matches Some(TransformationFilter::FrameName(n)) && n@ == name@,
    {
        let envelope = TransformationEnvelope {
            filter: Some(TransformationFilter::FrameName(name.to_string())),
            disabled: self.envelope.disabled,
        };
        RawTransformation { envelope, ..self }
    }

    /// Retains the transformation in the dashboard without applying it.
    pub fn disabled(self, disabled: bool) -> (t: Self)
        ensures
            t == (RawTransformation { envelope: TransformationEnvelope { disabled, ..self.envelope }, ..self }),
    {
        let envelope = TransformationEnvelope { disabled, ..self.envelope };
        RawTransformation { envelope, ..self }
    }
}

/// A panel transformation applied to query results before rendering.
#[derive(Debug, PartialEq)]
#[non_exhaustive]
pub enum Transformation {
    /// Join query results on a shared field.
    JoinByField(JoinByField),
    /// Rename, hide, and reorder fields.
    OrganizeFields(OrganizeFields),
    /// Sort rows by one field.
    SortBy(SortBy),
    /// Convert time series into table rows.
    TimeSeriesToTable(TimeSeriesToTable),
    /// Convert labels into fields.
    LabelsToFields(LabelsToFields),
    /// An unmodeled Grafana transformation.
    Raw(RawTransformation),
}

impl Transformation {
    pub open spec fn spec_envelope(self) -> TransformationEnvelope {
        match self {
            Transformation::JoinByField(t) => t.envelope,
            Transformation::OrganizeFields(t) => t@.envelope,
            Transformation::SortBy(t) => t.envelope,
            Transformation::TimeSeriesToTable(t) => t@.envelope,
            Transformation::LabelsToFields(t) => t.envelope,
            Transformation::Raw(t) => t.envelope,
        }
    }

    /// This transformation's shared filter/disabled state.
    pub fn envelope(&self) -> (e: &TransformationEnvelope)
        ensures
            *e == self.spec_envelope(),
    {
        match self {
            Transformation::JoinByField(t) => &t.envelope,
            Transformation::OrganizeFields(t) => &t.envelope,
            Transformation::SortBy(t) => &t.envelope,
            Transformation::TimeSeriesToTable(t) => &t.envelope,
            Transformation::LabelsToFields(t) => &t.envelope,
            Transformation::Raw(t) => &t.envelope,
        }
    }
}

/// A value that can be added as a panel transformation.
pub trait IntoTransformation: Sized {
    spec fn spec_transformation(self) -> Transformation;

    fn into_transformation(self) -> (t: Transformation)
        ensures
            t == self.spec_transformation(),
    ;
}

impl IntoTransformation for Transformation {
    open spec fn spec_transformation(self) -> Transformation {
        self
    }

    fn into_transformation(self) -> (t: Transformation) {
        self
    }
}

impl IntoTransformation for JoinByField {
    open spec fn spec_transformation(self) -> Transformation {
        Transformation::JoinByField(self)
    }

    fn into_transformation(self) -> (t: Transformation) {
        Transformation::JoinByField(self)
    }
}

impl IntoTransformation for OrganizeFields {
    open spec fn spec_transformation(self) -> Transformation {
        Transformation::OrganizeFields(self)
    }

    fn into_transformation(self) -> (t: Transformation) {
        Transformation::OrganizeFields(self)
    }
}

impl IntoTransformation for SortBy {
    open spec fn spec_transformation(self) -> Transformation {
        Transformation::SortBy(self)
    }

    fn into_transformation(self) -> (t: Transformation) {
        Transformation::SortBy(self)
    }
}

impl IntoTransformation for TimeSeriesToTable {
    open spec fn spec_transformation(self) -> Transformation {
        Transformation::TimeSeriesToTable(self)
    }

    fn into_transformation(self) -> (t: Transformation) {
        Transformation::TimeSeriesToTable(self)
    }
}

impl IntoTransformation for LabelsToFields {
    open spec fn spec_transformation(self) -> Transformation {
        Transformation::LabelsToFields(self)
    }

    fn into_transformation(self) -> (t: Transformation) {
        Transformation::LabelsToFields(self)
    }
}

impl IntoTransformation for RawTransformation {
    open spec fn spec_transformation(self) -> Transformation {
        Transformation::Raw(self)
    }

    fn into_transformation(self) -> (t: Transformation) {
        Transformation::Raw(self)
    }
}

} // verus!
