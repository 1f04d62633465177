//! Transformation lowering.
//!
//! Option shapes follow Grafana's transformer definitions; `timeSeriesTable`
//! options are keyed by query reference ID rather than taking a field list.
use vstd::prelude::*;

use crate::grafana::wire::ins_opt;
use crate::json::{raw_map, strs_v, ArrayBuilder, DictBuilder, Json, JsonV};
use crate::transformation::{
    JoinMode, LabelsToFieldsMode, OrganizeFields, SortByField, TimeSeriesToTableQuery,
    Transformation, TransformationFilter,
};
use crate::visualization::reducer_name;
use crate::text::views;

verus! {

pub open spec fn join_mode_name(mode: JoinMode) -> Seq<char> {
    match mode {
        JoinMode::Outer => "outer"@,
        JoinMode::Inner => "inner"@,
        JoinMode::OuterTabular => "outerTabular"@,
    }
}

fn join_mode_str(mode: JoinMode) -> (s: &'static str)
    ensures
        s@ == join_mode_name(mode),
{
    match mode {
        JoinMode::Outer => "outer",
        JoinMode::Inner => "inner",
        JoinMode::OuterTabular => "outerTabular",
    }
}

pub open spec fn labels_to_fields_mode_name(mode: LabelsToFieldsMode) -> Seq<char> {
    match mode {
        LabelsToFieldsMode::Columns => "columns"@,
        LabelsToFieldsMode::Rows => "rows"@,
    }
}

fn labels_to_fields_mode_str(mode: LabelsToFieldsMode) -> (s: &'static str)
    ensures
        s@ == labels_to_fields_mode_name(mode),
{
    match mode {
        LabelsToFieldsMode::Columns => "columns",
        LabelsToFieldsMode::Rows => "rows",
    }
}

// ---------------------------------------------------------------------------
// Frame-name escaping
// ---------------------------------------------------------------------------

/// The characters that Grafana's frame-name matcher reads as regular
/// expression syntax.
pub open spec fn is_metacharacter(c: char) -> bool {
    c == '\\' || c == '^' || c == '$' || c == '.' || c == '|' || c == '?' || c == '*' || c == '+'
        || c == '(' || c == ')' || c == '[' || c == ']' || c == '{' || c == '}' || c == '/'
}

/// One character, with a backslash in front when it is a metacharacter.
pub open spec fn escape_char(c: char) -> Seq<char> {
    if is_metacharacter(c) {
        seq!['\\', c]
    } else {
        seq![c]
    }
}

/// A frame name escaped so that Grafana matches it exactly.
pub open spec fn escape(s: Seq<char>) -> Seq<char>
    decreases s.len(),
{
    if s.len() == 0 {
        Seq::empty()
    } else {
        escape_char(s[0]) + escape(s.drop_first())
    }
}

/// Reads an escaped name back: a backslash makes the next character
/// literal.
pub open spec fn unescape(s: Seq<char>) -> Seq<char>
    decreases s.len(),
{
    if s.len() == 0 {
        Seq::empty()
    } else if s[0] == '\\' && s.len() >= 2 {
        seq![s[1]] + unescape(s.skip(2))
    } else {
        seq![s[0]] + unescape(s.drop_first())
    }
}

proof fn lemma_escape_push(s: Seq<char>, c: char)
    ensures
        escape(s.push(c)) == escape(s) + escape_char(c),
    decreases s.len(),
{
    if s.len() == 0 {
        assert(s.push(c).drop_first() =~= Seq::<char>::empty());
        assert(s.push(c)[0] == c);
        assert(escape(Seq::<char>::empty()) == Seq::<char>::empty());
        assert(escape(s) == Seq::<char>::empty());
        assert(escape(s.push(c)) == escape_char(c) + escape(s.push(c).drop_first()));
        assert(escape(s.push(c)) =~= escape(s) + escape_char(c));
    } else {
        assert(s.push(c).drop_first() =~= s.drop_first().push(c));
        lemma_escape_push(s.drop_first(), c);
        assert(escape(s.push(c)) =~= escape_char(s[0]) + (escape(s.drop_first()) + escape_char(c)));
    }
}

/// Escaping loses nothing: reading an escaped frame name back gives the
/// name, so two different names never match the same frames.
pub proof fn lemma_escape_roundtrip(s: Seq<char>)
    ensures
        unescape(escape(s)) == s,
    decreases s.len(),
{
    if s.len() > 0 {
        lemma_escape_roundtrip(s.drop_first());
        let e = escape(s);
        let rest = escape(s.drop_first());
        if is_metacharacter(s[0]) {
            assert(e =~= seq!['\\', s[0]] + rest);
            assert(e.skip(2) =~= rest);
        } else {
            assert(e =~= seq![s[0]] + rest);
            assert(e.drop_first() =~= rest);
        }
        assert(unescape(e) =~= s);
    }
}

fn char_is_metacharacter(c: char) -> (b: bool)
    ensures
        b == is_metacharacter(c),
{
    c == '\\' || c == '^' || c == '$' || c == '.' || c == '|' || c == '?' || c == '*' || c == '+'
        || c == '(' || c == ')' || c == '[' || c == ']' || c == '{' || c == '}' || c == '/'
}

/// Escapes every regular-expression metacharacter of a frame name.
pub fn escape_frame_name(name: &str) -> (escaped: String)
    ensures
        escaped@ == escape(name@),
{
    let n = name.unicode_len();
    let mut escaped = String::new();
    let mut i: usize = 0;
    proof {
        assert(name@.take(0) =~= Seq::<char>::empty());
    }
    while i < n
        invariant
            n == name@.len(),
            i <= n,
            escaped@ == escape(name@.take(i as int)),
        decreases n - i,
    {
        let c = name.get_char(i);
        if char_is_metacharacter(c) {
            crate::text::push_char(&mut escaped, '\\');
        }
        crate::text::push_char(&mut escaped, c);
        proof {
            assert(name@.take(i + 1) =~= name@.take(i as int).push(c));
            lemma_escape_push(name@.take(i as int), c);
            assert(escaped@ =~= escape(name@.take(i + 1)));
        }
        i += 1;
    }
    proof {
        assert(name@.take(n as int) =~= name@);
    }
    escaped
}

// ---------------------------------------------------------------------------
// Organize
// ---------------------------------------------------------------------------

/// The source names of every rename whose new name is `target`, in order.
pub open spec fn rename_sources(renames: Seq<(String, String)>, target: Seq<char>) -> Seq<
    Seq<char>,
>
    decreases renames.len(),
{
    if renames.len() == 0 {
        Seq::empty()
    } else {
        let rest = rename_sources(renames.drop_last(), target);
        if renames.last().1@ == target {
            rest.push(renames.last().0@)
        } else {
            rest
        }
    }
}

/// The `indexByName` key of an authored order entry (a final, post-rename
/// name): Grafana orders before it renames, so a name that exactly one
/// rename produces is keyed by that rename's source name; any other name
/// is kept.
pub open spec fn index_key(renames: Seq<(String, String)>, ordered: Seq<char>) -> Seq<char> {
    let sources = rename_sources(renames, ordered);
    if sources.len() == 1 {
        sources[0]
    } else {
        ordered
    }
}

/// How many renames produce the name `target`.
pub(crate) fn rename_source_count(renames: &Vec<(String, String)>, target: &String) -> (n: usize)
    ensures
        n == rename_sources(renames@, target@).len(),
{
    let mut n: usize = 0;
    let mut i: usize = 0;
    while i < renames.len()
        invariant
            i <= renames@.len(),
            n == rename_sources(renames@.take(i as int), target@).len(),
            n <= i,
        decreases renames@.len() - i,
    {
        proof {
            assert(renames@.take(i + 1).drop_last() =~= renames@.take(i as int));
        }
        if renames[i].1 == *target {
            n = n + 1;
        }
        i += 1;
    }
    proof {
        assert(renames@.take(renames@.len() as int) =~= renames@);
    }
    n
}

fn index_by_name_key(renames: &Vec<(String, String)>, ordered: &String) -> (key: String)
    ensures
        key@ == index_key(renames@, ordered@),
{
    let mut found: Option<usize> = None;
    let mut count: usize = 0;
    let mut i: usize = 0;
    while i < renames.len()
        invariant
            i <= renames@.len(),
            count == rename_sources(renames@.take(i as int), ordered@).len(),
            count <= i,
            count >= 1 ==> (found matches Some(k) && k < renames@.len()
                && renames@[k as int].0@ == rename_sources(
                renames@.take(i as int),
                ordered@,
            )[0]),
        decreases renames@.len() - i,
    {
        proof {
            assert(renames@.take(i + 1).drop_last() =~= renames@.take(i as int));
        }
        if renames[i].1 == *ordered {
            if count == 0 {
                found = Some(i);
            }
            count = count + 1;
        }
        i += 1;
    }
    proof {
        assert(renames@.take(renames@.len() as int) =~= renames@);
    }
    if count == 1 {
        match found {
            Some(k) => renames[k].0.clone(),
            None => ordered.clone(),
        }
    } else {
        ordered.clone()
    }
}

/// Every hidden name mapped to `true`.
pub open spec fn exclude_v(hidden: Seq<String>) -> Map<Seq<char>, JsonV>
    decreases hidden.len(),
{
    if hidden.len() == 0 {
        Map::empty()
    } else {
        exclude_v(hidden.drop_last()).insert(hidden.last()@, JsonV::Bool(true))
    }
}

/// The `excludeByName` map depends only on which names are hidden: every
/// hidden name, and nothing else, maps to `true`, whatever the order or
/// repetition of the hidden list.
pub proof fn lemma_exclude_is_hidden_set(hidden: Seq<String>)
    ensures
        exclude_v(hidden).dom() == views(hidden).to_set(),
        forall|k: Seq<char>|
            #[trigger] exclude_v(hidden).contains_key(k) ==> exclude_v(hidden)[k] == JsonV::Bool(
                true,
            ),
    decreases hidden.len(),
{
    if hidden.len() > 0 {
        let prefix = hidden.drop_last();
        lemma_exclude_is_hidden_set(prefix);
        assert(views(hidden) =~= views(prefix).push(hidden.last()@));
        views(prefix).lemma_push_to_set_commute(hidden.last()@);
        assert(exclude_v(hidden).dom() =~= views(hidden).to_set());
    } else {
        assert(views(hidden).to_set() =~= Set::<Seq<char>>::empty());
        assert(exclude_v(hidden).dom() =~= views(hidden).to_set());
    }
}

/// Hiding is order-free: two organize transformations that hide the same
/// set of names emit the same `excludeByName` map.
pub proof fn lemma_exclude_order_free(a: Seq<String>, b: Seq<String>)
    requires
        views(a).to_set() == views(b).to_set(),
    ensures
        exclude_v(a) == exclude_v(b),
{
    lemma_exclude_is_hidden_set(a);
    lemma_exclude_is_hidden_set(b);
    assert(exclude_v(a) =~= exclude_v(b));
}

/// Each ordered name's `indexByName` key mapped to its position; a later
/// entry with the same key replaces an earlier one.
pub open spec fn index_v(renames: Seq<(String, String)>, order: Seq<String>) -> Map<
    Seq<char>,
    JsonV,
>
    decreases order.len(),
{
    if order.len() == 0 {
        Map::empty()
    } else {
        index_v(renames, order.drop_last()).insert(
            index_key(renames, order.last()@),
            JsonV::UInt((order.len() - 1) as u64),
        )
    }
}

/// Every rename, from its source name to its new one.
pub open spec fn rename_v(renames: Seq<(String, String)>) -> Map<Seq<char>, JsonV>
    decreases renames.len(),
{
    if renames.len() == 0 {
        Map::empty()
    } else {
        rename_v(renames.drop_last()).insert(renames.last().0@, JsonV::Str(renames.last().1@))
    }
}

/// The options of an `organize` transformation.
pub open spec fn organize_v(o: OrganizeFields) -> Map<Seq<char>, JsonV> {
    Map::empty().insert("excludeByName"@, JsonV::Dict(exclude_v(o@.hidden))).insert(
        "indexByName"@,
        JsonV::Dict(index_v(o@.renames, o@.order)),
    ).insert("renameByName"@, JsonV::Dict(rename_v(o@.renames)))
}

fn organize_json(o: &OrganizeFields) -> (j: Json)
    ensures
        j@ == JsonV::Dict(organize_v(*o)),
{
    let hidden = o.hidden_names();
    let order = o.ordered_names();
    let renames = o.renames();
    let mut exclude = DictBuilder::new();
    let mut i: usize = 0;
    while i < hidden.len()
        invariant
            i <= hidden@.len(),
            exclude.map_v() == exclude_v(hidden@.take(i as int)),
        decreases hidden@.len() - i,
    {
        exclude.insert_string(hidden[i].clone(), Json::Bool(true));
        proof {
            assert(hidden@.take(i + 1).drop_last() =~= hidden@.take(i as int));
        }
        i += 1;
    }
    let mut index = DictBuilder::new();
    let mut i: usize = 0;
    while i < order.len()
        invariant
            i <= order@.len(),
            index.map_v() == index_v(renames@, order@.take(i as int)),
        decreases order@.len() - i,
    {
        let key = index_by_name_key(renames, &order[i]);
        index.insert_string(key, Json::UInt(i as u64));
        proof {
            assert(order@.take(i + 1).drop_last() =~= order@.take(i as int));
        }
        i += 1;
    }
    let mut rename = DictBuilder::new();
    let mut i: usize = 0;
    while i < renames.len()
        invariant
            i <= renames@.len(),
            rename.map_v() == rename_v(renames@.take(i as int)),
        decreases renames@.len() - i,
    {
        rename.insert_string(renames[i].0.clone(), Json::string(&renames[i].1));
        proof {
            assert(renames@.take(i + 1).drop_last() =~= renames@.take(i as int));
        }
        i += 1;
    }
    proof {
        assert(hidden@.take(hidden@.len() as int) =~= hidden@);
        assert(order@.take(order@.len() as int) =~= order@);
        assert(renames@.take(renames@.len() as int) =~= renames@);
    }
    let mut d = DictBuilder::new();
    d.insert("excludeByName", exclude.finish());
    d.insert("indexByName", index.finish());
    d.insert("renameByName", rename.finish());
    d.finish()
}

// ---------------------------------------------------------------------------
// Sort, time-series-to-table, labels
// ---------------------------------------------------------------------------

pub open spec fn sort_fields_v(fields: Seq<SortByField>) -> Seq<JsonV>
    decreases fields.len(),
{
    if fields.len() == 0 {
        Seq::empty()
    } else {
        sort_fields_v(fields.drop_last()).push(
            JsonV::Dict(
                Map::empty().insert("field"@, JsonV::Str(fields.last().field@)).insert(
                    "desc"@,
                    JsonV::Bool(fields.last().descending),
                ),
            ),
        )
    }
}

fn sort_json(fields: &Vec<SortByField>) -> (j: Json)
    ensures
        j@ == JsonV::Dict(Map::empty().insert("sort"@, JsonV::Array(sort_fields_v(fields@)))),
{
    let mut sort = ArrayBuilder::new();
    let mut i: usize = 0;
    while i < fields.len()
        invariant
            i <= fields@.len(),
            sort.items_v() == sort_fields_v(fields@.take(i as int)),
        decreases fields@.len() - i,
    {
        let mut d = DictBuilder::new();
        d.insert("field", Json::string(&fields[i].field));
        d.insert("desc", Json::Bool(fields[i].descending));
        sort.push(d.finish());
        proof {
            assert(fields@.take(i + 1).drop_last() =~= fields@.take(i as int));
        }
        i += 1;
    }
    proof {
        assert(fields@.take(fields@.len() as int) =~= fields@);
    }
    let mut d = DictBuilder::new();
    d.insert("sort", sort.finish());
    d.finish()
}

/// One query's `timeSeriesTable` entry: each option that was set.
pub open spec fn table_query_v(q: TimeSeriesToTableQuery) -> JsonV {
    let m = ins_opt(Map::empty(), "stat"@, match q.stat {
        Some(r) => Some(JsonV::Str(reducer_name(r))),
        None => None,
    });
    JsonV::Dict(ins_opt(m, "timeField"@, match q.time_field {
        Some(f) => Some(JsonV::Str(f@)),
        None => None,
    }))
}

/// `timeSeriesTable` options, keyed by query reference ID.
pub open spec fn table_queries_v(queries: Seq<(String, TimeSeriesToTableQuery)>) -> Map<
    Seq<char>,
    JsonV,
>
    decreases queries.len(),
{
    if queries.len() == 0 {
        Map::empty()
    } else {
        table_queries_v(queries.drop_last()).insert(
            queries.last().0@,
            table_query_v(queries.last().1),
        )
    }
}

fn table_queries_json(queries: &Vec<(String, TimeSeriesToTableQuery)>) -> (j: Json)
    ensures
        j@ == JsonV::Dict(table_queries_v(queries@)),
{
    let mut d = DictBuilder::new();
    let mut i: usize = 0;
    while i < queries.len()
        invariant
            i <= queries@.len(),
            d.map_v() == table_queries_v(queries@.take(i as int)),
        decreases queries@.len() - i,
    {
        let q = &queries[i].1;
        let mut entry = DictBuilder::new();
        if let Some(r) = q.stat {
            entry.insert("stat", Json::str(r.as_grafana()));
        }
        if let Some(f) = &q.time_field {
            entry.insert("timeField", Json::string(f));
        }
        d.insert_string(queries[i].0.clone(), entry.finish());
        proof {
            assert(queries@.take(i + 1).drop_last() =~= queries@.take(i as int));
        }
        i += 1;
    }
    proof {
        assert(queries@.take(queries@.len() as int) =~= queries@);
    }
    d.finish()
}

// ---------------------------------------------------------------------------
// Transformations
// ---------------------------------------------------------------------------

/// A transformation's Grafana ID.
pub open spec fn transformation_id(t: Transformation) -> Seq<char> {
    match t {
        Transformation::JoinByField(_) => "joinByField"@,
        Transformation::OrganizeFields(_) => "organize"@,
        Transformation::SortBy(_) => "sortBy"@,
        Transformation::TimeSeriesToTable(_) => "timeSeriesTable"@,
        Transformation::LabelsToFields(_) => "labelsToFields"@,
        Transformation::Raw(r) => r.id@,
    }
}

/// A transformation's options as Grafana stores them.
pub open spec fn transformation_options_v(t: Transformation) -> JsonV {
    match t {
        Transformation::JoinByField(j) => JsonV::Dict(
            Map::empty().insert("byField"@, JsonV::Str(j.field@)).insert(
                "mode"@,
                JsonV::Str(join_mode_name(j.mode)),
            ),
        ),
        Transformation::OrganizeFields(o) => JsonV::Dict(organize_v(o)),
        Transformation::SortBy(s) => JsonV::Dict(
            Map::empty().insert("sort"@, JsonV::Array(sort_fields_v(s.fields@))),
        ),
        Transformation::TimeSeriesToTable(t) => JsonV::Dict(table_queries_v(t@.queries)),
        Transformation::LabelsToFields(l) => {
            let m = Map::empty().insert("mode"@, JsonV::Str(labels_to_fields_mode_name(l.mode)));
            let m = if l.keep@.len() > 0 {
                m.insert("keepLabels"@, JsonV::Array(strs_v(l.keep@)))
            } else {
                m
            };
            JsonV::Dict(ins_opt(m, "valueLabel"@, match l.value_label {
                Some(v) => Some(JsonV::Str(v@)),
                None => None,
            }))
        },
        Transformation::Raw(r) => JsonV::Dict(raw_map(r.options@)),
    }
}

/// A frame filter as Grafana stores it; a frame name is escaped so that it
/// matches exactly.
pub open spec fn filter_v(f: TransformationFilter) -> JsonV {
    match f {
        TransformationFilter::RefId(r) => JsonV::Dict(
            Map::empty().insert("id"@, JsonV::Str("byRefId"@)).insert("options"@, JsonV::Str(r@)),
        ),
        TransformationFilter::FrameName(n) => JsonV::Dict(
            Map::empty().insert("id"@, JsonV::Str("byName"@)).insert(
                "options"@,
                JsonV::Str(escape(n@)),
            ),
        ),
    }
}

/// A transformation as Grafana stores it: ID and options, then its filter
/// when set and `disabled: true` when disabled.
pub open spec fn transformation_v(t: Transformation) -> JsonV {
    let envelope = t.spec_envelope();
    let m = Map::empty().insert("id"@, JsonV::Str(transformation_id(t))).insert(
        "options"@,
        transformation_options_v(t),
    );
    let m = ins_opt(m, "filter"@, match envelope.filter {
        Some(f) => Some(filter_v(f)),
        None => None,
    });
    JsonV::Dict(
        if envelope.disabled {
            m.insert("disabled"@, JsonV::Bool(true))
        } else {
            m
        },
    )
}

fn transformation_filter(f: &TransformationFilter) -> (j: Json)
    ensures
        j@ == filter_v(*f),
{
    let mut d = DictBuilder::new();
    match f {
        TransformationFilter::RefId(r) => {
            d.insert("id", Json::str("byRefId"));
            d.insert("options", Json::string(r));
        },
        TransformationFilter::FrameName(n) => {
            d.insert("id", Json::str("byName"));
            d.insert("options", Json::Str(escape_frame_name(n.as_str())));
        },
    }
    d.finish()
}

/// Lowers one transformation.
pub fn normalize_transformation(t: &Transformation) -> (j: Json)
    ensures
        j@ == transformation_v(*t),
{
    let mut d = DictBuilder::new();
    match t {
        Transformation::JoinByField(j) => {
            d.insert("id", Json::str("joinByField"));
            let mut o = DictBuilder::new();
            o.insert("byField", Json::string(&j.field));
            o.insert("mode", Json::str(join_mode_str(j.mode)));
            d.insert("options", o.finish());
        },
        Transformation::OrganizeFields(o) => {
            d.insert("id", Json::str("organize"));
            d.insert("options", organize_json(o));
        },
        Transformation::SortBy(s) => {
            d.insert("id", Json::str("sortBy"));
            d.insert("options", sort_json(&s.fields));
        },
        Transformation::TimeSeriesToTable(t) => {
            d.insert("id", Json::str("timeSeriesTable"));
            d.insert("options", table_queries_json(t.entries()));
        },
        Transformation::LabelsToFields(l) => {
            d.insert("id", Json::str("labelsToFields"));
            let mut o = DictBuilder::new();
            o.insert("mode", Json::str(labels_to_fields_mode_str(l.mode)));
            if l.keep.len() > 0 {
                o.insert("keepLabels", Json::strings(&l.keep));
            }
            if let Some(v) = &l.value_label {
                o.insert("valueLabel", Json::string(v));
            }
            d.insert("options", o.finish());
        },
        Transformation::Raw(r) => {
            d.insert("id", Json::string(&r.id));
            let mut o = DictBuilder::new();
            o.extend_raw(&r.options);
            proof {
                assert(Map::<Seq<char>, JsonV>::empty().union_prefer_right(raw_map(r.options@))
                    =~= raw_map(r.options@));
            }
            d.insert("options", o.finish());
        },
    }
    let envelope = t.envelope();
    if let Some(f) = &envelope.filter {
        d.insert("filter", transformation_filter(f));
    }
    if envelope.disabled {
        d.insert("disabled", Json::Bool(true));
    }
    d.finish()
}

} // verus!
