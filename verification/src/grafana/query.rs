//! Query reference IDs and Grafana query targets.
use vstd::prelude::*;

use crate::datasource::DataSource;
use crate::grafana::layout::{lemma_ref_name_injective, ref_name, reference_id};
use crate::grafana::wire::{
    datasource_json, datasource_v, inherit, opt_datasource_v, opt_str, push_opt,
};
use crate::json::{entry_of, lemma_lookup_push, lookup, raw_map, DictBuilder, Json, JsonV, ObjectBuilder};
use crate::query::{editor_mode_name, prometheus_format_name, Query};
use crate::text::views;

verus! {

// ---------------------------------------------------------------------------
// Reference IDs
// ---------------------------------------------------------------------------

/// The reference IDs that queries set explicitly.
pub open spec fn explicit_refs(queries: Seq<Query>) -> Set<Seq<char>>
    decreases queries.len(),
{
    if queries.len() == 0 {
        Set::empty()
    } else {
        let rest = explicit_refs(queries.drop_last());
        match queries.last().spec_options().ref_id {
            Some(r) => rest.insert(r@),
            None => rest,
        }
    }
}

/// No two queries set the same explicit reference ID.
pub open spec fn explicit_refs_distinct(queries: Seq<Query>) -> bool {
    forall|i: int, j: int|
        0 <= i < j < queries.len() && (#[trigger] queries[i]).spec_options().ref_id is Some
            && (#[trigger] queries[j]).spec_options().ref_id is Some ==> queries[i].spec_options().ref_id->0@
            != queries[j].spec_options().ref_id->0@
}

/// `k` is the first position from `from` on whose reference ID `used` does
/// not hold.
pub open spec fn is_first_free(used: Set<Seq<char>>, from: nat, k: nat) -> bool {
    &&& from <= k
    &&& !used.contains(ref_name(k))
    &&& forall|j: nat| from <= j < k ==> used.contains(#[trigger] ref_name(j))
}

/// The first position from `from` on whose reference ID is free.
pub open spec fn first_free(used: Set<Seq<char>>, from: nat) -> nat {
    choose|k: nat| is_first_free(used, from, k)
}

/// The reference IDs assigned to `queries` in order: an explicit one as
/// given, otherwise the next generated one not yet in `used`, which then
/// becomes used.
pub open spec fn assign(queries: Seq<Query>, used: Set<Seq<char>>, next: nat) -> Seq<Seq<char>>
    decreases queries.len(),
{
    if queries.len() == 0 {
        Seq::empty()
    } else {
        match queries[0].spec_options().ref_id {
            Some(r) => seq![r@] + assign(queries.drop_first(), used, next),
            None => {
                let k = first_free(used, next);
                seq![ref_name(k)] + assign(queries.drop_first(), used.insert(ref_name(k)), k + 1)
            },
        }
    }
}

/// The reference ID each query resolves to: explicit ones are kept, the
/// others get `A`, `B`, … skipping every ID already taken.
pub open spec fn effective_refs(queries: Seq<Query>) -> Seq<Seq<char>> {
    assign(queries, explicit_refs(queries), 0)
}

proof fn lemma_explicit_refs(queries: Seq<Query>)
    ensures
        explicit_refs(queries).finite(),
        forall|i: int|
            0 <= i < queries.len() && (#[trigger] queries[i]).spec_options().ref_id is Some
                ==> explicit_refs(queries).contains(queries[i].spec_options().ref_id->0@),
    decreases queries.len(),
{
    if queries.len() > 0 {
        let prefix = queries.drop_last();
        lemma_explicit_refs(prefix);
        assert forall|i: int|
            0 <= i < queries.len() && (#[trigger] queries[i]).spec_options().ref_id is Some
                implies explicit_refs(queries).contains(queries[i].spec_options().ref_id->0@) by {
            if i < prefix.len() {
                assert(prefix[i] == queries[i]);
            }
        }
    }
}

/// At most `|s|` consecutive reference IDs can all lie in a finite set `s`.
proof fn lemma_refs_in_set_bounded(s: Set<Seq<char>>, a: nat, b: nat)
    requires
        s.finite(),
        a <= b,
        forall|k: nat| a <= k < b ==> s.contains(#[trigger] ref_name(k)),
    ensures
        b - a <= s.len(),
{
    let names = Seq::new((b - a) as nat, |i: int| ref_name((a + i) as nat));
    assert forall|i: int, j: int| 0 <= i < names.len() && 0 <= j < names.len() && i != j
        implies names[i] != names[j] by {
        lemma_ref_name_injective((a + i) as nat, (a + j) as nat);
    }
    assert(names.no_duplicates());
    names.unique_seq_to_set();
    assert(names.to_set().subset_of(s)) by {
        assert forall|v: Seq<char>| names.to_set().contains(v) implies s.contains(v) by {
            let i = choose|i: int| 0 <= i < names.len() && names[i] == v;
            assert(s.contains(ref_name((a + i) as nat)));
        }
    }
    vstd::set_lib::lemma_len_subset(names.to_set(), s);
}

proof fn lemma_least_free(used: Set<Seq<char>>, from: nat, free: nat) -> (k: nat)
    requires
        from <= free,
        !used.contains(ref_name(free)),
    ensures
        is_first_free(used, from, k),
    decreases free - from,
{
    if used.contains(ref_name(from)) {
        let k = lemma_least_free(used, from + 1, free);
        assert(is_first_free(used, from, k));
        k
    } else {
        assert(is_first_free(used, from, from));
        from
    }
}

/// A finite set leaves some reference ID free from every position on.
pub proof fn lemma_first_free(used: Set<Seq<char>>, from: nat)
    requires
        used.finite(),
    ensures
        is_first_free(used, from, first_free(used, from)),
{
    let bound = from + used.len();
    if used.contains(ref_name(bound)) {
        if forall|k: nat| from <= k < bound + 1 ==> used.contains(#[trigger] ref_name(k)) {
            lemma_refs_in_set_bounded(used, from, bound + 1);
        }
        let free = choose|k: nat| from <= k < bound + 1 && !used.contains(#[trigger] ref_name(k));
        let k = lemma_least_free(used, from, free);
        lemma_first_free_unique(used, from, k);
    } else {
        let k = lemma_least_free(used, from, bound);
        lemma_first_free_unique(used, from, k);
    }
}

proof fn lemma_first_free_unique(used: Set<Seq<char>>, from: nat, k: nat)
    requires
        is_first_free(used, from, k),
    ensures
        first_free(used, from) == k,
{
    let c = first_free(used, from);
    assert(is_first_free(used, from, c));
    if c < k {
        assert(used.contains(ref_name(c)));
    } else if c > k {
        assert(used.contains(ref_name(k)));
    }
}

proof fn lemma_assign(queries: Seq<Query>, used: Set<Seq<char>>, next: nat)
    requires
        used.finite(),
        explicit_refs_distinct(queries),
        forall|i: int|
            0 <= i < queries.len() && (#[trigger] queries[i]).spec_options().ref_id is Some
                ==> used.contains(queries[i].spec_options().ref_id->0@),
    ensures
        assign(queries, used, next).len() == queries.len(),
        assign(queries, used, next).no_duplicates(),
        forall|i: int|
            0 <= i < queries.len() ==> match (#[trigger] queries[i]).spec_options().ref_id {
                Some(r) => assign(queries, used, next)[i] == r@,
                None => !used.contains(assign(queries, used, next)[i]),
            },
    decreases queries.len(),
{
    if queries.len() > 0 {
        let tail = queries.drop_first();
        assert forall|i: int, j: int|
            0 <= i < j < tail.len() && (#[trigger] tail[i]).spec_options().ref_id is Some
                && (#[trigger] tail[j]).spec_options().ref_id is Some implies tail[i].spec_options().ref_id->0@
            != tail[j].spec_options().ref_id->0@ by {
            assert(tail[i] == queries[i + 1] && tail[j] == queries[j + 1]);
        }
        let out = assign(queries, used, next);
        match queries[0].spec_options().ref_id {
            Some(r) => {
                assert forall|i: int|
                    0 <= i < tail.len() && (#[trigger] tail[i]).spec_options().ref_id is Some
                        implies used.contains(tail[i].spec_options().ref_id->0@) by {
                    assert(tail[i] == queries[i + 1]);
                }
                lemma_assign(tail, used, next);
                let rest = assign(tail, used, next);
                assert(out == seq![r@] + rest);
                assert forall|i: int|
                    0 <= i < queries.len() implies match (#[trigger] queries[i]).spec_options().ref_id {
                        Some(r) => out[i] == r@,
                        None => !used.contains(out[i]),
                    } by {
                    if i > 0 {
                        assert(tail[i - 1] == queries[i]);
                    }
                }
                assert forall|i: int, j: int| 0 <= i < out.len() && 0 <= j < out.len() && i != j
                    implies out[i] != out[j] by {
                    if i > 0 && j > 0 {
                        assert(rest[i - 1] != rest[j - 1]);
                    } else if i == 0 {
                        assert(tail[j - 1] == queries[j]);
                        if queries[j].spec_options().ref_id is Some {
                            assert(queries[0].spec_options().ref_id->0@ != queries[j].spec_options().ref_id->0@);
                        }
                    } else {
                        assert(tail[i - 1] == queries[i]);
                        if queries[i].spec_options().ref_id is Some {
                            assert(queries[0].spec_options().ref_id->0@ != queries[i].spec_options().ref_id->0@);
                        }
                    }
                }
            },
            None => {
                lemma_first_free(used, next);
                let k = first_free(used, next);
                let used2 = used.insert(ref_name(k));
                assert forall|i: int|
                    0 <= i < tail.len() && (#[trigger] tail[i]).spec_options().ref_id is Some
                        implies used2.contains(tail[i].spec_options().ref_id->0@) by {
                    assert(tail[i] == queries[i + 1]);
                }
                lemma_assign(tail, used2, k + 1);
                let rest = assign(tail, used2, k + 1);
                assert(out == seq![ref_name(k)] + rest);
                assert forall|i: int|
                    0 <= i < queries.len() implies match (#[trigger] queries[i]).spec_options().ref_id {
                        Some(r) => out[i] == r@,
                        None => !used.contains(out[i]),
                    } by {
                    if i > 0 {
                        assert(tail[i - 1] == queries[i]);
                    }
                }
                assert forall|i: int, j: int| 0 <= i < out.len() && 0 <= j < out.len() && i != j
                    implies out[i] != out[j] by {
                    if i > 0 && j > 0 {
                        assert(rest[i - 1] != rest[j - 1]);
                    } else if i == 0 {
                        assert(tail[j - 1] == queries[j]);
                    } else {
                        assert(tail[i - 1] == queries[i]);
                    }
                }
            },
        }
    }
}

proof fn lemma_assign_len(queries: Seq<Query>, used: Set<Seq<char>>, next: nat)
    ensures
        assign(queries, used, next).len() == queries.len(),
    decreases queries.len(),
{
    if queries.len() > 0 {
        match queries[0].spec_options().ref_id {
            Some(r) => lemma_assign_len(queries.drop_first(), used, next),
            None => {
                let k = first_free(used, next);
                lemma_assign_len(queries.drop_first(), used.insert(ref_name(k)), k + 1);
            },
        }
    }
}

/// Reference IDs after assignment are pairwise distinct, and every explicit
/// one is kept, whenever the explicit ones are distinct.
pub proof fn lemma_effective_refs_distinct(queries: Seq<Query>)
    requires
        explicit_refs_distinct(queries),
    ensures
        effective_refs(queries).len() == queries.len(),
        effective_refs(queries).no_duplicates(),
        forall|i: int|
            0 <= i < queries.len() && (#[trigger] queries[i]).spec_options().ref_id is Some
                ==> effective_refs(queries)[i] == queries[i].spec_options().ref_id->0@,
{
    lemma_explicit_refs(queries);
    lemma_assign(queries, explicit_refs(queries), 0);
}

fn contains_string(items: &Vec<String>, wanted: &String) -> (b: bool)
    ensures
        b == views(items@).contains(wanted@),
{
    let mut i: usize = 0;
    while i < items.len()
        invariant
            i <= items.len(),
            forall|j: int| 0 <= j < i ==> items@[j]@ != wanted@,
        decreases items.len() - i,
    {
        if items[i] == *wanted {
            assert(views(items@)[i as int] == wanted@);
            return true;
        }
        i += 1;
    }
    proof {
        if views(items@).contains(wanted@) {
            let j = choose|j: int| 0 <= j < views(items@).len() && views(items@)[j] == wanted@;
            assert(items@[j]@ == wanted@);
        }
    }
    false
}

proof fn lemma_views_push(items: Seq<String>, s: String)
    ensures
        views(items.push(s)) == views(items).push(s@),
        views(items.push(s)).to_set() == views(items).to_set().insert(s@),
{
    assert(views(items.push(s)) =~= views(items).push(s@));
    views(items).lemma_push_to_set_commute(s@);
}

/// Returns the reference ID each query resolves to, explicit or assigned.
pub fn effective_ref_ids(queries: &Vec<Query>) -> (ids: Vec<String>)
    ensures
        views(ids@) == effective_refs(queries@),
{
    let mut used: Vec<String> = Vec::new();
    let mut i: usize = 0;
    while i < queries.len()
        invariant
            i <= queries.len(),
            views(used@).to_set() == explicit_refs(queries@.take(i as int)),
        decreases queries.len() - i,
    {
        proof {
            assert(queries@.take(i + 1).drop_last() =~= queries@.take(i as int));
            assert(queries@.take(i + 1).last() == queries@[i as int]);
        }
        if let Some(r) = &queries[i].options().ref_id {
            proof {
                lemma_views_push(used@, *r);
            }
            used.push(r.clone());
        }
        i += 1;
    }
    proof {
        assert(queries@.take(queries.len() as int) =~= queries@);
    }
    let ghost explicit = views(used@).to_set();
    let mut ids: Vec<String> = Vec::new();
    let mut next: u64 = 0;
    let mut i: usize = 0;
    while i < queries.len()
        invariant
            i <= queries.len(),
            ids@.len() == i,
            views(used@).to_set().finite(),
            explicit == explicit_refs(queries@),
            forall|k: nat| k < next ==> views(used@).to_set().contains(#[trigger] ref_name(k)),
            next <= used@.len(),
            views(ids@) + assign(queries@.skip(i as int), views(used@).to_set(), next as nat)
                == assign(queries@, explicit, 0),
        decreases queries.len() - i,
    {
        let ghost uset = views(used@).to_set();
        let ghost rest = queries@.skip(i as int);
        proof {
            assert(rest[0] == queries@[i as int]);
            assert(rest.drop_first() =~= queries@.skip(i + 1));
            vstd::seq_lib::seq_to_set_is_finite(views(used@));
        }
        match &queries[i].options().ref_id {
            Some(r) => {
                let ghost before = ids@;
                ids.push(r.clone());
                proof {
                    assert(views(ids@) =~= views(before).push(r@));
                    assert(views(before) + assign(rest, uset, next as nat) =~= views(ids@)
                        + assign(queries@.skip(i + 1), uset, next as nat));
                }
            },
            None => {
                let ghost from = next;
                while contains_string(&used, &reference_id(next))
                    invariant
                        from <= next,
                        uset == views(used@).to_set(),
                        uset.finite(),
                        forall|k: nat| k < next ==> uset.contains(#[trigger] ref_name(k)),
                    decreases used@.len() - next,
                {
                    let used_len: usize = used.len();
                    proof {
                        assert forall|k: nat| 0 <= k < next + 1 implies uset.contains(
                            #[trigger] ref_name(k),
                        ) by {}
                        lemma_refs_in_set_bounded(uset, 0, (next + 1) as nat);
                        views(used@).lemma_cardinality_of_set();
                        assert(views(used@).len() == used_len);
                    }
                    next = next + 1;
                }
                let candidate = reference_id(next);
                proof {
                    assert(is_first_free(uset, from as nat, next as nat));
                    lemma_first_free_unique(uset, from as nat, next as nat);
                    lemma_views_push(used@, candidate);
                }
                let ghost before = ids@;
                ids.push(candidate.clone());
                used.push(candidate);
                let used_len: usize = used.len();
                proof {
                    let uset2 = views(used@).to_set();
                    assert(uset2 == uset.insert(ref_name(next as nat)));
                    assert forall|k: nat| 0 <= k < next + 1 implies uset2.contains(
                        #[trigger] ref_name(k),
                    ) by {}
                    vstd::seq_lib::seq_to_set_is_finite(views(used@));
                    lemma_refs_in_set_bounded(uset2, 0, (next + 1) as nat);
                    views(used@).lemma_cardinality_of_set();
                    assert(views(used@).len() == used_len);
                    assert(views(ids@) =~= views(before).push(ref_name(next as nat)));
                    assert(views(before) + assign(rest, uset, from as nat) =~= views(ids@) + assign(
                        queries@.skip(i + 1),
                        uset2,
                        (next + 1) as nat,
                    ));
                }
                next = next + 1;
            },
        }
        i += 1;
    }
    proof {
        assert(queries@.skip(queries.len() as int) =~= Seq::<Query>::empty());
        assert(views(ids@) + Seq::<Seq<char>>::empty() =~= views(ids@));
    }
    ids
}

// ---------------------------------------------------------------------------
// Targets
// ---------------------------------------------------------------------------

/// The `queryType` of a target: Loki queries name their range or instant
/// kind; others have none.
pub open spec fn query_type_v(q: Query) -> Option<JsonV> {
    match q {
        Query::Loki(l) => Some(
            JsonV::Str(
                if l.options.instant {
                    "instant"@
                } else {
                    "range"@
                },
            ),
        ),
        _ => None,
    }
}

/// The caller-supplied keys merged into a raw query's target.
pub open spec fn query_extra_v(q: Query) -> Map<Seq<char>, JsonV> {
    match q {
        Query::Raw(r) => raw_map(r.extra@),
        _ => Map::empty(),
    }
}

/// A Grafana query target: reference ID, datasource (the query's own, else
/// the panel's), expression, then each option that was set.
pub open spec fn target_v(q: Query, ref_id: Seq<char>, panel_ds: Option<DataSource>) -> JsonV {
    let o = q.spec_options();
    let e = seq![("refId"@, JsonV::Str(ref_id))];
    let e = push_opt(e, "datasource"@, opt_datasource_v(inherit(o.datasource, panel_ds)));
    let e = e.push(("expr"@, JsonV::Str(q.spec_expression()@)));
    let e = push_opt(
        e,
        "format"@,
        match q.spec_prometheus_format() {
            Some(f) => Some(JsonV::Str(prometheus_format_name(f))),
            None => None,
        },
    );
    let e = push_opt(
        e,
        "editorMode"@,
        match o.editor_mode {
            Some(m) => Some(JsonV::Str(editor_mode_name(m))),
            None => None,
        },
    );
    let e = push_opt(e, "legendFormat"@, opt_str(o.legend_format));
    let e = if o.instant {
        e.push(("instant"@, JsonV::Bool(true)))
    } else {
        e
    };
    let e = push_opt(
        e,
        "range"@,
        match o.range {
            Some(b) => Some(JsonV::Bool(b)),
            None => None,
        },
    );
    let e = e.push(("hide"@, JsonV::Bool(o.hidden)));
    let e = push_opt(e, "interval"@, opt_str(o.interval));
    let e = push_opt(e, "queryType"@, query_type_v(q));
    JsonV::Object(e, query_extra_v(q))
}

/// The targets of a panel's queries.
pub open spec fn targets_v(
    queries: Seq<Query>,
    refs: Seq<Seq<char>>,
    panel_ds: Option<DataSource>,
) -> Seq<JsonV>
    decreases queries.len(),
{
    if queries.len() == 0 {
        Seq::empty()
    } else {
        targets_v(queries.drop_last(), refs, panel_ds).push(
            target_v(queries.last(), refs[queries.len() - 1], panel_ds),
        )
    }
}

/// A target names the query's own datasource when it has one, else the one
/// handed down from the panel, and none when neither is set.
pub proof fn lemma_target_datasource(q: Query, ref_id: Seq<char>, panel_ds: Option<DataSource>)
    ensures
        entry_of(target_v(q, ref_id, panel_ds), "datasource"@) == match q.spec_options().datasource {
            Some(d) => Some(datasource_v(d)),
            None => match panel_ds {
                Some(d) => Some(datasource_v(d)),
                None => None,
            },
        },
{
    reveal_strlit("datasource");
    reveal_strlit("refId");
    reveal_strlit("expr");
    reveal_strlit("format");
    reveal_strlit("editorMode");
    reveal_strlit("legendFormat");
    reveal_strlit("instant");
    reveal_strlit("range");
    reveal_strlit("hide");
    reveal_strlit("interval");
    reveal_strlit("queryType");
    let key = "datasource"@;
    let o = q.spec_options();
    let e0 = seq![("refId"@, JsonV::Str(ref_id))];
    assert(e0.drop_last() =~= Seq::<(Seq<char>, JsonV)>::empty());
    assert(lookup(e0, key) == None::<JsonV>) by {
        assert(e0.len() == 1);
        assert(e0.last() == e0[0]);
        assert(e0[0].0 == "refId"@);
        assert("refId"@.len() != key.len());
        assert(lookup(e0.drop_last(), key) == None::<JsonV>);
    }
    let e1 = push_opt(e0, key, opt_datasource_v(inherit(o.datasource, panel_ds)));
    if let Some(v) = opt_datasource_v(inherit(o.datasource, panel_ds)) {
        lemma_lookup_push(e0, key, v, key);
    }
    let e2 = e1.push(("expr"@, JsonV::Str(q.spec_expression()@)));
    lemma_lookup_push(e1, "expr"@, JsonV::Str(q.spec_expression()@), key);
    let e3 = push_opt(
        e2,
        "format"@,
        match q.spec_prometheus_format() {
            Some(f) => Some(JsonV::Str(prometheus_format_name(f))),
            None => None,
        },
    );
    if let Some(f) = q.spec_prometheus_format() {
        lemma_lookup_push(e2, "format"@, JsonV::Str(prometheus_format_name(f)), key);
    }
    let e4 = push_opt(
        e3,
        "editorMode"@,
        match o.editor_mode {
            Some(m) => Some(JsonV::Str(editor_mode_name(m))),
            None => None,
        },
    );
    if let Some(m) = o.editor_mode {
        lemma_lookup_push(e3, "editorMode"@, JsonV::Str(editor_mode_name(m)), key);
    }
    let e5 = push_opt(e4, "legendFormat"@, opt_str(o.legend_format));
    if let Some(v) = opt_str(o.legend_format) {
        lemma_lookup_push(e4, "legendFormat"@, v, key);
    }
    let e6 = if o.instant {
        e5.push(("instant"@, JsonV::Bool(true)))
    } else {
        e5
    };
    lemma_lookup_push(e5, "instant"@, JsonV::Bool(true), key);
    let e7 = push_opt(
        e6,
        "range"@,
        match o.range {
            Some(b) => Some(JsonV::Bool(b)),
            None => None,
        },
    );
    if let Some(b) = o.range {
        lemma_lookup_push(e6, "range"@, JsonV::Bool(b), key);
    }
    let e8 = e7.push(("hide"@, JsonV::Bool(o.hidden)));
    lemma_lookup_push(e7, "hide"@, JsonV::Bool(o.hidden), key);
    let e9 = push_opt(e8, "interval"@, opt_str(o.interval));
    if let Some(v) = opt_str(o.interval) {
        lemma_lookup_push(e8, "interval"@, v, key);
    }
    let e10 = push_opt(e9, "queryType"@, query_type_v(q));
    if let Some(v) = query_type_v(q) {
        lemma_lookup_push(e9, "queryType"@, v, key);
    }
    assert(target_v(q, ref_id, panel_ds) == JsonV::Object(e10, query_extra_v(q)));
    assert("expr"@ != key && "format"@ != key && "editorMode"@ != key && "legendFormat"@ != key
        && "instant"@ != key && "range"@ != key && "hide"@ != key && "interval"@ != key) by {
        assert("expr"@.len() != key.len() && "format"@.len() != key.len());
        assert("editorMode"@[0] != key[0] && "legendFormat"@.len() != key.len());
        assert("instant"@.len() != key.len() && "range"@.len() != key.len());
        assert("hide"@.len() != key.len() && "interval"@.len() != key.len());
    }
    assert("queryType"@ != key) by {
        assert("queryType"@.len() != key.len());
    }
}

/// The `i`-th target is the `i`-th query's, with its reference ID.
pub proof fn lemma_targets_index(
    queries: Seq<Query>,
    refs: Seq<Seq<char>>,
    panel_ds: Option<DataSource>,
    i: int,
)
    requires
        0 <= i < queries.len(),
    ensures
        targets_v(queries, refs, panel_ds).len() == queries.len(),
        targets_v(queries, refs, panel_ds)[i] == target_v(queries[i], refs[i], panel_ds),
    decreases queries.len(),
{
    let prefix = queries.drop_last();
    if i < queries.len() - 1 {
        lemma_targets_index(prefix, refs, panel_ds, i);
        assert(prefix[i] == queries[i]);
    } else if queries.len() > 1 {
        lemma_targets_index(prefix, refs, panel_ds, 0);
    } else {
        assert(targets_v(prefix, refs, panel_ds).len() == 0);
    }
    assert(queries.last() == queries[queries.len() - 1]);
}

fn target_json(q: &Query, ref_id: String, panel_ds: &Option<DataSource>) -> (j: Json)
    ensures
        j@ == target_v(*q, ref_id@, *panel_ds),
{
    let o = q.options();
    let mut b = ObjectBuilder::new();
    b.insert("refId", Json::Str(ref_id));
    match &o.datasource {
        Some(d) => b.insert("datasource", datasource_json(d)),
        None => match panel_ds {
            Some(d) => b.insert("datasource", datasource_json(d)),
            None => {},
        },
    }
    b.insert("expr", Json::string(q.expression()));
    if let Some(f) = q.prometheus_format() {
        b.insert("format", Json::str(f.as_grafana()));
    }
    if let Some(m) = o.editor_mode {
        b.insert("editorMode", Json::str(m.as_grafana()));
    }
    if let Some(legend) = &o.legend_format {
        b.insert("legendFormat", Json::string(legend));
    }
    if o.instant {
        b.insert("instant", Json::Bool(true));
    }
    if let Some(range) = o.range {
        b.insert("range", Json::Bool(range));
    }
    b.insert("hide", Json::Bool(o.hidden));
    if let Some(interval) = &o.interval {
        b.insert("interval", Json::string(interval));
    }
    match q {
        Query::Loki(_) => {
            if o.instant {
                b.insert("queryType", Json::str("instant"));
            } else {
                b.insert("queryType", Json::str("range"));
            }
        },
        _ => {},
    }
    let mut extra = DictBuilder::new();
    match q {
        Query::Raw(r) => {
            extra.extend_raw(&r.extra);
            proof {
                assert(Map::<Seq<char>, JsonV>::empty().union_prefer_right(raw_map(r.extra@))
                    =~= raw_map(r.extra@));
            }
        },
        _ => {},
    }
    b.finish_flattened(extra)
}

/// Lowers a panel's queries to Grafana targets, each with its effective
/// reference ID.
pub fn normalize_targets(queries: &Vec<Query>, panel_ds: &Option<DataSource>) -> (targets: Vec<
    Json,
>)
    ensures
        Json::view_items(targets@) == targets_v(queries@, effective_refs(queries@), *panel_ds),
{
    let ids = effective_ref_ids(queries);
    let ghost refs = effective_refs(queries@);
    proof {
        lemma_assign_len(queries@, explicit_refs(queries@), 0);
    }
    let mut targets: Vec<Json> = Vec::new();
    let mut i: usize = 0;
    let mut rest = ids;
    let ghost all = rest@;
    proof {
        assert(views(all).len() == all.len());
    }
    while i < queries.len()
        invariant
            i <= queries.len(),
            views(all) == refs,
            all.len() == queries.len(),
            rest@ =~= all.skip(i as int),
            Json::view_items(targets@) == targets_v(queries@.take(i as int), refs, *panel_ds),
        decreases queries.len() - i,
    {
        let ref_id = rest.remove(0);
        proof {
            assert(ref_id == all[i as int]);
            assert(ref_id@ == refs[i as int]);
        }
        let ghost before = targets@;
        targets.push(target_json(&queries[i], ref_id, panel_ds));
        proof {
            assert(targets@.drop_last() =~= before);
            assert(queries@.take(i + 1).drop_last() =~= queries@.take(i as int));
            assert(queries@.take(i + 1).last() == queries@[i as int]);
        }
        i += 1;
        proof {
            assert(rest@ =~= all.skip(i as int));
        }
    }
    proof {
        assert(queries@.take(queries.len() as int) =~= queries@);
    }
    targets
}

} // verus!
