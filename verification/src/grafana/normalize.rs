//! The serialization pass: validation, ID reservation and assignment,
//! layout, and lowering of the whole dashboard.
use vstd::prelude::*;

use crate::dashboard::{cursor_sync_code, Dashboard, DashboardItem, Row};
use crate::datasource::DataSource;
use crate::grafana::layout::{
    disjoint, flow, id_ints, id_set, lemma_flow_no_overlap, max16, max_u16, sat, sat_add,
    total_height, widths_valid, FlowLayout, IdAllocator,
};
use crate::grafana::query::{effective_refs, explicit_refs_distinct, lemma_effective_refs_distinct};
use crate::grafana::panel::{lemma_view_items_len, normalize_panel, normalize_row, panel_v, row_v};
use crate::grafana::validate::{
    dashboard_errors, flatten, id_taken, items_errors, opt_error, panel_errors, panels_errors,
    queries_errors, ref_taken, reference_errors, shape_errors, thresholds_valid, validate, variables_errors,
};
use crate::query::Query;
use crate::text::is_blank;
use crate::validation::ErrorV;
use crate::grafana::variable::{normalize_variable, variable_v};
use crate::grafana::wire::{empty_dict, links_json, links_v, push_opt};
use crate::json::{raw_map, strs_v, ArrayBuilder, DictBuilder, Json, JsonV, ObjectBuilder};
use crate::panel::{GridPos, Panel};
use crate::validation::{errors_view, ValidationErrors};
use crate::variable::Variable;

verus! {

// ---------------------------------------------------------------------------
// Panel IDs
// ---------------------------------------------------------------------------

/// The explicit IDs of `panels`, as integers.
pub open spec fn explicit_ids(panels: Seq<Panel>) -> Set<int>
    decreases panels.len(),
{
    if panels.len() == 0 {
        Set::empty()
    } else {
        let rest = explicit_ids(panels.drop_last());
        match panels.last().id {
            Some(id) => rest.insert(id as int),
            None => rest,
        }
    }
}

/// The lowest ID from `from` on that `used` does not hold.
pub open spec fn least_free_id(used: Set<int>, from: int) -> int {
    choose|k: int| from <= k && !used.contains(k) && forall|j: int| from <= j < k ==> #[trigger] used.contains(j)
}

/// One ID request: an explicit ID is kept; otherwise the lowest free ID
/// from `next` on is taken. Returns the used IDs, the next candidate, and
/// the ID.
pub open spec fn allocate(used: Set<int>, next: int, explicit: Option<u32>) -> (Set<int>, int, u32) {
    match explicit {
        Some(e) => (used, next, e),
        None => {
            let k = least_free_id(used, next);
            (used.insert(k), k + 1, k as u32)
        },
    }
}

/// A run of ID requests, answered in order.
pub open spec fn allocate_all(requests: Seq<Option<u32>>, used: Set<int>, next: int) -> (
    Set<int>,
    int,
    Seq<u32>,
)
    decreases requests.len(),
{
    if requests.len() == 0 {
        (used, next, Seq::empty())
    } else {
        let (u, n, ids) = allocate_all(requests.drop_last(), used, next);
        let (u2, n2, id) = allocate(u, n, requests.last());
        (u2, n2, ids.push(id))
    }
}

proof fn lemma_id_set_push(ids: Seq<u32>, id: u32)
    ensures
        id_set(ids.push(id)) == id_set(ids).insert(id as int),
{
    assert(id_ints(ids.push(id)) =~= id_ints(ids).push(id as int));
    id_ints(ids).lemma_push_to_set_commute(id as int);
}

proof fn lemma_least_free_id_unique(used: Set<int>, from: int, k: int)
    requires
        from <= k,
        !used.contains(k),
        forall|j: int| from <= j < k ==> #[trigger] used.contains(j),
    ensures
        least_free_id(used, from) == k,
{
    let c = least_free_id(used, from);
    assert(from <= c && !used.contains(c) && forall|j: int| from <= j < c ==> #[trigger] used.contains(j));
    if c < k {
        assert(used.contains(c));
    } else if c > k {
        assert(used.contains(k));
    }
}

proof fn lemma_least_free_below(used: Set<int>, from: int, free: int) -> (k: int)
    requires
        from <= free,
        !used.contains(free),
    ensures
        from <= k,
        !used.contains(k),
        forall|j: int| from <= j < k ==> #[trigger] used.contains(j),
    decreases free - from,
{
    if used.contains(from) {
        let k = lemma_least_free_below(used, from + 1, free);
        assert forall|j: int| from <= j < k implies #[trigger] used.contains(j) by {
            if j > from {
                assert(used.contains(j));
            }
        }
        k
    } else {
        from
    }
}

/// A finite set of IDs leaves a lowest free ID from every start on.
pub proof fn lemma_least_free_id(used: Set<int>, from: int)
    requires
        used.finite(),
    ensures
        from <= least_free_id(used, from),
        !used.contains(least_free_id(used, from)),
        forall|j: int| from <= j < least_free_id(used, from) ==> #[trigger] used.contains(j),
{
    let n = used.len();
    let candidates = Seq::new(n + 1, |i: int| from + i);
    if forall|i: int| 0 <= i < n + 1 ==> used.contains(#[trigger] candidates[i]) {
        assert(candidates.no_duplicates());
        candidates.unique_seq_to_set();
        assert(candidates.to_set().subset_of(used));
        vstd::set_lib::lemma_len_subset(candidates.to_set(), used);
        assert(false);
    }
    let i = choose|i: int| 0 <= i < n + 1 && !used.contains(#[trigger] candidates[i]);
    let k = lemma_least_free_below(used, from, from + i);
    lemma_least_free_id_unique(used, from, k);
}

/// No two explicit IDs among `panels` are equal.
pub open spec fn explicit_ids_distinct(panels: Seq<Panel>) -> bool {
    forall|i: int, j: int|
        0 <= i < j < panels.len() && (#[trigger] panels[i]).id is Some && (#[trigger] panels[j]).id
            is Some ==> panels[i].id != panels[j].id
}

// ---------------------------------------------------------------------------
// Layout of the items
// ---------------------------------------------------------------------------

/// Places and lowers consecutive panels: each is placed by `flow` and gets
/// an ID. Returns the flow, the used IDs, the next candidate, the lowered
/// panels and their IDs.
pub open spec fn place_panels(
    panels: Seq<Panel>,
    flow: FlowLayout,
    used: Set<int>,
    next: int,
    ds: Option<DataSource>,
) -> (FlowLayout, Set<int>, int, Seq<JsonV>, Seq<u32>)
    decreases panels.len(),
{
    if panels.len() == 0 {
        (flow, used, next, Seq::empty(), Seq::empty())
    } else {
        let (f, u, n, out, ids) = place_panels(panels.drop_last(), flow, used, next, ds);
        let p = panels.last();
        let (f2, grid) = f.placed(p.grid_pos, p.width, p.height);
        let (u2, n2, id) = allocate(u, n, p.id);
        (f2, u2, n2, out.push(panel_v(p, id, grid, ds)), ids.push(id))
    }
}

/// The layout state between items: the top-level flow, the current row
/// position, the used IDs and the next candidate ID.
pub open spec fn layout_items(
    items: Seq<DashboardItem>,
    ds: Option<DataSource>,
    reserved: Set<int>,
) -> ((FlowLayout, u16, Set<int>, int), Seq<JsonV>, Seq<u32>)
    decreases items.len(),
{
    if items.len() == 0 {
        ((FlowLayout::start(0), 0, reserved, 1), Seq::empty(), Seq::empty())
    } else {
        let ((top, y, used, next), out, ids) = layout_items(items.drop_last(), ds, reserved);
        match items.last() {
            DashboardItem::Panel(p) => {
                let (top2, grid) = top.placed(p.grid_pos, p.width, p.height);
                let (u2, n2, id) = allocate(used, next, p.id);
                ((top2, top2.spec_bottom(), u2, n2), out.push(panel_v(*p, id, grid, ds)), ids.push(id))
            },
            DashboardItem::Row(r) => {
                let row_y = max16(top.spec_bottom(), y);
                let (u1, n1, row_id) = allocate(used, next, None);
                let (rf, u2, n2, panels, row_ids) = place_panels(
                    r.panels@,
                    FlowLayout::start(sat(row_y + 1)),
                    u1,
                    n1,
                    ds,
                );
                let out2 = if r.collapsed {
                    out.push(row_v(r, row_id, row_y, panels))
                } else {
                    out.push(row_v(r, row_id, row_y, Seq::empty())) + panels
                };
                let y2 = if r.collapsed {
                    sat(row_y + 1)
                } else {
                    max16(rf.spec_bottom(), sat(row_y + 1))
                };
                ((FlowLayout::start(y2), y2, u2, n2), out2, ids.push(row_id) + row_ids)
            },
        }
    }
}

/// The lowered panels of a dashboard, in Grafana's `panels` order.
pub open spec fn dashboard_panels_v(d: Dashboard) -> Seq<JsonV> {
    layout_items(d.items@, d.datasource, explicit_ids(flatten(d.items@))).1
}

/// The lowered variables.
pub open spec fn variables_v(vs: Seq<Variable>, ds: Option<DataSource>) -> Seq<JsonV>
    decreases vs.len(),
{
    if vs.len() == 0 {
        Seq::empty()
    } else {
        variables_v(vs.drop_last(), ds).push(variable_v(vs.last(), ds))
    }
}

/// A whole dashboard as Grafana Classic JSON.
pub open spec fn dashboard_v(d: Dashboard) -> JsonV {
    let e = Seq::empty().push(("id"@, JsonV::Null));
    let e = push_opt(e, "uid"@, match d.uid {
        Some(u) => Some(JsonV::Str(u@)),
        None => None,
    });
    let e = e.push(("title"@, JsonV::Str(d.title@)));
    let e = push_opt(e, "description"@, match d.description {
        Some(s) => Some(JsonV::Str(s@)),
        None => None,
    });
    let e = e.push(("tags"@, JsonV::Array(strs_v(d.tags@)))).push(
        ("timezone"@, JsonV::Str(d.timezone@)),
    ).push(("editable"@, JsonV::Bool(d.editable))).push(
        ("graphTooltip"@, JsonV::UInt(cursor_sync_code(d.cursor_sync) as u64)),
    ).push(("panels"@, JsonV::Array(dashboard_panels_v(d)))).push(
        (
            "time"@,
            JsonV::Object(
                Seq::empty().push(("from"@, JsonV::Str(d.time.from@))).push(
                    ("to"@, JsonV::Str(d.time.to@)),
                ),
                Map::empty(),
            ),
        ),
    ).push(("timepicker"@, JsonV::Dict(Map::empty()))).push(
        (
            "templating"@,
            JsonV::Object(
                seq![("list"@, JsonV::Array(variables_v(d.variables@, d.datasource)))],
                Map::empty(),
            ),
        ),
    ).push(
        (
            "annotations"@,
            JsonV::Object(seq![("list"@, JsonV::Array(Seq::empty()))], Map::empty()),
        ),
    );
    let e = push_opt(e, "refresh"@, match d.refresh {
        Some(s) => Some(JsonV::Str(s@)),
        None => None,
    });
    let e = e.push(("schemaVersion"@, JsonV::UInt(d.schema_version as u64))).push(
        ("version"@, JsonV::UInt(d.version as u64)),
    ).push(("links"@, JsonV::Array(links_v(d.links@))));
    JsonV::Object(e, raw_map(d.extra@))
}

/// The number of panel IDs a dashboard can ask for, counting each row
/// header once.
pub open spec fn id_demand(d: Dashboard) -> nat {
    flatten(d.items@).len() + d.items@.len()
}

/// IDs fit in `u32` with room to spare.
pub open spec fn fits_id_space(d: Dashboard) -> bool {
    id_demand(d) < 0x7FFF_FFFF
}

proof fn lemma_flatten_prefix(items: Seq<DashboardItem>, i: int, j: int)
    requires
        0 <= i <= j <= items.len(),
    ensures
        flatten(items.take(i)).len() <= flatten(items.take(j)).len(),
    decreases j - i,
{
    if i < j {
        assert(items.take(j).drop_last() =~= items.take(j - 1));
        lemma_flatten_prefix(items, i, j - 1);
    }
}

proof fn lemma_explicit_ids_finite(panels: Seq<Panel>)
    ensures
        explicit_ids(panels).finite(),
    decreases panels.len(),
{
    if panels.len() > 0 {
        lemma_explicit_ids_finite(panels.drop_last());
    }
}

/// Collects the explicit panel IDs of a dashboard, row panels included.
pub fn explicit_panel_ids(d: &Dashboard) -> (ids: Vec<u32>)
    ensures
        id_set(ids@) == explicit_ids(flatten(d.items@)),
        ids@.len() <= flatten(d.items@).len(),
{
    let mut ids: Vec<u32> = Vec::new();
    let mut i: usize = 0;
    while i < d.items.len()
        invariant
            i <= d.items@.len(),
            id_set(ids@) == explicit_ids(flatten(d.items@.take(i as int))),
            ids@.len() <= flatten(d.items@.take(i as int)).len(),
        decreases d.items@.len() - i,
    {
        let ghost before = flatten(d.items@.take(i as int));
        proof {
            assert(d.items@.take(i + 1).drop_last() =~= d.items@.take(i as int));
        }
        match &d.items[i] {
            DashboardItem::Panel(p) => {
                if let Some(id) = p.id {
                    proof {
                        lemma_id_set_push(ids@, id);
                    }
                    ids.push(id);
                }
                proof {
                    assert(before.push(**p).drop_last() =~= before);
                    assert(flatten(d.items@.take(i + 1)) =~= before.push(**p));
                }
            },
            DashboardItem::Row(row) => {
                let mut k: usize = 0;
                while k < row.panels.len()
                    invariant
                        k <= row.panels@.len(),
                        id_set(ids@) == explicit_ids(before + row.panels@.take(k as int)),
                        ids@.len() <= before.len() + k,
                    decreases row.panels@.len() - k,
                {
                    proof {
                        assert((before + row.panels@.take(k + 1)).drop_last() =~= before
                            + row.panels@.take(k as int));
                        assert((before + row.panels@.take(k + 1)).last() == row.panels@[k as int]);
                    }
                    if let Some(id) = row.panels[k].id {
                        proof {
                            lemma_id_set_push(ids@, id);
                        }
                        ids.push(id);
                    }
                    k += 1;
                }
                proof {
                    assert(row.panels@.take(row.panels@.len() as int) =~= row.panels@);
                    assert(flatten(d.items@.take(i + 1)) =~= before + row.panels@);
                }
            },
        }
        i += 1;
    }
    proof {
        assert(d.items@.take(d.items@.len() as int) =~= d.items@);
    }
    ids
}

/// Lays out the panels of a row starting at `flow`, giving each an ID.
fn place_row_panels(
    panels: &Vec<Panel>,
    flow: &mut FlowLayout,
    allocator: &mut IdAllocator,
    ds: &Option<DataSource>,
    out: &mut Vec<Json>,
)
    requires
        old(allocator).well_formed(),
        old(allocator).used@.len() + panels@.len() + 2 < 0xFFFF_FFFFusize,
    ensures
        final(allocator).well_formed(),
        final(allocator).used@.len() <= old(allocator).used@.len() + panels@.len(),
        ({
            let (f, u, n, lowered, _) = place_panels(
                panels@,
                *old(flow),
                id_set(old(allocator).used@),
                old(allocator).next as int,
                *ds,
            );
            &&& *final(flow) == f
            &&& id_set(final(allocator).used@) == u
            &&& final(allocator).next as int == n
            &&& Json::view_items(final(out)@) == Json::view_items(old(out)@) + lowered
        }),
{
    let ghost flow0 = *flow;
    let ghost used0 = id_set(allocator.used@);
    let ghost next0 = allocator.next as int;
    let ghost out0 = Json::view_items(out@);
    let mut k: usize = 0;
    proof {
        assert(out0 + Seq::<JsonV>::empty() =~= out0);
    }
    while k < panels.len()
        invariant
            k <= panels@.len(),
            allocator.well_formed(),
            allocator.used@.len() <= old(allocator).used@.len() + k,
            old(allocator).used@.len() + panels@.len() + 2 < 0xFFFF_FFFFusize,
            ({
                let (f, u, n, lowered, _) = place_panels(
                    panels@.take(k as int),
                    flow0,
                    used0,
                    next0,
                    *ds,
                );
                &&& *flow == f
                &&& id_set(allocator.used@) == u
                &&& allocator.next as int == n
                &&& Json::view_items(out@) == out0 + lowered
            }),
        decreases panels@.len() - k,
    {
        let p = &panels[k];
        let ghost u = id_set(allocator.used@);
        let ghost n = allocator.next as int;
        let ghost used_before = allocator.used@;
        let ghost out_before = out@;
        let grid = flow.place(p);
        let id = allocator.panel_id(p.id);
        proof {
            if p.id is None {
                lemma_least_free_id_unique(u, n, id as int);
                lemma_id_set_push(used_before, id);
            }
            assert(panels@.take(k + 1).drop_last() =~= panels@.take(k as int));
            assert(panels@.take(k + 1).last() == panels@[k as int]);
        }
        out.push(normalize_panel(p, id, grid, ds));
        proof {
            assert(out@.drop_last() =~= out_before);
            let (f, u1, n1, lowered, _) = place_panels(panels@.take(k as int), flow0, used0, next0, *ds);
            assert(Json::view_items(out@) =~= out0 + lowered.push(
                panel_v(panels@[k as int], id, grid, *ds),
            ));
        }
        k += 1;
    }
    proof {
        assert(panels@.take(panels@.len() as int) =~= panels@);
    }
}

/// Validates, reserves explicit IDs, lays the panels out and lowers the
/// whole dashboard.
#[verifier::rlimit(40)]
#[verifier::spinoff_prover]
pub fn normalize(d: &Dashboard) -> (r: Result<Json, ValidationErrors>)
    requires
        fits_id_space(*d),
    ensures
        match r {
            Ok(j) => dashboard_errors(*d).len() == 0 && j@ == dashboard_v(*d),
            Err(e) => errors_view(e.0@) == dashboard_errors(*d) && e.0@.len() > 0,
        },
{
    match validate(d) {
        Err(e) => {
            return Err(e);
        },
        Ok(()) => {},
    }
    let reserved = explicit_panel_ids(d);
    let ghost reserved_set = id_set(reserved@);
    let mut allocator = IdAllocator::new(reserved);
    let mut panels: Vec<Json> = Vec::new();
    let mut current_y: u16 = 0;
    let mut top = FlowLayout::new(0);
    let mut i: usize = 0;
    proof {
        assert(d.items@.take(0) =~= Seq::<DashboardItem>::empty());
    }
    while i < d.items.len()
        invariant
            i <= d.items@.len(),
            fits_id_space(*d),
            reserved_set == explicit_ids(flatten(d.items@)),
            allocator.well_formed(),
            allocator.used@.len() <= flatten(d.items@).len() + flatten(d.items@.take(i as int)).len()
                + i,
            ({
                let ((t, y, u, n), lowered, _) = layout_items(
                    d.items@.take(i as int),
                    d.datasource,
                    reserved_set,
                );
                &&& top == t
                &&& current_y == y
                &&& id_set(allocator.used@) == u
                &&& allocator.next as int == n
                &&& Json::view_items(panels@) == lowered
            }),
        decreases d.items@.len() - i,
    {
        proof {
            assert(d.items@.take(i + 1).drop_last() =~= d.items@.take(i as int));
            assert(d.items@.take(i + 1).last() == d.items@[i as int]);
            lemma_flatten_prefix(d.items@, i as int, i + 1);
            lemma_flatten_prefix(d.items@, i + 1, d.items@.len() as int);
            assert(d.items@.take(d.items@.len() as int) =~= d.items@);
        }
        let ghost u = id_set(allocator.used@);
        let ghost n = allocator.next as int;
        let ghost used_before = allocator.used@;
        let ghost out_before = panels@;
        match &d.items[i] {
            DashboardItem::Panel(p) => {
                let grid = top.place(p);
                let id = allocator.panel_id(p.id);
                proof {
                    if p.id is None {
                        lemma_least_free_id_unique(u, n, id as int);
                        lemma_id_set_push(used_before, id);
                    }
                }
                panels.push(normalize_panel(p, id, grid, &d.datasource));
                current_y = top.bottom();
                proof {
                    assert(panels@.drop_last() =~= out_before);
                    assert(flatten(d.items@.take(i + 1)).len() == flatten(d.items@.take(i as int)).len()
                        + 1);
                }
            },
            DashboardItem::Row(row) => {
                current_y = max_u16(top.bottom(), current_y);
                let row_y = current_y;
                let row_id = allocator.panel_id(None);
                proof {
                    lemma_least_free_id_unique(u, n, row_id as int);
                    lemma_id_set_push(used_before, row_id);
                    assert(flatten(d.items@.take(i + 1)) =~= flatten(d.items@.take(i as int))
                        + row.panels@);
                }
                let mut row_flow = FlowLayout::new(sat_add(row_y, 1));
                let mut row_panels: Vec<Json> = Vec::new();
                place_row_panels(&row.panels, &mut row_flow, &mut allocator, &d.datasource, &mut row_panels);
                let row_bottom = row_flow.bottom();
                proof {
                    lemma_view_items_len(row_panels@);
                }
                if row.collapsed {
                    panels.push(normalize_row(row, row_id, row_y, row_panels));
                    proof {
                        assert(panels@.drop_last() =~= out_before);
                    }
                } else {
                    panels.push(normalize_row(row, row_id, row_y, Vec::new()));
                    let ghost header = panels@;
                    proof {
                        assert(panels@.drop_last() =~= out_before);
                    }
                    let mut rest = row_panels;
                    let ghost all = rest@;
                    let ghost mut k: int = 0;
                    while rest.len() > 0
                        invariant
                            0 <= k <= all.len(),
                            k + rest@.len() == all.len(),
                            rest@ =~= all.skip(k),
                            Json::view_items(panels@) == Json::view_items(header) + Json::view_items(
                                all.take(k),
                            ),
                        decreases rest.len(),
                    {
                        let ghost before = panels@;
                        let item = rest.remove(0);
                        proof {
                            assert(item == all[k]);
                        }
                        panels.push(item);
                        proof {
                            assert(panels@.drop_last() =~= before);
                            assert(all.take(k + 1).drop_last() =~= all.take(k));
                            assert(Json::view_items(all.take(k + 1)) =~= Json::view_items(all.take(k)).push(
                                all[k]@,
                            ));
                            k = k + 1;
                            assert(rest@ =~= all.skip(k));
                        }
                    }
                    proof {
                        assert(all.take(all.len() as int) =~= all);
                    }
                }
                current_y = if row.collapsed {
                    sat_add(row_y, 1)
                } else {
                    max_u16(row_bottom, sat_add(row_y, 1))
                };
                top = FlowLayout::new(current_y);
            },
        }
        i += 1;
    }
    proof {
        assert(d.items@.take(d.items@.len() as int) =~= d.items@);
    }
    let mut b = ObjectBuilder::new();
    b.insert("id", Json::Null);
    if let Some(uid) = &d.uid {
        b.insert("uid", Json::string(uid));
    }
    b.insert("title", Json::string(&d.title));
    if let Some(description) = &d.description {
        b.insert("description", Json::string(description));
    }
    b.insert("tags", Json::strings(&d.tags));
    b.insert("timezone", Json::string(&d.timezone));
    b.insert("editable", Json::Bool(d.editable));
    b.insert("graphTooltip", Json::UInt(d.cursor_sync.as_grafana() as u64));
    b.insert("panels", Json::Array(panels));
    let mut time = ObjectBuilder::new();
    time.insert("from", Json::string(&d.time.from));
    time.insert("to", Json::string(&d.time.to));
    b.insert("time", time.finish());
    b.insert("timepicker", empty_dict());
    let mut variables = ArrayBuilder::new();
    let mut i: usize = 0;
    while i < d.variables.len()
        invariant
            i <= d.variables@.len(),
            variables.items_v() == variables_v(d.variables@.take(i as int), d.datasource),
        decreases d.variables@.len() - i,
    {
        variables.push(normalize_variable(&d.variables[i], &d.datasource));
        proof {
            assert(d.variables@.take(i + 1).drop_last() =~= d.variables@.take(i as int));
        }
        i += 1;
    }
    proof {
        assert(d.variables@.take(d.variables@.len() as int) =~= d.variables@);
    }
    let mut templating = ObjectBuilder::new();
    templating.insert("list", variables.finish());
    b.insert("templating", templating.finish());
    let mut annotations = ObjectBuilder::new();
    annotations.insert("list", ArrayBuilder::new().finish());
    b.insert("annotations", annotations.finish());
    if let Some(refresh) = &d.refresh {
        b.insert("refresh", Json::string(refresh));
    }
    b.insert("schemaVersion", Json::UInt(d.schema_version as u64));
    b.insert("version", Json::UInt(d.version as u64));
    b.insert("links", Json::Array(links_json(&d.links)));
    let mut extra = DictBuilder::new();
    extra.extend_raw(&d.extra);
    proof {
        assert(Map::<Seq<char>, JsonV>::empty().union_prefer_right(raw_map(d.extra@)) =~= raw_map(
            d.extra@,
        ));
    }
    Ok(b.finish_flattened(extra))
}

// ---------------------------------------------------------------------------
// Laws
// ---------------------------------------------------------------------------

/// No panel reuses an explicit ID of a panel before it.
pub open spec fn fresh_explicit_ids(panels: Seq<Panel>) -> bool {
    forall|m: int|
        0 <= m < panels.len() && (#[trigger] panels[m]).id is Some ==> !id_taken(
            panels.take(m),
            panels[m].id->0,
        )
}

proof fn lemma_concat_empty<A>(a: Seq<A>, b: Seq<A>)
    requires
        (a + b).len() == 0,
    ensures
        a.len() == 0,
        b.len() == 0,
{
}

proof fn lemma_panels_fresh(ps: Seq<Panel>, earlier: Seq<Panel>)
    requires
        panels_errors(ps, earlier).len() == 0,
    ensures
        forall|m: int|
            0 <= m < ps.len() && (#[trigger] ps[m]).id is Some ==> !id_taken(
                earlier + ps.take(m),
                ps[m].id->0,
            ),
    decreases ps.len(),
{
    if ps.len() > 0 {
        let prefix = ps.drop_last();
        lemma_concat_empty(panels_errors(prefix, earlier), panel_errors(ps.last(), earlier + prefix));
        lemma_panels_fresh(prefix, earlier);
        let p = ps.last();
        let pe = panel_errors(p, earlier + prefix);
        assert forall|m: int|
            0 <= m < ps.len() && (#[trigger] ps[m]).id is Some implies !id_taken(
                earlier + ps.take(m),
                ps[m].id->0,
            ) by {
            if m < prefix.len() {
                assert(prefix[m] == ps[m]);
                assert(prefix.take(m) =~= ps.take(m));
            } else {
                assert(ps.take(m) =~= prefix);
                assert(ps[m] == p);
                let id = p.id->0;
                let tail = match p.id {
                    Some(id) => opt_error(
                        id_taken(earlier + prefix, id),
                        ErrorV::DuplicatePanelId { id, panel: p.title@ },
                    ),
                    None => Seq::empty(),
                };
                assert(pe == shape_errors(p) + tail + queries_errors(p.title@, p.queries@) + match p.field_config.thresholds {
                    Some(t) => opt_error(!thresholds_valid(t.steps@), ErrorV::InvalidThresholds { panel: p.title@ }),
                    None => Seq::empty(),
                } + reference_errors(p));
                assert(tail.len() == 0);
            }
        }
    }
}

/// A dashboard that passes validation reuses no explicit panel ID: every
/// explicit ID differs from those of all panels before it.
pub proof fn lemma_valid_ids_fresh(d: Dashboard)
    requires
        dashboard_errors(d).len() == 0,
    ensures
        fresh_explicit_ids(flatten(d.items@)),
{
    lemma_concat_empty(
        opt_error(is_blank(d.title@), ErrorV::MissingDashboardTitle) + variables_errors(d.variables@),
        items_errors(d.items@),
    );
    lemma_items_fresh(d.items@);
}

proof fn lemma_items_fresh(items: Seq<DashboardItem>)
    requires
        items_errors(items).len() == 0,
    ensures
        fresh_explicit_ids(flatten(items)),
    decreases items.len(),
{
    if items.len() > 0 {
        let prefix = items.drop_last();
        let earlier = flatten(prefix);
        let last_errors = match items.last() {
            DashboardItem::Panel(p) => panel_errors(*p, earlier),
            DashboardItem::Row(r) => opt_error(is_blank(r.title@), ErrorV::MissingRowTitle)
                + panels_errors(r.panels@, earlier),
        };
        lemma_concat_empty(items_errors(prefix), last_errors);
        lemma_items_fresh(prefix);
        let last_panels = match items.last() {
            DashboardItem::Panel(p) => seq![*p],
            DashboardItem::Row(r) => r.panels@,
        };
        match items.last() {
            DashboardItem::Panel(p) => {
                let single = seq![*p];
                assert(single.drop_last() =~= Seq::<Panel>::empty());
                assert(single.last() == *p);
                assert(earlier + Seq::<Panel>::empty() =~= earlier);
                assert(panels_errors(Seq::<Panel>::empty(), earlier) == Seq::<ErrorV>::empty());
                assert(panels_errors(single, earlier) == panels_errors(single.drop_last(), earlier)
                    + panel_errors(single.last(), earlier + single.drop_last()));
                assert(Seq::<ErrorV>::empty() + last_errors =~= last_errors);
                lemma_panels_fresh(seq![*p], earlier);
            },
            DashboardItem::Row(r) => {
                lemma_concat_empty(
                    opt_error(is_blank(r.title@), ErrorV::MissingRowTitle),
                    panels_errors(r.panels@, earlier),
                );
                lemma_panels_fresh(r.panels@, earlier);
            },
        }
        let all = flatten(items);
        assert(all == earlier + last_panels);
        assert forall|m: int|
            0 <= m < all.len() && (#[trigger] all[m]).id is Some implies !id_taken(
                all.take(m),
                all[m].id->0,
            ) by {
            if m < earlier.len() {
                assert(earlier[m] == all[m]);
                assert(earlier.take(m) =~= all.take(m));
            } else {
                let k = m - earlier.len();
                assert(last_panels[k] == all[m]);
                assert(earlier + last_panels.take(k) =~= all.take(m));
            }
        }
    }
}

/// Explicit IDs that no panel reuses are pairwise distinct.
proof fn lemma_fresh_distinct(panels: Seq<Panel>)
    requires
        fresh_explicit_ids(panels),
    ensures
        explicit_ids_distinct(panels),
{
    assert forall|i: int, j: int|
        0 <= i < j < panels.len() && (#[trigger] panels[i]).id is Some && (#[trigger] panels[j]).id
            is Some implies panels[i].id != panels[j].id by {
        if panels[i].id == panels[j].id {
            assert(panels.take(j)[i] == panels[i]);
            assert(id_taken(panels.take(j), panels[j].id->0));
        }
    }
}

/// At most `|s|` consecutive integers can all lie in a finite set `s`.
proof fn lemma_ints_in_set_bounded(s: Set<int>, a: int, b: int)
    requires
        s.finite(),
        a <= b,
        forall|k: int| a <= k < b ==> #[trigger] s.contains(k),
    ensures
        b - a <= s.len(),
{
    let run = Seq::new((b - a) as nat, |i: int| a + i);
    assert(run.no_duplicates());
    run.unique_seq_to_set();
    assert(run.to_set().subset_of(s)) by {
        assert forall|v: int| run.to_set().contains(v) implies s.contains(v) by {
            let i = choose|i: int| 0 <= i < run.len() && run[i] == v;
            assert(s.contains(a + i));
        }
    }
    vstd::set_lib::lemma_len_subset(run.to_set(), s);
}

proof fn lemma_explicit_ids(panels: Seq<Panel>)
    ensures
        explicit_ids(panels).finite(),
        explicit_ids(panels).len() <= panels.len(),
        forall|m: int|
            0 <= m < panels.len() && (#[trigger] panels[m]).id is Some ==> explicit_ids(panels).contains(
                panels[m].id->0 as int,
            ),
    decreases panels.len(),
{
    if panels.len() > 0 {
        let prefix = panels.drop_last();
        lemma_explicit_ids(prefix);
        assert forall|m: int|
            0 <= m < panels.len() && (#[trigger] panels[m]).id is Some implies explicit_ids(
                panels,
            ).contains(panels[m].id->0 as int) by {
            if m < prefix.len() {
                assert(prefix[m] == panels[m]);
            }
        }
    }
}

/// What holds of the IDs handed out so far: every one is used, none
/// repeats, every reserved one belongs to an explicit ID of a panel already
/// laid out, and the used set stays small and covers every ID below `n`.
pub open spec fn ids_ok(u: Set<int>, n: int, ids: Seq<u32>, done: Seq<Panel>, reserved: Set<int>) -> bool {
    &&& u.finite()
    &&& reserved.subset_of(u)
    &&& 1 <= n
    &&& forall|i: int| 1 <= i < n ==> #[trigger] u.contains(i)
    &&& u.len() <= reserved.len() + ids.len()
    &&& forall|i: int| 0 <= i < ids.len() ==> u.contains(#[trigger] ids[i] as int)
    &&& forall|i: int, j: int| 0 <= i < j < ids.len() ==> #[trigger] ids[i] != #[trigger] ids[j]
    &&& forall|i: int|
        0 <= i < ids.len() && reserved.contains(#[trigger] ids[i] as int) ==> exists|j: int|
            0 <= j < done.len() && (#[trigger] done[j]).id == Some(ids[i])
}

proof fn lemma_step_generated(u: Set<int>, n: int, ids: Seq<u32>, done: Seq<Panel>, reserved: Set<int>)
    requires
        ids_ok(u, n, ids, done, reserved),
        reserved.len() + ids.len() + 2 < 0x1_0000_0000,
    ensures
        ({
            let (u2, n2, id) = allocate(u, n, None);
            &&& ids_ok(u2, n2, ids.push(id), done, reserved)
            &&& !reserved.contains(id as int)
        }),
{
    lemma_least_free_id(u, n);
    let k = least_free_id(u, n);
    assert forall|i: int| 1 <= i < k implies #[trigger] u.contains(i) by {
        if i >= n {
            assert(u.contains(i));
        }
    }
    lemma_ints_in_set_bounded(u, 1, k);
    assert(k as u32 as int == k);
    let u2 = u.insert(k);
    let ids2 = ids.push(k as u32);
    assert forall|i: int| 1 <= i < k + 1 implies #[trigger] u2.contains(i) by {
        if i < k {
            assert(u.contains(i));
        }
    }
    assert forall|i: int| 0 <= i < ids2.len() implies u2.contains(#[trigger] ids2[i] as int) by {
        if i < ids.len() {
            assert(ids2[i] == ids[i]);
            assert(u.contains(ids[i] as int));
        }
    }
    assert forall|i: int, j: int| 0 <= i < j < ids2.len() implies #[trigger] ids2[i]
        != #[trigger] ids2[j] by {
        assert(ids2[i] == ids[i]);
        if j < ids.len() {
            assert(ids2[j] == ids[j]);
        } else {
            assert(u.contains(ids[i] as int));
        }
    }
    assert forall|i: int|
        0 <= i < ids2.len() && reserved.contains(#[trigger] ids2[i] as int) implies exists|j: int|
            0 <= j < done.len() && (#[trigger] done[j]).id == Some(ids2[i]) by {
        if i < ids.len() {
            assert(ids2[i] == ids[i]);
        }
    }
}

proof fn lemma_step_panel(
    u: Set<int>,
    n: int,
    ids: Seq<u32>,
    done: Seq<Panel>,
    reserved: Set<int>,
    all: Seq<Panel>,
)
    requires
        ids_ok(u, n, ids, done, reserved),
        reserved == explicit_ids(all),
        explicit_ids_distinct(all),
        done.len() < all.len(),
        done == all.take(done.len() as int),
        reserved.len() + ids.len() + 2 < 0x1_0000_0000,
    ensures
        ({
            let p = all[done.len() as int];
            let (u2, n2, id) = allocate(u, n, p.id);
            ids_ok(u2, n2, ids.push(id), done.push(p), reserved)
        }),
{
    let m = done.len() as int;
    let p = all[m];
    let done2 = done.push(p);
    match p.id {
        None => {
            lemma_step_generated(u, n, ids, done, reserved);
            let (u2, n2, id) = allocate(u, n, None);
            let ids2 = ids.push(id);
            assert forall|i: int|
                0 <= i < ids2.len() && reserved.contains(#[trigger] ids2[i] as int) implies exists|j: int|
                    0 <= j < done2.len() && (#[trigger] done2[j]).id == Some(ids2[i]) by {
                assert(i < ids.len());
                assert(ids2[i] == ids[i]);
                let j = choose|j: int| 0 <= j < done.len() && (#[trigger] done[j]).id == Some(ids[i]);
                assert(done2[j] == done[j]);
            }
        },
        Some(e) => {
            lemma_explicit_ids(all);
            assert(reserved.contains(e as int));
            let ids2 = ids.push(e);
            assert forall|i: int| 0 <= i < ids2.len() implies u.contains(#[trigger] ids2[i] as int) by {
                if i < ids.len() {
                    assert(ids2[i] == ids[i]);
                }
            }
            assert forall|i: int, j: int| 0 <= i < j < ids2.len() implies #[trigger] ids2[i]
                != #[trigger] ids2[j] by {
                assert(ids2[i] == ids[i]);
                if j < ids.len() {
                    assert(ids2[j] == ids[j]);
                } else if ids[i] == e {
                    let w = choose|w: int| 0 <= w < done.len() && (#[trigger] done[w]).id == Some(ids[i]);
                    assert(done[w] == all[w]);
                    assert(all[w].id == all[m].id);
                }
            }
            assert forall|i: int|
                0 <= i < ids2.len() && reserved.contains(#[trigger] ids2[i] as int) implies exists|j: int|
                    0 <= j < done2.len() && (#[trigger] done2[j]).id == Some(ids2[i]) by {
                if i < ids.len() {
                    assert(ids2[i] == ids[i]);
                    let j = choose|j: int| 0 <= j < done.len() && (#[trigger] done[j]).id == Some(ids[i]);
                    assert(done2[j] == done[j]);
                } else {
                    assert(done2[m] == p);
                }
            }
        },
    }
}

proof fn lemma_place_panels_ids(
    ps: Seq<Panel>,
    flow: FlowLayout,
    u: Set<int>,
    n: int,
    ds: Option<DataSource>,
    ids: Seq<u32>,
    done: Seq<Panel>,
    reserved: Set<int>,
    all: Seq<Panel>,
)
    requires
        ids_ok(u, n, ids, done, reserved),
        reserved == explicit_ids(all),
        explicit_ids_distinct(all),
        done.len() + ps.len() <= all.len(),
        done + ps == all.take((done.len() + ps.len()) as int),
        reserved.len() + ids.len() + ps.len() + 2 < 0x1_0000_0000,
    ensures
        ({
            let (_, u2, n2, _, new_ids) = place_panels(ps, flow, u, n, ds);
            &&& new_ids.len() == ps.len()
            &&& ids_ok(u2, n2, ids + new_ids, done + ps, reserved)
        }),
    decreases ps.len(),
{
    if ps.len() == 0 {
        assert(ids + Seq::<u32>::empty() =~= ids);
        assert(done + ps =~= done);
    } else {
        let prefix = ps.drop_last();
        assert((done + ps).take((done.len() + prefix.len()) as int) =~= done + prefix);
        assert(all.take((done.len() + ps.len()) as int).take((done.len() + prefix.len()) as int)
            =~= all.take((done.len() + prefix.len()) as int));
        lemma_place_panels_ids(prefix, flow, u, n, ds, ids, done, reserved, all);
        let (f1, u1, n1, out1, ids1) = place_panels(prefix, flow, u, n, ds);
        let done1 = done + prefix;
        assert(all[done1.len() as int] == ps.last()) by {
            assert((done + ps)[done1.len() as int] == ps.last());
        }
        lemma_step_panel(u1, n1, ids + ids1, done1, reserved, all);
        let (u2, n2, id) = allocate(u1, n1, ps.last().id);
        assert((ids + ids1).push(id) =~= ids + ids1.push(id));
        assert(done1.push(ps.last()) =~= done + ps);
    }
}

#[verifier::rlimit(60)]
proof fn lemma_layout_ids(
    items: Seq<DashboardItem>,
    ds: Option<DataSource>,
    reserved: Set<int>,
    all: Seq<Panel>,
)
    requires
        reserved == explicit_ids(all),
        explicit_ids_distinct(all),
        flatten(items).len() <= all.len(),
        flatten(items) == all.take(flatten(items).len() as int),
        reserved.len() + flatten(items).len() + items.len() + 2 < 0x1_0000_0000,
    ensures
        ({
            let ((_, _, u, n), _, ids) = layout_items(items, ds, reserved);
            &&& ids.len() <= flatten(items).len() + items.len()
            &&& ids_ok(u, n, ids, flatten(items), reserved)
        }),
    decreases items.len(),
{
    lemma_explicit_ids(all);
    if items.len() == 0 {
        assert(flatten(items) =~= Seq::<Panel>::empty());
    } else {
        let prefix = items.drop_last();
        let fp = flatten(prefix);
        let last_panels = match items.last() {
            DashboardItem::Panel(p) => seq![*p],
            DashboardItem::Row(r) => r.panels@,
        };
        assert(flatten(items) == fp + last_panels);
        assert(flatten(items).take(fp.len() as int) =~= fp);
        assert(all.take(flatten(items).len() as int).take(fp.len() as int) =~= all.take(fp.len() as int));
        lemma_layout_ids(prefix, ds, reserved, all);
        let ((top, y, u, n), out, ids) = layout_items(prefix, ds, reserved);
        match items.last() {
            DashboardItem::Panel(p) => {
                assert(all[fp.len() as int] == *p) by {
                    assert(flatten(items)[fp.len() as int] == *p);
                }
                lemma_step_panel(u, n, ids, fp, reserved, all);
                assert(fp.push(*p) =~= flatten(items));
                let (u2, n2, id) = allocate(u, n, p.id);
                assert(layout_items(items, ds, reserved).2 == ids.push(id));
                assert(layout_items(items, ds, reserved).0.2 == u2);
                assert(ids_ok(u2, n2, ids.push(id), flatten(items), reserved));
                assert(layout_items(items, ds, reserved).0.3 == n2);
                assert(ids.push(id).len() <= flatten(items).len() + items.len());
            },
            DashboardItem::Row(r) => {
                lemma_step_generated(u, n, ids, fp, reserved);
                let (u1, n1, row_id) = allocate(u, n, None);
                let row_y = max16(top.spec_bottom(), y);
                lemma_place_panels_ids(
                    r.panels@,
                    FlowLayout::start(sat(row_y + 1)),
                    u1,
                    n1,
                    ds,
                    ids.push(row_id),
                    fp,
                    reserved,
                    all,
                );
                let (rf, u2, n2, panels, row_ids) = place_panels(
                    r.panels@,
                    FlowLayout::start(sat(row_y + 1)),
                    u1,
                    n1,
                    ds,
                );
                assert(layout_items(items, ds, reserved).2 == ids.push(row_id) + row_ids);
                assert(ids_ok(u2, n2, ids.push(row_id) + row_ids, fp + r.panels@, reserved));
                assert(flatten(items) == fp + r.panels@);
                assert(layout_items(items, ds, reserved).0.2 == u2);
                assert(layout_items(items, ds, reserved).0.3 == n2);
                assert((ids.push(row_id) + row_ids).len() <= flatten(items).len() + items.len());
            },
        }
    }
}

/// Panel IDs are assigned deterministically and never collide: in a
/// dashboard that passes validation, the IDs given to its panels and row
/// headers (explicit ones kept, the rest counting up from 1 past every ID
/// already taken) are pairwise distinct.
pub proof fn lemma_panel_ids_distinct(d: Dashboard)
    requires
        dashboard_errors(d).len() == 0,
        fits_id_space(d),
    ensures
        ({
            let ids = layout_items(d.items@, d.datasource, explicit_ids(flatten(d.items@))).2;
            forall|i: int, j: int| 0 <= i < j < ids.len() ==> ids[i] != ids[j]
        }),
{
    let all = flatten(d.items@);
    lemma_valid_ids_fresh(d);
    lemma_fresh_distinct(all);
    lemma_explicit_ids(all);
    assert(all.take(all.len() as int) =~= all);
    lemma_layout_ids(d.items@, d.datasource, explicit_ids(all), all);
}

/// A collapsed row keeps its panels inside the row object and only takes
/// the one-unit header: the row adds exactly one entry to the dashboard's
/// panels, holding its own lowered panels, and the next item starts one
/// unit below the header.
pub proof fn lemma_collapsed_row(
    prefix: Seq<DashboardItem>,
    row: Row,
    ds: Option<DataSource>,
    reserved: Set<int>,
)
    requires
        row.collapsed,
    ensures
        ({
            let ((top, y, used, next), out, _) = layout_items(prefix, ds, reserved);
            let row_y = max16(top.spec_bottom(), y);
            let (u1, n1, row_id) = allocate(used, next, None);
            let (_, _, _, panels, _) = place_panels(
                row.panels@,
                FlowLayout::start(sat(row_y + 1)),
                u1,
                n1,
                ds,
            );
            let ((top2, y2, _, _), out2, _) = layout_items(
                prefix.push(DashboardItem::Row(row)),
                ds,
                reserved,
            );
            &&& out2 == out.push(row_v(row, row_id, row_y, panels))
            &&& y2 == sat(row_y + 1)
            &&& top2 == FlowLayout::start(sat(row_y + 1))
        }),
{
    assert(prefix.push(DashboardItem::Row(row)).drop_last() =~= prefix);
}

/// An expanded row is a bare header followed by its panels at the dashboard
/// level, and the next item starts below the lowest of them (at least one
/// unit below the header).
pub proof fn lemma_expanded_row(
    prefix: Seq<DashboardItem>,
    row: Row,
    ds: Option<DataSource>,
    reserved: Set<int>,
)
    requires
        !row.collapsed,
    ensures
        ({
            let ((top, y, used, next), out, _) = layout_items(prefix, ds, reserved);
            let row_y = max16(top.spec_bottom(), y);
            let (u1, n1, row_id) = allocate(used, next, None);
            let (flow, _, _, panels, _) = place_panels(
                row.panels@,
                FlowLayout::start(sat(row_y + 1)),
                u1,
                n1,
                ds,
            );
            let ((_, y2, _, _), out2, _) = layout_items(
                prefix.push(DashboardItem::Row(row)),
                ds,
                reserved,
            );
            &&& out2 == out.push(row_v(row, row_id, row_y, Seq::empty())) + panels
            &&& y2 == max16(flow.spec_bottom(), sat(row_y + 1))
            &&& y2 >= sat(row_y + 1)
        }),
{
    assert(prefix.push(DashboardItem::Row(row)).drop_last() =~= prefix);
}

/// A panel whose queries pass validation sets no explicit reference ID
/// twice.
pub proof fn lemma_valid_refs_distinct(panel: Seq<char>, queries: Seq<Query>)
    requires
        queries_errors(panel, queries).len() == 0,
    ensures
        explicit_refs_distinct(queries),
    decreases queries.len(),
{
    if queries.len() > 0 {
        let earlier = queries.drop_last();
        let q = queries.last();
        let dup = match q.spec_options().ref_id {
            Some(r) => opt_error(
                ref_taken(earlier, r@),
                ErrorV::DuplicateQueryRefId { panel, ref_id: r@ },
            ),
            None => Seq::empty(),
        };
        let missing = opt_error(
            is_blank(q.spec_expression()@),
            ErrorV::MissingQueryExpression { panel },
        );
        assert(queries_errors(panel, queries) == queries_errors(panel, earlier) + missing + dup);
        lemma_concat_empty(queries_errors(panel, earlier) + missing, dup);
        lemma_concat_empty(queries_errors(panel, earlier), missing);
        lemma_valid_refs_distinct(panel, earlier);
        assert forall|i: int, j: int|
            0 <= i < j < queries.len() && (#[trigger] queries[i]).spec_options().ref_id is Some
                && (#[trigger] queries[j]).spec_options().ref_id is Some implies queries[i].spec_options().ref_id->0@
            != queries[j].spec_options().ref_id->0@ by {
            assert(earlier[i] == queries[i]);
            if j < earlier.len() {
                assert(earlier[j] == queries[j]);
            } else if queries[i].spec_options().ref_id->0@ == queries[j].spec_options().ref_id->0@ {
                assert(ref_taken(earlier, q.spec_options().ref_id->0@));
            }
        }
    }
}

/// Query reference IDs never collide: in a panel whose queries pass
/// validation, the IDs the targets carry (explicit ones kept, the rest
/// `A`, `B`, … skipping taken ones) are pairwise distinct.
pub proof fn lemma_target_refs_distinct(panel: Seq<char>, queries: Seq<Query>)
    requires
        queries_errors(panel, queries).len() == 0,
    ensures
        effective_refs(queries).no_duplicates(),
        forall|i: int|
            0 <= i < queries.len() && (#[trigger] queries[i]).spec_options().ref_id is Some
                ==> effective_refs(queries)[i] == queries[i].spec_options().ref_id->0@,
{
    lemma_valid_refs_distinct(panel, queries);
    lemma_effective_refs_distinct(queries);
}

/// Every item is a panel placed automatically.
pub open spec fn auto_panels(items: Seq<DashboardItem>) -> bool {
    forall|i: int|
        0 <= i < items.len() ==> match #[trigger] items[i] {
            DashboardItem::Panel(p) => p.grid_pos is None,
            DashboardItem::Row(_) => false,
        }
}

/// The width and height of each item's panel (rows count as empty).
pub open spec fn panel_sizes(items: Seq<DashboardItem>) -> Seq<(u16, u16)>
    decreases items.len(),
{
    if items.len() == 0 {
        Seq::empty()
    } else {
        panel_sizes(items.drop_last()).push(
            match items.last() {
                DashboardItem::Panel(p) => (p.width, p.height),
                DashboardItem::Row(_) => (0u16, 0u16),
            },
        )
    }
}

/// The panel of an item (a row stands for no panel).
pub open spec fn item_panel(item: DashboardItem) -> Panel {
    match item {
        DashboardItem::Panel(p) => *p,
        DashboardItem::Row(r) => arbitrary(),
    }
}

/// Automatically placed top-level panels follow the flow layout: each one
/// is lowered with its ID and with the position the flow gives it, in
/// order.
pub proof fn lemma_auto_layout(items: Seq<DashboardItem>, ds: Option<DataSource>, reserved: Set<int>)
    requires
        auto_panels(items),
    ensures
        ({
            let ((top, _, _, _), out, ids) = layout_items(items, ds, reserved);
            let (state, grids) = flow(FlowLayout::start(0), panel_sizes(items));
            &&& top == state
            &&& out.len() == items.len()
            &&& ids.len() == items.len()
            &&& grids.len() == items.len()
            &&& forall|i: int|
                0 <= i < items.len() ==> #[trigger] out[i] == panel_v(
                    item_panel(items[i]),
                    ids[i],
                    grids[i],
                    ds,
                )
        }),
    decreases items.len(),
{
    if items.len() > 0 {
        let prefix = items.drop_last();
        assert forall|i: int| 0 <= i < prefix.len() implies match #[trigger] prefix[i] {
            DashboardItem::Panel(p) => p.grid_pos is None,
            DashboardItem::Row(_) => false,
        } by {
            assert(prefix[i] == items[i]);
        }
        lemma_auto_layout(prefix, ds, reserved);
        assert(items[items.len() - 1] == items.last());
        assert(panel_sizes(items).drop_last() == panel_sizes(prefix));
        let ((top, _, _, _), out, ids) = layout_items(prefix, ds, reserved);
        let (state, grids) = flow(FlowLayout::start(0), panel_sizes(prefix));
        let ((top2, _, _, _), out2, ids2) = layout_items(items, ds, reserved);
        let (state2, grids2) = flow(FlowLayout::start(0), panel_sizes(items));
        assert forall|i: int| 0 <= i < items.len() implies #[trigger] out2[i] == panel_v(
            item_panel(items[i]),
            ids2[i],
            grids2[i],
            ds,
        ) by {
            if i < prefix.len() {
                assert(prefix[i] == items[i]);
                assert(out2[i] == out[i]);
                assert(ids2[i] == ids[i]);
                assert(grids2[i] == grids[i]);
            }
        }
    }
}

/// Automatically placed top-level panels of valid widths never overlap and
/// stay inside the 24 columns, as long as the rows they fill fit in the
/// grid's range: the position each lowered panel carries is one of these.
pub proof fn lemma_auto_layout_no_overlap(
    items: Seq<DashboardItem>,
    ds: Option<DataSource>,
    reserved: Set<int>,
)
    requires
        auto_panels(items),
        widths_valid(panel_sizes(items)),
        total_height(panel_sizes(items)) <= 0xFFFF,
    ensures
        ({
            let (_, out, ids) = layout_items(items, ds, reserved);
            let grids = flow(FlowLayout::start(0), panel_sizes(items)).1;
            &&& forall|i: int|
                0 <= i < items.len() ==> #[trigger] out[i] == panel_v(
                    item_panel(items[i]),
                    ids[i],
                    grids[i],
                    ds,
                )
            &&& forall|i: int| 0 <= i < items.len() ==> (#[trigger] grids[i]).x + grids[i].width <= 24
            &&& forall|i: int, j: int|
                0 <= i < j < items.len() ==> disjoint(#[trigger] grids[i], #[trigger] grids[j])
        }),
{
    lemma_auto_layout(items, ds, reserved);
    lemma_panel_sizes_len(items);
    lemma_flow_no_overlap(0, panel_sizes(items));
}

proof fn lemma_panel_sizes_len(items: Seq<DashboardItem>)
    ensures
        panel_sizes(items).len() == items.len(),
    decreases items.len(),
{
    if items.len() > 0 {
        lemma_panel_sizes_len(items.drop_last());
    }
}

/// The width and height of each panel.
pub open spec fn sizes_of(panels: Seq<Panel>) -> Seq<(u16, u16)>
    decreases panels.len(),
{
    if panels.len() == 0 {
        Seq::empty()
    } else {
        sizes_of(panels.drop_last()).push((panels.last().width, panels.last().height))
    }
}

/// A row's automatically placed panels follow the flow layout from the
/// line below the row header, each lowered with its ID and the position the
/// flow gives it.
pub proof fn lemma_row_layout(
    panels: Seq<Panel>,
    y: u16,
    used: Set<int>,
    next: int,
    ds: Option<DataSource>,
)
    requires
        forall|i: int| 0 <= i < panels.len() ==> (#[trigger] panels[i]).grid_pos is None,
    ensures
        ({
            let (f, _, _, out, ids) = place_panels(panels, FlowLayout::start(y), used, next, ds);
            let (state, grids) = flow(FlowLayout::start(y), sizes_of(panels));
            &&& f == state
            &&& out.len() == panels.len()
            &&& ids.len() == panels.len()
            &&& grids.len() == panels.len()
            &&& forall|i: int|
                0 <= i < panels.len() ==> #[trigger] out[i] == panel_v(panels[i], ids[i], grids[i], ds)
        }),
    decreases panels.len(),
{
    if panels.len() > 0 {
        let prefix = panels.drop_last();
        assert forall|i: int| 0 <= i < prefix.len() implies (#[trigger] prefix[i]).grid_pos is None by {
            assert(prefix[i] == panels[i]);
        }
        lemma_row_layout(prefix, y, used, next, ds);
        assert(panels[panels.len() - 1] == panels.last());
        assert(sizes_of(panels).drop_last() == sizes_of(prefix));
        let (_, _, _, out, ids) = place_panels(prefix, FlowLayout::start(y), used, next, ds);
        let grids = flow(FlowLayout::start(y), sizes_of(prefix)).1;
        let (_, _, _, out2, ids2) = place_panels(panels, FlowLayout::start(y), used, next, ds);
        let grids2 = flow(FlowLayout::start(y), sizes_of(panels)).1;
        assert forall|i: int| 0 <= i < panels.len() implies #[trigger] out2[i] == panel_v(
            panels[i],
            ids2[i],
            grids2[i],
            ds,
        ) by {
            if i < prefix.len() {
                assert(prefix[i] == panels[i]);
                assert(out2[i] == out[i]);
                assert(ids2[i] == ids[i]);
                assert(grids2[i] == grids[i]);
            }
        }
    }
}

/// A row's automatically placed panels of valid widths never overlap and
/// stay inside the 24 columns, as long as the rows they fill fit in the
/// grid's range.
pub proof fn lemma_row_layout_no_overlap(
    panels: Seq<Panel>,
    y: u16,
    used: Set<int>,
    next: int,
    ds: Option<DataSource>,
)
    requires
        forall|i: int| 0 <= i < panels.len() ==> (#[trigger] panels[i]).grid_pos is None,
        widths_valid(sizes_of(panels)),
        y + total_height(sizes_of(panels)) <= 0xFFFF,
    ensures
        ({
            let (_, _, _, out, ids) = place_panels(panels, FlowLayout::start(y), used, next, ds);
            let grids = flow(FlowLayout::start(y), sizes_of(panels)).1;
            &&& forall|i: int|
                0 <= i < panels.len() ==> #[trigger] out[i] == panel_v(panels[i], ids[i], grids[i], ds)
            &&& forall|i: int| 0 <= i < panels.len() ==> (#[trigger] grids[i]).x + grids[i].width <= 24
            &&& forall|i: int, j: int|
                0 <= i < j < panels.len() ==> disjoint(#[trigger] grids[i], #[trigger] grids[j])
        }),
{
    lemma_row_layout(panels, y, used, next, ds);
    lemma_sizes_of_len(panels);
    lemma_flow_no_overlap(y, sizes_of(panels));
}

proof fn lemma_sizes_of_len(panels: Seq<Panel>)
    ensures
        sizes_of(panels).len() == panels.len(),
    decreases panels.len(),
{
    if panels.len() > 0 {
        lemma_sizes_of_len(panels.drop_last());
    }
}

impl Dashboard {
    /// Checks every authored value and reports every mistake found.
    pub fn validate(&self) -> (r: Result<(), ValidationErrors>)
        ensures
            match r {
                Ok(()) => dashboard_errors(*self).len() == 0,
                Err(e) => errors_view(e.0@) == dashboard_errors(*self) && e.0@.len() > 0,
            },
    {
        validate(self)
    }

    /// Whether the dashboard's panel IDs fit in Grafana's `u32` IDs, rows
    /// included, with room to spare.
    pub fn within_id_space(&self) -> (b: bool)
        ensures
            b == fits_id_space(*self),
    {
        let limit: u64 = 0x7FFF_FFFF;
        let mut count: u64 = 0;
        let mut i: usize = 0;
        while i < self.items.len()
            invariant
                i <= self.items@.len(),
                limit == 0x7FFF_FFFF,
                count == flatten(self.items@.take(i as int)).len() + i,
                count < limit,
            decreases self.items@.len() - i,
        {
            proof {
                assert(self.items@.take(i + 1).drop_last() =~= self.items@.take(i as int));
                assert(self.items@.take(i + 1).last() == self.items@[i as int]);
            }
            let size: u64 = match &self.items[i] {
                DashboardItem::Panel(_) => 1,
                DashboardItem::Row(r) => {
                    let n = r.panels.len() as u64;
                    if n >= limit {
                        proof {
                            lemma_flatten_prefix(self.items@, i + 1, self.items@.len() as int);
                            assert(self.items@.take(self.items@.len() as int) =~= self.items@);
                            assert(flatten(self.items@.take(i + 1)) == flatten(self.items@.take(i as int)) + r.panels@);
                        }
                        return false;
                    }
                    n
                },
            };
            proof {
                assert(size < limit);
                match self.items@[i as int] {
                    DashboardItem::Panel(p) => {
                        assert(flatten(self.items@.take(i + 1)) == flatten(self.items@.take(i as int)) + seq![*p]);
                    },
                    DashboardItem::Row(r) => {
                        assert(flatten(self.items@.take(i + 1)) == flatten(self.items@.take(i as int)) + r.panels@);
                    },
                }
                assert(flatten(self.items@.take(i + 1)).len() == flatten(self.items@.take(i as int)).len() + size);
            }
            if count + size + 1 >= limit {
                proof {
                    lemma_flatten_prefix(self.items@, i + 1, self.items@.len() as int);
                    assert(self.items@.take(self.items@.len() as int) =~= self.items@);
                }
                return false;
            }
            count = count + size + 1;
            i += 1;
        }
        proof {
            assert(self.items@.take(self.items@.len() as int) =~= self.items@);
        }
        true
    }

    /// Validates the dashboard and lowers it to Grafana Classic JSON.
    pub fn to_json_value(&self) -> (r: Result<Json, ValidationErrors>)
        requires
            fits_id_space(*self),
        ensures
            match r {
                Ok(j) => dashboard_errors(*self).len() == 0 && j@ == dashboard_v(*self),
                Err(e) => errors_view(e.0@) == dashboard_errors(*self) && e.0@.len() > 0,
            },
    {
        normalize(self)
    }
}

} // verus!
