//! Validation of an authored dashboard.
use vstd::prelude::*;

use crate::dashboard::{Dashboard, DashboardItem};
use crate::field::{FieldOverride, OverrideMatcher, ThresholdStep, Thresholds};
use crate::grafana::query::{effective_ref_ids, effective_refs};
use crate::grafana::transform::{rename_source_count, rename_sources};
use crate::float::{is_finite, order_key};
use crate::panel::{GridPos, Panel};
use crate::query::Query;
use crate::text::{blank, is_blank, views};
use crate::transformation::{OrganizeFields, Transformation, TransformationFilter};
use crate::validation::{
    errors_view, ErrorV, ValidationError, ValidationErrors, VariableKind,
};
use crate::variable::{Variable, VariableDiagnostic};

verus! {

/// `[e]` when `cond` holds, else nothing.
pub open spec fn opt_error(cond: bool, e: ErrorV) -> Seq<ErrorV> {
    if cond {
        seq![e]
    } else {
        Seq::empty()
    }
}

fn push_error(errors: &mut Vec<ValidationError>, e: ValidationError)
    ensures
        errors_view(final(errors)@) == errors_view(old(errors)@) + seq![e@],
{
    errors.push(e);
    proof {
        assert(errors_view(final(errors)@) =~= errors_view(old(errors)@) + seq![e@]);
    }
}

// ---------------------------------------------------------------------------
// Thresholds
// ---------------------------------------------------------------------------

/// Only the first step may lack a value, every value is finite, and values
/// strictly increase.
pub open spec fn thresholds_valid(steps: Seq<ThresholdStep>) -> bool {
    &&& forall|i: int| 1 <= i < steps.len() ==> (#[trigger] steps[i]).value is Some
    &&& forall|i: int|
        0 <= i < steps.len() && (#[trigger] steps[i]).value is Some ==> is_finite(
            steps[i].value->0.bits,
        )
    &&& forall|i: int, j: int|
        0 <= i < j < steps.len() && (#[trigger] steps[i]).value is Some && (#[trigger] steps[j]).value is Some
            ==> order_key(steps[i].value->0.bits) < order_key(steps[j].value->0.bits)
}

/// Whether threshold values are finite and strictly increasing after an
/// optional base step.
pub fn thresholds_are_valid(t: &Thresholds) -> (b: bool)
    ensures
        b == thresholds_valid(t.steps@),
{
    let mut i: usize = 0;
    while i < t.steps.len()
        invariant
            i <= t.steps@.len(),
            thresholds_valid(t.steps@.take(i as int)),
        decreases t.steps@.len() - i,
    {
        let ghost prefix = t.steps@.take(i as int);
        let ghost next = t.steps@.take(i + 1);
        proof {
            assert forall|k: int| 0 <= k < i implies next[k] == prefix[k] by {}
            assert(next[i as int] == t.steps@[i as int]);
        }
        match t.steps[i].value {
            None => {
                if i > 0 {
                    proof {
                        assert(!thresholds_valid(t.steps@)) by {
                            assert(t.steps@[i as int].value is None);
                        }
                    }
                    return false;
                }
                proof {
                    assert(thresholds_valid(next));
                }
            },
            Some(v) => {
                if !v.is_finite() {
                    proof {
                        assert(!thresholds_valid(t.steps@)) by {
                            assert(t.steps@[i as int].value is Some);
                        }
                    }
                    return false;
                }
                if i > 0 {
                    match t.steps[i - 1].value {
                        Some(previous) => {
                            if v.le(previous) {
                                proof {
                                    assert(!thresholds_valid(t.steps@)) by {
                                        assert(t.steps@[i - 1].value is Some);
                                        assert(t.steps@[i as int].value is Some);
                                    }
                                }
                                return false;
                            }
                            proof {
                                assert forall|a: int, b: int|
                                    0 <= a < b < next.len() && (#[trigger] next[a]).value is Some && (
                                    #[trigger] next[b]).value is Some implies order_key(
                                    next[a].value->0.bits,
                                ) < order_key(next[b].value->0.bits) by {
                                    if b == i && a < i - 1 {
                                        assert(prefix[a] == next[a]);
                                        assert(prefix[i - 1] == next[i - 1]);
                                    }
                                }
                            }
                        },
                        None => {
                            proof {
                                assert(i == 1);
                            }
                        },
                    }
                }
                proof {
                    assert(thresholds_valid(next));
                }
            },
        }
        i += 1;
    }
    proof {
        assert(t.steps@.take(t.steps@.len() as int) =~= t.steps@);
    }
    true
}

// ---------------------------------------------------------------------------
// Queries and panels
// ---------------------------------------------------------------------------

/// Whether one of `queries` sets the reference ID `r`.
pub open spec fn ref_taken(queries: Seq<Query>, r: Seq<char>) -> bool {
    exists|j: int|
        0 <= j < queries.len() && (#[trigger] queries[j]).spec_options().ref_id is Some
            && queries[j].spec_options().ref_id->0@ == r
}

/// A panel's query errors, query by query: an empty expression, then a
/// reference ID that an earlier query of the panel already set.
pub open spec fn queries_errors(panel: Seq<char>, queries: Seq<Query>) -> Seq<ErrorV>
    decreases queries.len(),
{
    if queries.len() == 0 {
        Seq::empty()
    } else {
        let q = queries.last();
        let earlier = queries.drop_last();
        queries_errors(panel, earlier) + opt_error(
            is_blank(q.spec_expression()@),
            ErrorV::MissingQueryExpression { panel },
        ) + match q.spec_options().ref_id {
            Some(r) => opt_error(
                ref_taken(earlier, r@),
                ErrorV::DuplicateQueryRefId { panel, ref_id: r@ },
            ),
            None => Seq::empty(),
        }
    }
}

/// An explicit grid position that leaves the 24 columns or has no area.
pub open spec fn grid_invalid(g: GridPos) -> bool {
    g.width == 0 || g.width > 24 || g.height == 0 || g.x >= 24 || g.x + g.width > 24
}

/// Whether an explicit position fits the grid: it has area and lies within
/// the 24 columns.
pub open spec fn fits_grid(g: GridPos) -> bool {
    1 <= g.width && 1 <= g.height && g.x + g.width <= 24
}

/// Whether one of `earlier` has the explicit ID `id`.
pub open spec fn id_taken(earlier: Seq<Panel>, id: u32) -> bool {
    exists|j: int| 0 <= j < earlier.len() && (#[trigger] earlier[j]).id == Some(id)
}

/// A panel's errors about its title and shape.
pub open spec fn shape_errors(p: Panel) -> Seq<ErrorV> {
    let title = p.title@;
    opt_error(is_blank(title), ErrorV::MissingPanelTitle) + opt_error(
        !(1 <= p.width <= 24),
        ErrorV::InvalidPanelWidth { panel: title, width: p.width },
    ) + opt_error(p.height == 0, ErrorV::InvalidPanelHeight { panel: title, height: p.height })
        + match p.grid_pos {
        Some(g) => opt_error(
            grid_invalid(g),
            ErrorV::InvalidGridPosition {
                panel: title,
                x: g.x,
                y: g.y,
                width: g.width,
                height: g.height,
            },
        ),
        None => Seq::empty(),
    }
}

/// A panel's explicit position is reported exactly when it does not fit the
/// grid, and the report names the panel and the position; a position that
/// fits gives no position error at all.
pub proof fn lemma_grid_position_reported(p: Panel, g: GridPos)
    requires
        p.grid_pos == Some(g),
    ensures
        shape_errors(p).contains(
            ErrorV::InvalidGridPosition {
                panel: p.title@,
                x: g.x,
                y: g.y,
                width: g.width,
                height: g.height,
            },
        ) <==> !fits_grid(g),
        fits_grid(g) ==> forall|i: int|
            0 <= i < shape_errors(p).len() ==> !(#[trigger] shape_errors(p)[i] is InvalidGridPosition),
{
    let title = p.title@;
    let e = ErrorV::InvalidGridPosition { panel: title, x: g.x, y: g.y, width: g.width, height: g.height };
    let a = opt_error(is_blank(title), ErrorV::MissingPanelTitle);
    let b = opt_error(!(1 <= p.width <= 24), ErrorV::InvalidPanelWidth { panel: title, width: p.width });
    let c = opt_error(p.height == 0, ErrorV::InvalidPanelHeight { panel: title, height: p.height });
    let d = opt_error(grid_invalid(g), e);
    let head = a + b + c;
    assert(shape_errors(p) == head + d);
    assert forall|i: int| 0 <= i < head.len() implies !(#[trigger] head[i] is InvalidGridPosition) by {
        if i < a.len() {
            assert(head[i] == a[i]);
        } else if i < a.len() + b.len() {
            assert(head[i] == b[i - a.len()]);
        } else {
            assert(head[i] == c[i - a.len() - b.len()]);
        }
    }
    let all = shape_errors(p);
    if fits_grid(g) {
        assert(!grid_invalid(g));
        assert(all =~= head);
        if all.contains(e) {
            let i = choose|i: int| 0 <= i < all.len() && all[i] == e;
            assert(head[i] is InvalidGridPosition);
        }
    } else {
        assert(grid_invalid(g));
        assert(all[head.len() as int] == e);
    }
}

/// The ambiguous entries of an organize order: each entry (a final,
/// post-rename name) that more than one rename produces.
pub open spec fn ambiguous_order_errors(
    panel: Seq<char>,
    renames: Seq<(String, String)>,
    order: Seq<String>,
) -> Seq<ErrorV>
    decreases order.len(),
{
    if order.len() == 0 {
        Seq::empty()
    } else {
        ambiguous_order_errors(panel, renames, order.drop_last()) + opt_error(
            rename_sources(renames, order.last()@).len() > 1,
            ErrorV::AmbiguousOrganizeOrder { panel, name: order.last()@ },
        )
    }
}

/// The errors of one transformation of a panel whose queries carry the
/// reference IDs `refs`: a filter naming a reference ID that none carries,
/// then a raw transformation without an ID, or each ambiguous organize order
/// entry.
pub open spec fn transformation_errors(
    panel: Seq<char>,
    refs: Seq<Seq<char>>,
    t: Transformation,
) -> Seq<ErrorV> {
    let filter_errors = match t.spec_envelope().filter {
        Some(TransformationFilter::RefId(r)) => opt_error(
            !refs.contains(r@),
            ErrorV::UnknownTransformationRefId { panel, ref_id: r@ },
        ),
        _ => Seq::empty(),
    };
    let own_errors = match t {
        Transformation::Raw(raw) => opt_error(
            is_blank(raw.id@),
            ErrorV::MissingTransformationId { panel },
        ),
        Transformation::OrganizeFields(o) => ambiguous_order_errors(panel, o@.renames, o@.order),
        _ => Seq::empty(),
    };
    filter_errors + own_errors
}

pub open spec fn transformations_errors(
    panel: Seq<char>,
    refs: Seq<Seq<char>>,
    ts: Seq<Transformation>,
) -> Seq<ErrorV>
    decreases ts.len(),
{
    if ts.len() == 0 {
        Seq::empty()
    } else {
        transformations_errors(panel, refs, ts.drop_last()) + transformation_errors(
            panel,
            refs,
            ts.last(),
        )
    }
}

/// The error of a field override that matches by a reference ID that none
/// of the panel's queries carries.
pub open spec fn override_errors(panel: Seq<char>, refs: Seq<Seq<char>>, o: FieldOverride) -> Seq<
    ErrorV,
> {
    match o.matcher {
        OverrideMatcher::QueryRefId(r) => opt_error(
            !refs.contains(r@),
            ErrorV::UnknownOverrideRefId { panel, ref_id: r@ },
        ),
        _ => Seq::empty(),
    }
}

pub open spec fn overrides_errors(
    panel: Seq<char>,
    refs: Seq<Seq<char>>,
    os: Seq<FieldOverride>,
) -> Seq<ErrorV>
    decreases os.len(),
{
    if os.len() == 0 {
        Seq::empty()
    } else {
        overrides_errors(panel, refs, os.drop_last()) + override_errors(panel, refs, os.last())
    }
}

/// A panel's errors about what its transformations and field overrides
/// refer to, against the reference IDs its targets carry.
pub open spec fn reference_errors(p: Panel) -> Seq<ErrorV> {
    let refs = effective_refs(p.queries@);
    transformations_errors(p.title@, refs, p.transformations@) + overrides_errors(
        p.title@,
        refs,
        p.field_config.overrides@,
    )
}

/// A panel's errors, given the panels before it in the dashboard.
pub open spec fn panel_errors(p: Panel, earlier: Seq<Panel>) -> Seq<ErrorV> {
    let title = p.title@;
    shape_errors(p) + match p.id {
        Some(id) => opt_error(id_taken(earlier, id), ErrorV::DuplicatePanelId { id, panel: title }),
        None => Seq::empty(),
    } + queries_errors(title, p.queries@) + match p.field_config.thresholds {
        Some(t) => opt_error(!thresholds_valid(t.steps@), ErrorV::InvalidThresholds { panel: title }),
        None => Seq::empty(),
    } + reference_errors(p)
}

fn ref_is_taken(refs: &Vec<String>, r: &String) -> (b: bool)
    ensures
        b == views(refs@).contains(r@),
{
    let mut i: usize = 0;
    while i < refs.len()
        invariant
            i <= refs@.len(),
            forall|k: int| 0 <= k < i ==> refs@[k]@ != r@,
        decreases refs@.len() - i,
    {
        if refs[i] == *r {
            assert(views(refs@)[i as int] == r@);
            return true;
        }
        i += 1;
    }
    proof {
        if views(refs@).contains(r@) {
            let k = choose|k: int| 0 <= k < views(refs@).len() && views(refs@)[k] == r@;
            assert(refs@[k]@ == r@);
        }
    }
    false
}

fn validate_queries(panel: &String, queries: &Vec<Query>, errors: &mut Vec<ValidationError>)
    ensures
        errors_view(final(errors)@) == errors_view(old(errors)@) + queries_errors(
            panel@,
            queries@,
        ),
{
    let mut refs: Vec<String> = Vec::new();
    let mut i: usize = 0;
    proof {
        assert(errors_view(errors@) =~= errors_view(old(errors)@) + queries_errors(
            panel@,
            queries@.take(0),
        ));
    }
    while i < queries.len()
        invariant
            i <= queries@.len(),
            errors_view(errors@) == errors_view(old(errors)@) + queries_errors(
                panel@,
                queries@.take(i as int),
            ),
            forall|r: Seq<char>| views(refs@).contains(r) <==> ref_taken(queries@.take(i as int), r),
        decreases queries@.len() - i,
    {
        let ghost earlier = queries@.take(i as int);
        let ghost next = queries@.take(i + 1);
        let ghost before = errors_view(errors@);
        proof {
            assert(next.drop_last() =~= earlier);
            assert(next.last() == queries@[i as int]);
        }
        let q = &queries[i];
        let missing = blank(q.expression().as_str());
        if missing {
            push_error(errors, ValidationError::MissingQueryExpression { panel: panel.clone() });
        }
        let ghost middle = errors_view(errors@);
        let ghost old_refs = refs@;
        match &q.options().ref_id {
            Some(r) => {
                if ref_is_taken(&refs, r) {
                    push_error(
                        errors,
                        ValidationError::DuplicateQueryRefId { panel: panel.clone(), ref_id: r.clone() },
                    );
                } else {
                    proof {
                        lemma_views_push_contains(refs@, *r);
                    }
                    refs.push(r.clone());
                }
                proof {
                    lemma_ref_taken_push(earlier, queries@[i as int]);
                    assert(next =~= earlier.push(queries@[i as int]));
                    assert forall|s: Seq<char>| views(refs@).contains(s) <==> ref_taken(next, s) by {
                        assert(views(old_refs).contains(s) <==> ref_taken(earlier, s));
                        assert(ref_taken(earlier.push(queries@[i as int]), s) <==> (ref_taken(
                            earlier,
                            s,
                        ) || (queries@[i as int].spec_options().ref_id is Some
                            && queries@[i as int].spec_options().ref_id->0@ == s)));
                    }
                }
            },
            None => {
                proof {
                    lemma_ref_taken_push(earlier, queries@[i as int]);
                    assert(next =~= earlier.push(queries@[i as int]));
                    assert forall|s: Seq<char>| views(refs@).contains(s) <==> ref_taken(next, s) by {
                        assert(views(old_refs).contains(s) <==> ref_taken(earlier, s));
                        assert(ref_taken(earlier.push(queries@[i as int]), s) <==> (ref_taken(
                            earlier,
                            s,
                        ) || (queries@[i as int].spec_options().ref_id is Some
                            && queries@[i as int].spec_options().ref_id->0@ == s)));
                    }
                }
            },
        }
        proof {
            assert(errors_view(errors@) =~= errors_view(old(errors)@) + queries_errors(panel@, next));
        }
        i += 1;
    }
    proof {
        assert(queries@.take(queries@.len() as int) =~= queries@);
    }
}

proof fn lemma_views_push_contains(items: Seq<String>, s: String)
    ensures
        forall|x: Seq<char>| views(items.push(s)).contains(x) <==> (views(items).contains(x) || x == s@),
{
    assert(views(items.push(s)) =~= views(items).push(s@));
    assert forall|x: Seq<char>| views(items.push(s)).contains(x) <==> (views(items).contains(x) || x
        == s@) by {
        let v = views(items);
        if v.push(s@).contains(x) && x != s@ {
            let k = choose|k: int| 0 <= k < v.push(s@).len() && v.push(s@)[k] == x;
            assert(v[k] == x);
        }
        if v.contains(x) {
            let k = choose|k: int| 0 <= k < v.len() && v[k] == x;
            assert(v.push(s@)[k] == x);
        }
        if x == s@ {
            assert(v.push(s@)[v.len() as int] == x);
        }
    }
}

fn id_is_taken(ids: &Vec<u32>, id: u32) -> (b: bool)
    ensures
        b == ids@.contains(id),
{
    let mut i: usize = 0;
    while i < ids.len()
        invariant
            i <= ids@.len(),
            forall|k: int| 0 <= k < i ==> ids@[k] != id,
        decreases ids@.len() - i,
    {
        if ids[i] == id {
            return true;
        }
        i += 1;
    }
    false
}

proof fn lemma_ref_taken_push(earlier: Seq<Query>, q: Query)
    ensures
        forall|s: Seq<char>|
            #![trigger ref_taken(earlier.push(q), s)]
            ref_taken(earlier.push(q), s) <==> (ref_taken(earlier, s) || (q.spec_options().ref_id
                is Some && q.spec_options().ref_id->0@ == s)),
{
    let next = earlier.push(q);
    assert forall|s: Seq<char>|
        ref_taken(next, s) <==> (ref_taken(earlier, s) || (q.spec_options().ref_id is Some
            && q.spec_options().ref_id->0@ == s)) by {
        if ref_taken(next, s) {
            let j = choose|j: int|
                0 <= j < next.len() && (#[trigger] next[j]).spec_options().ref_id is Some
                    && next[j].spec_options().ref_id->0@ == s;
            if j < earlier.len() {
                assert(earlier[j] == next[j]);
            }
        }
        if ref_taken(earlier, s) {
            let j = choose|j: int|
                0 <= j < earlier.len() && (#[trigger] earlier[j]).spec_options().ref_id is Some
                    && earlier[j].spec_options().ref_id->0@ == s;
            assert(next[j] == earlier[j]);
        }
        if q.spec_options().ref_id is Some && q.spec_options().ref_id->0@ == s {
            assert(next[earlier.len() as int] == q);
        }
    }
}

proof fn lemma_id_taken_push(earlier: Seq<Panel>, p: Panel)
    ensures
        forall|k: u32|
            #![trigger id_taken(earlier.push(p), k)]
            id_taken(earlier.push(p), k) <==> (id_taken(earlier, k) || p.id == Some(k)),
{
    let pushed = earlier.push(p);
    assert forall|k: u32| id_taken(pushed, k) <==> (id_taken(earlier, k) || p.id == Some(k)) by {
        if id_taken(pushed, k) {
            let j = choose|j: int| 0 <= j < pushed.len() && (#[trigger] pushed[j]).id == Some(k);
            if j < earlier.len() {
                assert(earlier[j] == pushed[j]);
            }
        }
        if id_taken(earlier, k) {
            let j = choose|j: int| 0 <= j < earlier.len() && (#[trigger] earlier[j]).id == Some(k);
            assert(pushed[j] == earlier[j]);
        }
        if p.id == Some(k) {
            assert(pushed[earlier.len() as int] == p);
        }
    }
}

fn track_id(
    id: Option<u32>,
    ids: &mut Vec<u32>,
    errors: &mut Vec<ValidationError>,
    title: &String,
    Ghost(earlier): Ghost<Seq<Panel>>,
    Ghost(p): Ghost<Panel>,
)
    requires
        p.id == id,
        p.title == *title,
        forall|k: u32| old(ids)@.contains(k) <==> id_taken(earlier, k),
    ensures
        forall|k: u32| final(ids)@.contains(k) <==> id_taken(earlier.push(p), k),
        errors_view(final(errors)@) == errors_view(old(errors)@) + match id {
            Some(id) => opt_error(id_taken(earlier, id), ErrorV::DuplicatePanelId { id, panel: title@ }),
            None => Seq::empty(),
        },
{
    proof {
        lemma_id_taken_push(earlier, p);
    }
    match id {
        Some(id) => {
            if id_is_taken(ids, id) {
                push_error(errors, ValidationError::DuplicatePanelId { id, panel: title.clone() });
            } else {
                ids.push(id);
                proof {
                    assert forall|k: u32| ids@.contains(k) <==> (old(ids)@.contains(k) || k == id) by {
                        if ids@.contains(k) && k != id {
                            let j = choose|j: int| 0 <= j < ids@.len() && ids@[j] == k;
                            assert(old(ids)@[j] == k);
                        }
                        if old(ids)@.contains(k) {
                            let j = choose|j: int| 0 <= j < old(ids)@.len() && old(ids)@[j] == k;
                            assert(ids@[j] == k);
                        }
                        if k == id {
                            assert(ids@[old(ids)@.len() as int] == k);
                        }
                    }
                }
            }
            proof {
                assert forall|k: u32| ids@.contains(k) <==> id_taken(earlier.push(p), k) by {
                    assert(id_taken(earlier.push(p), k) <==> (id_taken(earlier, k) || p.id == Some(k)));
                }
            }
        },
        None => {
            proof {
                assert forall|k: u32| ids@.contains(k) <==> id_taken(earlier.push(p), k) by {
                    assert(id_taken(earlier.push(p), k) <==> (id_taken(earlier, k) || p.id == Some(k)));
                }
                assert(errors_view(errors@) =~= errors_view(old(errors)@) + Seq::<ErrorV>::empty());
            }
        },
    }
}

fn validate_shape(p: &Panel, errors: &mut Vec<ValidationError>)
    ensures
        errors_view(final(errors)@) == errors_view(old(errors)@) + shape_errors(*p),
{
    let title = &p.title;
    let ghost e0 = errors_view(errors@);
    if blank(title.as_str()) {
        push_error(errors, ValidationError::MissingPanelTitle);
    } else {
        assert(errors_view(errors@) =~= e0 + Seq::<ErrorV>::empty());
    }
    let ghost e1 = errors_view(errors@);
    assert(e1 == e0 + opt_error(is_blank(title@), ErrorV::MissingPanelTitle));
    if !(1 <= p.width && p.width <= 24) {
        push_error(errors, ValidationError::InvalidPanelWidth { panel: title.clone(), width: p.width });
    } else {
        assert(errors_view(errors@) =~= e1 + Seq::<ErrorV>::empty());
    }
    let ghost e2 = errors_view(errors@);
    assert(e2 == e1 + opt_error(
        !(1 <= p.width <= 24),
        ErrorV::InvalidPanelWidth { panel: title@, width: p.width },
    ));
    if p.height == 0 {
        push_error(
            errors,
            ValidationError::InvalidPanelHeight { panel: title.clone(), height: p.height },
        );
    } else {
        assert(errors_view(errors@) =~= e2 + Seq::<ErrorV>::empty());
    }
    let ghost e3 = errors_view(errors@);
    assert(e3 == e2 + opt_error(
        p.height == 0,
        ErrorV::InvalidPanelHeight { panel: title@, height: p.height },
    ));
    if let Some(g) = p.grid_pos {
        if g.width == 0 || g.width > 24 || g.height == 0 || g.x >= 24 || g.x.saturating_add(g.width)
            > 24 {
            push_error(
                errors,
                ValidationError::InvalidGridPosition {
                    panel: title.clone(),
                    x: g.x,
                    y: g.y,
                    width: g.width,
                    height: g.height,
                },
            );
        } else {
            assert(errors_view(errors@) =~= e3 + Seq::<ErrorV>::empty());
        }
    }
    let ghost e4 = errors_view(errors@);
    assert(e4 == e3 + match p.grid_pos {
        Some(g) => opt_error(
            grid_invalid(g),
            ErrorV::InvalidGridPosition {
                panel: title@,
                x: g.x,
                y: g.y,
                width: g.width,
                height: g.height,
            },
        ),
        None => Seq::empty(),
    }) by {
        if p.grid_pos is None {
            assert(e4 =~= e3 + Seq::<ErrorV>::empty());
        }
    }
    proof {
        assert(errors_view(errors@) =~= errors_view(old(errors)@) + shape_errors(*p));
    }
}

fn validate_order(title: &String, o: &OrganizeFields, errors: &mut Vec<ValidationError>)
    ensures
        errors_view(final(errors)@) == errors_view(old(errors)@) + ambiguous_order_errors(
            title@,
            o@.renames,
            o@.order,
        ),
{
    let renames = o.renames();
    let order = o.ordered_names();
    let mut i: usize = 0;
    proof {
        assert(errors_view(errors@) =~= errors_view(old(errors)@) + ambiguous_order_errors(
            title@,
            o@.renames,
            o@.order.take(0),
        ));
    }
    while i < order.len()
        invariant
            order@ == o@.order,
            renames@ == o@.renames,
            i <= o@.order.len(),
            errors_view(errors@) == errors_view(old(errors)@) + ambiguous_order_errors(
                title@,
                o@.renames,
                o@.order.take(i as int),
            ),
        decreases o@.order.len() - i,
    {
        let ghost before = errors_view(errors@);
        proof {
            assert(o@.order.take(i + 1).drop_last() =~= o@.order.take(i as int));
            assert(o@.order.take(i + 1).last() == o@.order[i as int]);
        }
        if rename_source_count(renames, &order[i]) > 1 {
            push_error(
                errors,
                ValidationError::AmbiguousOrganizeOrder { panel: title.clone(), name: order[i].clone() },
            );
        } else {
            assert(errors_view(errors@) =~= before + Seq::<ErrorV>::empty());
        }
        proof {
            assert(errors_view(errors@) =~= errors_view(old(errors)@) + ambiguous_order_errors(
                title@,
                o@.renames,
                o@.order.take(i + 1),
            ));
        }
        i += 1;
    }
    proof {
        assert(o@.order.take(o@.order.len() as int) =~= o@.order);
    }
}

fn validate_transformation(
    title: &String,
    refs: &Vec<String>,
    t: &Transformation,
    errors: &mut Vec<ValidationError>,
)
    ensures
        errors_view(final(errors)@) == errors_view(old(errors)@) + transformation_errors(
            title@,
            views(refs@),
            *t,
        ),
{
    let ghost e0 = errors_view(errors@);
    match &t.envelope().filter {
        Some(TransformationFilter::RefId(r)) => {
            if !ref_is_taken(refs, r) {
                push_error(
                    errors,
                    ValidationError::UnknownTransformationRefId { panel: title.clone(), ref_id: r.clone() },
                );
            } else {
                assert(errors_view(errors@) =~= e0 + Seq::<ErrorV>::empty());
            }
        },
        _ => {
            assert(errors_view(errors@) =~= e0 + Seq::<ErrorV>::empty());
        },
    }
    let ghost e1 = errors_view(errors@);
    match t {
        Transformation::Raw(raw) => {
            if blank(raw.id.as_str()) {
                push_error(errors, ValidationError::MissingTransformationId { panel: title.clone() });
            } else {
                assert(errors_view(errors@) =~= e1 + Seq::<ErrorV>::empty());
            }
        },
        Transformation::OrganizeFields(o) => {
            validate_order(title, o, errors);
        },
        _ => {
            assert(errors_view(errors@) =~= e1 + Seq::<ErrorV>::empty());
        },
    }
    proof {
        assert(errors_view(errors@) =~= e0 + transformation_errors(title@, views(refs@), *t));
    }
}

fn validate_override(
    title: &String,
    refs: &Vec<String>,
    o: &FieldOverride,
    errors: &mut Vec<ValidationError>,
)
    ensures
        errors_view(final(errors)@) == errors_view(old(errors)@) + override_errors(
            title@,
            views(refs@),
            *o,
        ),
{
    match &o.matcher {
        OverrideMatcher::QueryRefId(r) => {
            if !ref_is_taken(refs, r) {
                push_error(
                    errors,
                    ValidationError::UnknownOverrideRefId { panel: title.clone(), ref_id: r.clone() },
                );
            } else {
                assert(errors_view(errors@) =~= errors_view(old(errors)@) + Seq::<ErrorV>::empty());
            }
        },
        _ => {
            assert(errors_view(errors@) =~= errors_view(old(errors)@) + Seq::<ErrorV>::empty());
        },
    }
}

fn validate_references(p: &Panel, errors: &mut Vec<ValidationError>)
    ensures
        errors_view(final(errors)@) == errors_view(old(errors)@) + reference_errors(*p),
{
    let refs = effective_ref_ids(&p.queries);
    let title = &p.title;
    let ghost e0 = errors_view(errors@);
    let mut i: usize = 0;
    proof {
        assert(errors_view(errors@) =~= e0 + transformations_errors(
            title@,
            views(refs@),
            p.transformations@.take(0),
        ));
    }
    while i < p.transformations.len()
        invariant
            i <= p.transformations@.len(),
            errors_view(errors@) == e0 + transformations_errors(
                title@,
                views(refs@),
                p.transformations@.take(i as int),
            ),
        decreases p.transformations@.len() - i,
    {
        proof {
            assert(p.transformations@.take(i + 1).drop_last() =~= p.transformations@.take(i as int));
            assert(p.transformations@.take(i + 1).last() == p.transformations@[i as int]);
        }
        validate_transformation(title, &refs, &p.transformations[i], errors);
        proof {
            assert(errors_view(errors@) =~= e0 + transformations_errors(
                title@,
                views(refs@),
                p.transformations@.take(i + 1),
            ));
        }
        i += 1;
    }
    proof {
        assert(p.transformations@.take(p.transformations@.len() as int) =~= p.transformations@);
    }
    let ghost e1 = errors_view(errors@);
    let overrides = &p.field_config.overrides;
    let mut k: usize = 0;
    proof {
        assert(errors_view(errors@) =~= e1 + overrides_errors(
            title@,
            views(refs@),
            overrides@.take(0),
        ));
    }
    while k < overrides.len()
        invariant
            k <= overrides@.len(),
            errors_view(errors@) == e1 + overrides_errors(
                title@,
                views(refs@),
                overrides@.take(k as int),
            ),
        decreases overrides@.len() - k,
    {
        proof {
            assert(overrides@.take(k + 1).drop_last() =~= overrides@.take(k as int));
            assert(overrides@.take(k + 1).last() == overrides@[k as int]);
        }
        validate_override(title, &refs, &overrides[k], errors);
        proof {
            assert(errors_view(errors@) =~= e1 + overrides_errors(
                title@,
                views(refs@),
                overrides@.take(k + 1),
            ));
        }
        k += 1;
    }
    proof {
        assert(overrides@.take(overrides@.len() as int) =~= overrides@);
        assert(errors_view(errors@) =~= errors_view(old(errors)@) + reference_errors(*p));
    }
}

#[verifier::rlimit(30)]
fn validate_panel(
    p: &Panel,
    ids: &mut Vec<u32>,
    errors: &mut Vec<ValidationError>,
    Ghost(earlier): Ghost<Seq<Panel>>,
)
    requires
        forall|id: u32| old(ids)@.contains(id) <==> id_taken(earlier, id),
    ensures
        forall|id: u32| final(ids)@.contains(id) <==> id_taken(earlier.push(*p), id),
        errors_view(final(errors)@) == errors_view(old(errors)@) + panel_errors(*p, earlier),
{
    let title = &p.title;
    let ghost e0 = errors_view(errors@);
    let ghost id_errors = match p.id {
        Some(id) => opt_error(id_taken(earlier, id), ErrorV::DuplicatePanelId { id, panel: title@ }),
        None => Seq::empty(),
    };
    let ghost threshold_errors = match &p.field_config.thresholds {
        Some(t) => opt_error(!thresholds_valid(t.steps@), ErrorV::InvalidThresholds { panel: title@ }),
        None => Seq::empty(),
    };
    validate_shape(p, errors);
    let ghost e1 = errors_view(errors@);
    track_id(p.id, ids, errors, title, Ghost(earlier), Ghost(*p));
    let ghost e5 = errors_view(errors@);
    assert(e5 == e1 + id_errors);
    validate_queries(title, &p.queries, errors);
    let ghost e6 = errors_view(errors@);
    if let Some(t) = &p.field_config.thresholds {
        if !thresholds_are_valid(t) {
            push_error(errors, ValidationError::InvalidThresholds { panel: title.clone() });
        }
    }
    assert(errors_view(errors@) == e6 + threshold_errors) by {
        if p.field_config.thresholds is None || thresholds_valid(p.field_config.thresholds->0.steps@) {
            assert(errors_view(errors@) =~= e6 + Seq::<ErrorV>::empty());
        }
    }
    let ghost e7 = errors_view(errors@);
    validate_references(p, errors);
    proof {
        let sh = shape_errors(*p);
        let qe = queries_errors(title@, p.queries@);
        let re = reference_errors(*p);
        assert(panel_errors(*p, earlier) == sh + id_errors + qe + threshold_errors + re);
        assert(errors_view(errors@) =~= e0 + (sh + id_errors + qe + threshold_errors + re));
    }
}

// ---------------------------------------------------------------------------
// Variables and the dashboard
// ---------------------------------------------------------------------------

/// The kind a variable resolved to.
pub open spec fn variable_kind(v: Variable) -> VariableKind {
    match v {
        Variable::DataSource(_) => VariableKind::DataSource,
        Variable::Query(_) => VariableKind::Query,
        Variable::Custom(_) => VariableKind::Custom,
        Variable::Constant(_) => VariableKind::Constant,
    }
}

/// The error reporting one problem found while building a variable.
pub open spec fn diagnostic_error(name: Seq<char>, kind: VariableKind, d: VariableDiagnostic) -> ErrorV {
    match d {
        VariableDiagnostic::OptionNotApplicable(option) => ErrorV::VariableOptionNotApplicable {
            variable: name,
            option,
            kind,
        },
        VariableDiagnostic::NoSelector => ErrorV::NoVariableSelector { variable: name },
        VariableDiagnostic::ConflictingSelectors { chosen, ignored } =>
            ErrorV::ConflictingVariableSelectors { variable: name, chosen, ignored },
    }
}

pub open spec fn diagnostics_errors(
    name: Seq<char>,
    kind: VariableKind,
    diagnostics: Seq<VariableDiagnostic>,
) -> Seq<ErrorV>
    decreases diagnostics.len(),
{
    if diagnostics.len() == 0 {
        Seq::empty()
    } else {
        diagnostics_errors(name, kind, diagnostics.drop_last()).push(
            diagnostic_error(name, kind, diagnostics.last()),
        )
    }
}

/// A variable's errors: an empty name, an empty query expression (reported
/// as on the panel `variable NAME`), then each problem found while building
/// it.
pub open spec fn variable_errors(v: Variable) -> Seq<ErrorV> {
    let name = v.spec_name()@;
    opt_error(is_blank(name), ErrorV::MissingVariableName) + match v {
        Variable::Query(q) => opt_error(
            is_blank(q.query.spec_expression()@),
            ErrorV::MissingQueryExpression { panel: "variable "@ + name },
        ),
        _ => Seq::empty(),
    } + diagnostics_errors(name, variable_kind(v), v.spec_diagnostics())
}

pub open spec fn variables_errors(vs: Seq<Variable>) -> Seq<ErrorV>
    decreases vs.len(),
{
    if vs.len() == 0 {
        Seq::empty()
    } else {
        variables_errors(vs.drop_last()) + variable_errors(vs.last())
    }
}

/// The panels of the items in order, row panels in place of their row.
pub open spec fn flatten(items: Seq<DashboardItem>) -> Seq<Panel>
    decreases items.len(),
{
    if items.len() == 0 {
        Seq::empty()
    } else {
        flatten(items.drop_last()) + match items.last() {
            DashboardItem::Panel(p) => seq![*p],
            DashboardItem::Row(r) => r.panels@,
        }
    }
}

/// The errors of consecutive panels that follow `earlier`.
pub open spec fn panels_errors(ps: Seq<Panel>, earlier: Seq<Panel>) -> Seq<ErrorV>
    decreases ps.len(),
{
    if ps.len() == 0 {
        Seq::empty()
    } else {
        panels_errors(ps.drop_last(), earlier) + panel_errors(ps.last(), earlier + ps.drop_last())
    }
}

pub open spec fn items_errors(items: Seq<DashboardItem>) -> Seq<ErrorV>
    decreases items.len(),
{
    if items.len() == 0 {
        Seq::empty()
    } else {
        let earlier = flatten(items.drop_last());
        items_errors(items.drop_last()) + match items.last() {
            DashboardItem::Panel(p) => panel_errors(*p, earlier),
            DashboardItem::Row(r) => opt_error(is_blank(r.title@), ErrorV::MissingRowTitle)
                + panels_errors(r.panels@, earlier),
        }
    }
}

/// Every error of a dashboard, in the order validation reports them: the
/// title, the variables, then the items in order.
pub open spec fn dashboard_errors(d: Dashboard) -> Seq<ErrorV> {
    opt_error(is_blank(d.title@), ErrorV::MissingDashboardTitle) + variables_errors(d.variables@)
        + items_errors(d.items@)
}

proof fn lemma_diagnostics_errors_len(name: Seq<char>, kind: VariableKind, ds: Seq<VariableDiagnostic>)
    ensures
        diagnostics_errors(name, kind, ds).len() == ds.len(),
    decreases ds.len(),
{
    if ds.len() > 0 {
        lemma_diagnostics_errors_len(name, kind, ds.drop_last());
    }
}

proof fn lemma_variables_errors_cover(vs: Seq<Variable>, i: int)
    requires
        0 <= i < vs.len(),
    ensures
        variables_errors(vs).len() >= variable_errors(vs[i]).len(),
    decreases vs.len(),
{
    if i < vs.len() - 1 {
        assert(vs.drop_last()[i] == vs[i]);
        lemma_variables_errors_cover(vs.drop_last(), i);
    }
}

/// A problem found while building a variable is never dropped: a dashboard
/// holding such a variable fails validation.
pub proof fn lemma_variable_problems_fail_validation(d: Dashboard, i: int)
    requires
        0 <= i < d.variables@.len(),
        d.variables@[i].spec_diagnostics().len() > 0,
    ensures
        dashboard_errors(d).len() > 0,
{
    let v = d.variables@[i];
    lemma_diagnostics_errors_len(v.spec_name()@, variable_kind(v), v.spec_diagnostics());
    lemma_variables_errors_cover(d.variables@, i);
}

fn diagnostic_to_error(name: &String, kind: VariableKind, d: VariableDiagnostic) -> (e:
    ValidationError)
    ensures
        e@ == diagnostic_error(name@, kind, d),
{
    match d {
        VariableDiagnostic::OptionNotApplicable(option) =>
            ValidationError::VariableOptionNotApplicable { variable: name.clone(), option, kind },
        VariableDiagnostic::NoSelector => ValidationError::NoVariableSelector {
            variable: name.clone(),
        },
        VariableDiagnostic::ConflictingSelectors { chosen, ignored } =>
            ValidationError::ConflictingVariableSelectors { variable: name.clone(), chosen, ignored },
    }
}

fn validate_variable(v: &Variable, errors: &mut Vec<ValidationError>)
    ensures
        errors_view(final(errors)@) == errors_view(old(errors)@) + variable_errors(*v),
{
    let name = v.name();
    if blank(name.as_str()) {
        push_error(errors, ValidationError::MissingVariableName);
    }
    let ghost e1 = errors_view(errors@);
    match v {
        Variable::Query(q) => {
            if blank(q.query.expression().as_str()) {
                let mut panel = String::new();
                crate::text::push_str(&mut panel, "variable ");
                crate::text::push_str(&mut panel, name.as_str());
                proof {
                    reveal_strlit("");
                    assert(panel@ =~= "variable "@ + name@);
                }
                push_error(errors, ValidationError::MissingQueryExpression { panel });
            }
        },
        _ => {},
    }
    let ghost e2 = errors_view(errors@);
    let kind = match v {
        Variable::DataSource(_) => VariableKind::DataSource,
        Variable::Query(_) => VariableKind::Query,
        Variable::Custom(_) => VariableKind::Custom,
        Variable::Constant(_) => VariableKind::Constant,
    };
    let diagnostics = v.diagnostics();
    let mut i: usize = 0;
    while i < diagnostics.len()
        invariant
            i <= diagnostics@.len(),
            errors_view(errors@) == e2 + diagnostics_errors(
                name@,
                kind,
                diagnostics@.take(i as int),
            ),
        decreases diagnostics@.len() - i,
    {
        push_error(errors, diagnostic_to_error(name, kind, diagnostics[i]));
        proof {
            assert(diagnostics@.take(i + 1).drop_last() =~= diagnostics@.take(i as int));
            assert(errors_view(errors@) =~= e2 + diagnostics_errors(
                name@,
                kind,
                diagnostics@.take(i + 1),
            ));
        }
        i += 1;
    }
    proof {
        assert(diagnostics@.take(diagnostics@.len() as int) =~= diagnostics@);
        assert(errors_view(errors@) =~= errors_view(old(errors)@) + variable_errors(*v));
    }
}

proof fn lemma_panels_errors_push(ps: Seq<Panel>, p: Panel, earlier: Seq<Panel>)
    ensures
        panels_errors(ps.push(p), earlier) == panels_errors(ps, earlier) + panel_errors(
            p,
            earlier + ps,
        ),
{
    assert(ps.push(p).drop_last() =~= ps);
}

/// Checks every authored value and reports every mistake found, in order.
pub fn validate(d: &Dashboard) -> (r: Result<(), ValidationErrors>)
    ensures
        match r {
            Ok(()) => dashboard_errors(*d).len() == 0,
            Err(e) => errors_view(e.0@) == dashboard_errors(*d) && e.0@.len() > 0,
        },
{
    let mut errors: Vec<ValidationError> = Vec::new();
    if blank(d.title.as_str()) {
        push_error(&mut errors, ValidationError::MissingDashboardTitle);
    }
    let ghost head = errors_view(errors@);
    proof {
        assert(head =~= opt_error(is_blank(d.title@), ErrorV::MissingDashboardTitle));
    }
    let mut i: usize = 0;
    while i < d.variables.len()
        invariant
            i <= d.variables@.len(),
            errors_view(errors@) == head + variables_errors(d.variables@.take(i as int)),
        decreases d.variables@.len() - i,
    {
        validate_variable(&d.variables[i], &mut errors);
        proof {
            assert(d.variables@.take(i + 1).drop_last() =~= d.variables@.take(i as int));
            assert(errors_view(errors@) =~= head + variables_errors(d.variables@.take(i + 1)));
        }
        i += 1;
    }
    proof {
        assert(d.variables@.take(d.variables@.len() as int) =~= d.variables@);
    }
    let ghost head2 = errors_view(errors@);
    let mut ids: Vec<u32> = Vec::new();
    let mut i: usize = 0;
    while i < d.items.len()
        invariant
            i <= d.items@.len(),
            errors_view(errors@) == head2 + items_errors(d.items@.take(i as int)),
            forall|id: u32| ids@.contains(id) <==> id_taken(flatten(d.items@.take(i as int)), id),
        decreases d.items@.len() - i,
    {
        let ghost earlier = flatten(d.items@.take(i as int));
        let ghost before = errors_view(errors@);
        proof {
            assert(d.items@.take(i + 1).drop_last() =~= d.items@.take(i as int));
        }
        match &d.items[i] {
            DashboardItem::Panel(p) => {
                validate_panel(p, &mut ids, &mut errors, Ghost(earlier));
                proof {
                    assert(earlier.push(**p) =~= flatten(d.items@.take(i + 1)));
                }
            },
            DashboardItem::Row(row) => {
                if blank(row.title.as_str()) {
                    push_error(&mut errors, ValidationError::MissingRowTitle);
                }
                let ghost mid = errors_view(errors@);
                let mut k: usize = 0;
                while k < row.panels.len()
                    invariant
                        k <= row.panels@.len(),
                        errors_view(errors@) == mid + panels_errors(
                            row.panels@.take(k as int),
                            earlier,
                        ),
                        forall|id: u32|
                            ids@.contains(id) <==> id_taken(
                                earlier + row.panels@.take(k as int),
                                id,
                            ),
                    decreases row.panels@.len() - k,
                {
                    let ghost seen = earlier + row.panels@.take(k as int);
                    validate_panel(&row.panels[k], &mut ids, &mut errors, Ghost(seen));
                    proof {
                        assert(row.panels@.take(k + 1) =~= row.panels@.take(k as int).push(
                            row.panels@[k as int],
                        ));
                        lemma_panels_errors_push(
                            row.panels@.take(k as int),
                            row.panels@[k as int],
                            earlier,
                        );
                        assert(seen.push(row.panels@[k as int]) =~= earlier + row.panels@.take(
                            k + 1,
                        ));
                        assert(errors_view(errors@) =~= mid + panels_errors(
                            row.panels@.take(k + 1),
                            earlier,
                        ));
                    }
                    k += 1;
                }
                proof {
                    assert(row.panels@.take(row.panels@.len() as int) =~= row.panels@);
                    assert(earlier + row.panels@ =~= flatten(d.items@.take(i + 1)));
                }
            },
        }
        proof {
            assert(errors_view(errors@) =~= head2 + items_errors(d.items@.take(i + 1)));
        }
        i += 1;
    }
    proof {
        assert(d.items@.take(d.items@.len() as int) =~= d.items@);
        assert(errors_view(errors@) =~= dashboard_errors(*d));
        assert(errors_view(errors@).len() == errors@.len());
    }
    if errors.len() == 0 {
        Ok(())
    } else {
        Err(ValidationErrors(errors))
    }
}

} // verus!
