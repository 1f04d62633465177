//! Small pieces of the Grafana wire format shared by the lowering passes:
//! optional entries, datasource references, links and grid positions.
use vstd::prelude::*;

use crate::dashboard::DashboardLink;
use crate::datasource::DataSource;
use crate::json::{opt_str_v, strs_v, DictBuilder, Json, JsonV, ObjectBuilder};
use crate::panel::GridPos;

verus! {

/// An ordered entry list with `(key, value)` appended when a value is given.
pub open spec fn push_opt(
    entries: Seq<(Seq<char>, JsonV)>,
    key: Seq<char>,
    value: Option<JsonV>,
) -> Seq<(Seq<char>, JsonV)> {
    match value {
        Some(v) => entries.push((key, v)),
        None => entries,
    }
}

/// A map with `key` set to the value when one is given.
pub open spec fn ins_opt(
    map: Map<Seq<char>, JsonV>,
    key: Seq<char>,
    value: Option<JsonV>,
) -> Map<Seq<char>, JsonV> {
    match value {
        Some(v) => map.insert(key, v),
        None => map,
    }
}

/// An optional string lowered to a JSON string when present.
pub open spec fn opt_str(s: Option<String>) -> Option<JsonV> {
    match s {
        Some(text) => Some(JsonV::Str(text@)),
        None => None,
    }
}

/// A datasource reference as Grafana stores it: its plugin type and UID;
/// the authoring name is never written.
pub open spec fn datasource_v(d: DataSource) -> JsonV {
    JsonV::Object(
        Seq::empty().push(("type"@, JsonV::Str(d.kind@))).push(("uid"@, JsonV::Str(d.uid@))),
        Map::empty(),
    )
}

/// The datasource a query or panel uses: its own, else the inherited one.
pub open spec fn inherit(own: Option<DataSource>, inherited: Option<DataSource>) -> Option<
    DataSource,
> {
    match own {
        Some(d) => Some(d),
        None => inherited,
    }
}

pub open spec fn opt_datasource_v(d: Option<DataSource>) -> Option<JsonV> {
    match d {
        Some(d) => Some(datasource_v(d)),
        None => None,
    }
}

/// Lowers a datasource reference.
pub fn datasource_json(d: &DataSource) -> (j: Json)
    ensures
        j@ == datasource_v(*d),
{
    let mut b = ObjectBuilder::new();
    b.insert("type", Json::string(&d.kind));
    b.insert("uid", Json::string(&d.uid));
    b.finish()
}

/// A link as Grafana stores it.
pub open spec fn link_v(link: DashboardLink) -> JsonV {
    let e = Seq::empty().push(("type"@, JsonV::Str("link"@))).push(
        ("title"@, JsonV::Str(link.title@)),
    ).push(("url"@, JsonV::Str(link.url@)));
    let e = push_opt(e, "tooltip"@, opt_str(link.tooltip));
    let e = e.push(("targetBlank"@, JsonV::Bool(link.target_blank))).push(
        ("includeVars"@, JsonV::Bool(link.include_vars)),
    ).push(("keepTime"@, JsonV::Bool(link.keep_time))).push(
        ("tags"@, JsonV::Array(strs_v(link.tags@))),
    );
    JsonV::Object(e, Map::empty())
}

/// The models of a list of links.
pub open spec fn links_v(links: Seq<DashboardLink>) -> Seq<JsonV>
    decreases links.len(),
{
    if links.len() == 0 {
        Seq::empty()
    } else {
        links_v(links.drop_last()).push(link_v(links.last()))
    }
}

/// Lowers a link.
pub fn link_json(link: &DashboardLink) -> (j: Json)
    ensures
        j@ == link_v(*link),
{
    let mut b = ObjectBuilder::new();
    b.insert("type", Json::str("link"));
    b.insert("title", Json::string(&link.title));
    b.insert("url", Json::string(&link.url));
    if let Some(tooltip) = &link.tooltip {
        b.insert("tooltip", Json::string(tooltip));
    }
    b.insert("targetBlank", Json::Bool(link.target_blank));
    b.insert("includeVars", Json::Bool(link.include_vars));
    b.insert("keepTime", Json::Bool(link.keep_time));
    b.insert("tags", Json::strings(&link.tags));
    b.finish()
}

/// Lowers a list of links.
pub fn links_json(links: &Vec<DashboardLink>) -> (items: Vec<Json>)
    ensures
        Json::view_items(items@) == links_v(links@),
{
    let mut items: Vec<Json> = Vec::new();
    let mut i: usize = 0;
    while i < links.len()
        invariant
            i <= links.len(),
            Json::view_items(items@) == links_v(links@.take(i as int)),
        decreases links.len() - i,
    {
        let ghost before = items@;
        items.push(link_json(&links[i]));
        proof {
            assert(items@.drop_last() =~= before);
            assert(links@.take(i + 1).drop_last() =~= links@.take(i as int));
        }
        i += 1;
    }
    proof {
        assert(links@.take(links.len() as int) =~= links@);
    }
    items
}

/// A grid position as Grafana stores it.
pub open spec fn grid_v(g: GridPos) -> JsonV {
    JsonV::Object(
        Seq::empty().push(("x"@, JsonV::UInt(g.x as u64))).push(
            ("y"@, JsonV::UInt(g.y as u64)),
        ).push(("w"@, JsonV::UInt(g.width as u64))).push(("h"@, JsonV::UInt(g.height as u64))),
        Map::empty(),
    )
}

/// Lowers a grid position.
pub fn grid_json(g: GridPos) -> (j: Json)
    ensures
        j@ == grid_v(g),
{
    let mut b = ObjectBuilder::new();
    b.insert("x", Json::UInt(g.x as u64));
    b.insert("y", Json::UInt(g.y as u64));
    b.insert("w", Json::UInt(g.width as u64));
    b.insert("h", Json::UInt(g.height as u64));
    b.finish()
}

/// An empty key-sorted map.
pub fn empty_dict() -> (j: Json)
    ensures
        j@ == JsonV::Dict(Map::empty()),
{
    DictBuilder::new().finish()
}

} // verus!
