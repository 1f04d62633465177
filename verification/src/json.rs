//! The JSON document model the library lowers dashboards into.
//!
//! Two object shapes exist, because Grafana's wire format mixes them:
//! `Object` keeps its entries in the written order (the shape of a record
//! with named fields), while `Dict` is a string-keyed map whose entries are
//! emitted sorted by key, a later entry replacing an earlier one with the
//! same key. Escape-hatch values supplied by callers are carried as
//! `serde_json::Value` without being inspected.
use vstd::prelude::*;

verus! {

#[verifier::external_type_specification]
#[verifier::external_body]
pub struct ExValue(serde_json::Value);

/// `serde_json::Value` derives `Clone`, so a clone is the same value.
pub assume_specification[ <serde_json::Value as Clone>::clone ](value: &serde_json::Value) -> (copy: serde_json::Value)
    ensures
        copy == *value,
;

/// A JSON value produced by lowering.
#[derive(Debug, PartialEq)]
pub enum Json {
    /// `null`.
    Null,
    /// `true` or `false`.
    Bool(bool),
    /// A non-negative integer.
    UInt(u64),
    /// A double, held by its IEEE-754 bit pattern; a non-finite one is
    /// written as `null`.
    Float(u64),
    /// A string.
    Str(String),
    /// An array.
    Array(Vec<Json>),
    /// An object whose named entries are written in this order, followed by
    /// the entries of a flattened map, written sorted by key.
    Object(Vec<(String, Json)>, Vec<(String, Json)>),
    /// A map written sorted by key; a later entry replaces an earlier one.
    Dict(Vec<(String, Json)>),
    /// An uninspected caller-supplied value.
    Raw(serde_json::Value),
}

/// The mathematical model of a [`Json`] value.
pub enum JsonV {
    Null,
    Bool(bool),
    UInt(u64),
    Float(u64),
    Str(Seq<char>),
    Array(Seq<JsonV>),
    Object(Seq<(Seq<char>, JsonV)>, Map<Seq<char>, JsonV>),
    Dict(Map<Seq<char>, JsonV>),
    Raw(serde_json::Value),
}

/// The map that a sequence of entries denotes when later entries replace
/// earlier ones.
pub open spec fn entries_to_map(entries: Seq<(Seq<char>, JsonV)>) -> Map<Seq<char>, JsonV>
    decreases entries.len(),
{
    if entries.len() == 0 {
        Map::empty()
    } else {
        entries_to_map(entries.drop_last()).insert(entries.last().0, entries.last().1)
    }
}


/// The value of the last of `entries` with key `key`.
pub open spec fn lookup(entries: Seq<(Seq<char>, JsonV)>, key: Seq<char>) -> Option<JsonV>
    decreases entries.len(),
{
    if entries.len() == 0 {
        None
    } else if entries.last().0 == key {
        Some(entries.last().1)
    } else {
        lookup(entries.drop_last(), key)
    }
}

/// The value a JSON object gives `key` among its own entries, or a
/// dictionary gives it.
pub open spec fn entry_of(j: JsonV, key: Seq<char>) -> Option<JsonV> {
    match j {
        JsonV::Object(entries, _) => lookup(entries, key),
        JsonV::Dict(m) => if m.contains_key(key) {
            Some(m[key])
        } else {
            None
        },
        _ => None,
    }
}

/// A later entry decides its key; other keys keep their values.
pub proof fn lemma_lookup_push(entries: Seq<(Seq<char>, JsonV)>, k: Seq<char>, v: JsonV, key: Seq<char>)
    ensures
        lookup(entries.push((k, v)), key) == if k == key {
            Some(v)
        } else {
            lookup(entries, key)
        },
{
    assert(entries.push((k, v)).drop_last() =~= entries);
}

/// The map that caller-supplied entries denote, a later entry replacing an
/// earlier one with the same key.
pub open spec fn raw_map(entries: Seq<(String, serde_json::Value)>) -> Map<Seq<char>, JsonV>
    decreases entries.len(),
{
    if entries.len() == 0 {
        Map::empty()
    } else {
        raw_map(entries.drop_last()).insert(entries.last().0@, JsonV::Raw(entries.last().1))
    }
}

/// Records a caller-supplied entry; it replaces any earlier one with the
/// same key.
pub fn raw_insert(entries: &mut Vec<(String, serde_json::Value)>, key: &str, value: serde_json::Value)
    ensures
        raw_map(final(entries)@) == raw_map(old(entries)@).insert(key@, JsonV::Raw(value)),
{
    let ghost before = entries@;
    entries.push((key.to_string(), value));
    proof {
        assert(entries@.drop_last() =~= before);
    }
}

/// Copies caller-supplied entries.
pub fn copy_raw(entries: &Vec<(String, serde_json::Value)>) -> (copy: Vec<(String, serde_json::Value)>)
    ensures
        raw_map(copy@) == raw_map(entries@),
{
    let mut copy: Vec<(String, serde_json::Value)> = Vec::new();
    let mut i: usize = 0;
    while i < entries.len()
        invariant
            i <= entries.len(),
            raw_map(copy@) == raw_map(entries@.take(i as int)),
        decreases entries.len() - i,
    {
        let ghost before = copy@;
        copy.push((entries[i].0.clone(), entries[i].1.clone()));
        proof {
            assert(copy@.drop_last() =~= before);
            assert(entries@.take(i + 1).drop_last() =~= entries@.take(i as int));
        }
        i += 1;
    }
    proof {
        assert(entries@.take(entries.len() as int) =~= entries@);
    }
    copy
}

impl Json {
    pub open spec fn view_items(items: Seq<Json>) -> Seq<JsonV>
        decreases items,
    {
        if items.len() == 0 {
            Seq::empty()
        } else {
            Self::view_items(items.drop_last()).push(items.last().view_json())
        }
    }

    pub open spec fn view_entries(entries: Seq<(String, Json)>) -> Seq<(Seq<char>, JsonV)>
        decreases entries,
    {
        if entries.len() == 0 {
            Seq::empty()
        } else {
            Self::view_entries(entries.drop_last()).push(
                (entries.last().0@, entries.last().1.view_json()),
            )
        }
    }

    pub open spec fn view_json(&self) -> JsonV
        decreases self,
    {
        match self {
            Json::Null => JsonV::Null,
            Json::Bool(b) => JsonV::Bool(*b),
            Json::UInt(n) => JsonV::UInt(*n),
            Json::Float(bits) => JsonV::Float(*bits),
            Json::Str(s) => JsonV::Str(s@),
            Json::Array(items) => JsonV::Array(Self::view_items(items@)),
            Json::Object(entries, flattened) => JsonV::Object(
                Self::view_entries(entries@),
                entries_to_map(Self::view_entries(flattened@)),
            ),
            Json::Dict(entries) => JsonV::Dict(entries_to_map(Self::view_entries(entries@))),
            Json::Raw(value) => JsonV::Raw(*value),
        }
    }

    /// A JSON string holding `s`.
    pub fn str(s: &str) -> (j: Json)
        ensures
            j@ == JsonV::Str(s@),
    {
        Json::Str(s.to_string())
    }

    /// A JSON string holding a copy of `s`.
    pub fn string(s: &String) -> (j: Json)
        ensures
            j@ == JsonV::Str(s@),
    {
        Json::Str(s.clone())
    }

    /// A JSON string for an optional text, or `null`.
    pub fn opt_string(s: &Option<String>) -> (j: Json)
        ensures
            j@ == opt_str_v(*s),
    {
        match s {
            Some(text) => Json::Str(text.clone()),
            None => Json::Null,
        }
    }

    /// An array of JSON strings copied from `items`.
    pub fn strings(items: &Vec<String>) -> (j: Json)
        ensures
            j@ == JsonV::Array(strs_v(items@)),
    {
        let mut array = ArrayBuilder::new();
        let mut i: usize = 0;
        while i < items.len()
            invariant
                i <= items.len(),
                array.items_v() == strs_v(items@.take(i as int)),
            decreases items.len() - i,
        {
            array.push(Json::string(&items[i]));
            proof {
                assert(items@.take(i + 1).drop_last() =~= items@.take(i as int));
            }
            i += 1;
        }
        proof {
            assert(items@.take(items.len() as int) =~= items@);
        }
        array.finish()
    }
}

/// The model of an optional text lowered to a string or `null`.
pub open spec fn opt_str_v(s: Option<String>) -> JsonV {
    match s {
        Some(text) => JsonV::Str(text@),
        None => JsonV::Null,
    }
}

/// The models of JSON strings holding `items`.
pub open spec fn strs_v(items: Seq<String>) -> Seq<JsonV>
    decreases items.len(),
{
    if items.len() == 0 {
        Seq::empty()
    } else {
        strs_v(items.drop_last()).push(JsonV::Str(items.last()@))
    }
}

impl View for Json {
    type V = JsonV;

    open spec fn view(&self) -> JsonV {
        self.view_json()
    }
}

/// Accumulates the elements of a JSON array.
pub struct ArrayBuilder {
    pub items: Vec<Json>,
}

impl ArrayBuilder {
    pub open spec fn items_v(&self) -> Seq<JsonV> {
        Json::view_items(self.items@)
    }

    pub fn new() -> (b: ArrayBuilder)
        ensures
            b.items_v() == Seq::<JsonV>::empty(),
    {
        ArrayBuilder { items: Vec::new() }
    }

    pub fn push(&mut self, value: Json)
        ensures
            final(self).items_v() == old(self).items_v().push(value@),
    {
        let ghost before = self.items@;
        self.items.push(value);
        proof {
            assert(self.items@.drop_last() =~= before);
        }
    }

    pub fn finish(self) -> (j: Json)
        ensures
            j@ == JsonV::Array(self.items_v()),
    {
        Json::Array(self.items)
    }
}

/// Accumulates the entries of a JSON object written in order.
pub struct ObjectBuilder {
    pub entries: Vec<(String, Json)>,
}

impl ObjectBuilder {
    pub open spec fn entries_v(&self) -> Seq<(Seq<char>, JsonV)> {
        Json::view_entries(self.entries@)
    }

    pub fn new() -> (b: ObjectBuilder)
        ensures
            b.entries_v() == Seq::<(Seq<char>, JsonV)>::empty(),
    {
        ObjectBuilder { entries: Vec::new() }
    }

    pub fn insert(&mut self, key: &str, value: Json)
        ensures
            final(self).entries_v() == old(self).entries_v().push((key@, value@)),
    {
        let ghost before = self.entries@;
        self.entries.push((key.to_string(), value));
        proof {
            assert(self.entries@.drop_last() =~= before);
        }
    }

    pub fn insert_string(&mut self, key: String, value: Json)
        ensures
            final(self).entries_v() == old(self).entries_v().push((key@, value@)),
    {
        let ghost before = self.entries@;
        self.entries.push((key, value));
        proof {
            assert(self.entries@.drop_last() =~= before);
        }
    }

    pub fn finish(self) -> (j: Json)
        ensures
            j@ == JsonV::Object(self.entries_v(), Map::empty()),
    {
        Json::Object(self.entries, Vec::new())
    }

    /// Finishes the object with the entries of `flattened` after its own.
    pub fn finish_flattened(self, flattened: DictBuilder) -> (j: Json)
        ensures
            j@ == JsonV::Object(self.entries_v(), flattened.map_v()),
    {
        Json::Object(self.entries, flattened.entries)
    }
}

/// Accumulates the entries of a key-sorted JSON map.
pub struct DictBuilder {
    pub entries: Vec<(String, Json)>,
}

impl DictBuilder {
    pub open spec fn map_v(&self) -> Map<Seq<char>, JsonV> {
        entries_to_map(Json::view_entries(self.entries@))
    }

    pub fn new() -> (b: DictBuilder)
        ensures
            b.map_v() == Map::<Seq<char>, JsonV>::empty(),
    {
        DictBuilder { entries: Vec::new() }
    }

    pub fn insert(&mut self, key: &str, value: Json)
        ensures
            final(self).map_v() == old(self).map_v().insert(key@, value@),
    {
        self.insert_string(key.to_string(), value);
    }

    pub fn insert_string(&mut self, key: String, value: Json)
        ensures
            final(self).map_v() == old(self).map_v().insert(key@, value@),
    {
        let ghost before = self.entries@;
        self.entries.push((key, value));
        proof {
            assert(self.entries@.drop_last() =~= before);
            assert(Json::view_entries(self.entries@).drop_last() =~= Json::view_entries(before));
        }
    }

    /// Adds every caller-supplied entry, each replacing an earlier one with
    /// the same key.
    pub fn extend_raw(&mut self, entries: &Vec<(String, serde_json::Value)>)
        ensures
            final(self).map_v() == old(self).map_v().union_prefer_right(raw_map(entries@)),
    {
        let mut i: usize = 0;
        while i < entries.len()
            invariant
                i <= entries.len(),
                self.map_v() == old(self).map_v().union_prefer_right(raw_map(entries@.take(i as int))),
            decreases entries.len() - i,
        {
            let ghost prior = raw_map(entries@.take(i as int));
            self.insert_string(entries[i].0.clone(), Json::Raw(entries[i].1.clone()));
            proof {
                assert(entries@.take(i + 1).drop_last() =~= entries@.take(i as int));
                assert(old(self).map_v().union_prefer_right(
                    prior.insert(entries@[i as int].0@, JsonV::Raw(entries@[i as int].1)),
                ) =~= old(self).map_v().union_prefer_right(prior).insert(
                    entries@[i as int].0@,
                    JsonV::Raw(entries@[i as int].1),
                ));
            }
            i += 1;
        }
        proof {
            assert(entries@.take(entries.len() as int) =~= entries@);
        }
    }

    /// Adds every entry of `other`, each replacing an earlier one with the
    /// same key.
    pub fn extend(&mut self, other: DictBuilder)
        ensures
            final(self).map_v() == old(self).map_v().union_prefer_right(other.map_v()),
    {
        let mut rest = other.entries;
        let ghost all = rest@;
        let ghost mut k: int = 0;
        while rest.len() > 0
            invariant
                0 <= k <= all.len(),
                k + rest@.len() == all.len(),
                rest@ =~= all.skip(k),
                self.map_v() == old(self).map_v().union_prefer_right(
                    entries_to_map(Json::view_entries(all.take(k))),
                ),
            decreases rest.len(),
        {
            let entry = rest.remove(0);
            proof {
                assert(entry == all[k]);
            }
            let ghost prior = entries_to_map(Json::view_entries(all.take(k)));
            let ghost key = entry.0@;
            let ghost value = entry.1@;
            self.insert_string(entry.0, entry.1);
            proof {
                assert(all.take(k + 1).drop_last() =~= all.take(k));
                assert(Json::view_entries(all.take(k + 1)).drop_last() =~= Json::view_entries(
                    all.take(k),
                ));
                assert(old(self).map_v().union_prefer_right(prior.insert(key, value))
                    =~= old(self).map_v().union_prefer_right(prior).insert(key, value));
                k = k + 1;
                assert(rest@ =~= all.skip(k));
            }
        }
        proof {
            assert(all.take(all.len() as int) =~= all);
        }
    }

    /// Whether no entry has been added.
    pub fn is_empty(&self) -> (b: bool)
        ensures
            b == (self.map_v() == Map::<Seq<char>, JsonV>::empty()),
    {
        proof {
            let entries = Json::view_entries(self.entries@);
            if self.entries@.len() > 0 {
                assert(entries.len() > 0);
                assert(entries_to_map(entries).dom().contains(entries.last().0));
            } else {
                assert(entries.len() == 0);
            }
        }
        self.entries.len() == 0
    }

    pub fn finish(self) -> (j: Json)
        ensures
            j@ == JsonV::Dict(self.map_v()),
    {
        Json::Dict(self.entries)
    }
}

} // verus!
