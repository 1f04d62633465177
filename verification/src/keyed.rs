//! String-keyed entry lists that hold each key at most once, the
//! representation of the library's ordered maps.
use vstd::prelude::*;

use crate::text::views;

verus! {

/// The map an entry list denotes.
pub open spec fn kv_map<V>(entries: Seq<(String, V)>) -> Map<Seq<char>, V>
    decreases entries.len(),
{
    if entries.len() == 0 {
        Map::empty()
    } else {
        kv_map(entries.drop_last()).insert(entries.last().0@, entries.last().1)
    }
}

/// Whether no key occurs twice.
pub open spec fn keys_unique<V>(entries: Seq<(String, V)>) -> bool {
    forall|i: int, j: int|
        0 <= i < j < entries.len() ==> (#[trigger] entries[i]).0@ != (#[trigger] entries[j]).0@
}

/// The domain of the denoted map is the set of keys.
pub proof fn lemma_kv_map_dom<V>(entries: Seq<(String, V)>, key: Seq<char>)
    ensures
        kv_map(entries).contains_key(key) <==> exists|i: int|
            0 <= i < entries.len() && (#[trigger] entries[i]).0@ == key,
    decreases entries.len(),
{
    if entries.len() > 0 {
        let prefix = entries.drop_last();
        lemma_kv_map_dom(prefix, key);
        if kv_map(entries).contains_key(key) {
            if entries.last().0@ == key {
                assert(entries[entries.len() - 1].0@ == key);
            } else {
                let i = choose|i: int| 0 <= i < prefix.len() && (#[trigger] prefix[i]).0@ == key;
                assert(entries[i] == prefix[i]);
            }
        }
        if exists|i: int| 0 <= i < entries.len() && (#[trigger] entries[i]).0@ == key {
            let i = choose|i: int| 0 <= i < entries.len() && (#[trigger] entries[i]).0@ == key;
            if i < entries.len() - 1 {
                assert(prefix[i] == entries[i]);
            }
        }
    }
}

/// With unique keys, the entry holding a key gives that key's value.
pub proof fn lemma_kv_map_at<V>(entries: Seq<(String, V)>, i: int)
    requires
        keys_unique(entries),
        0 <= i < entries.len(),
    ensures
        kv_map(entries).contains_key(entries[i].0@),
        kv_map(entries)[entries[i].0@] == entries[i].1,
    decreases entries.len(),
{
    let prefix = entries.drop_last();
    if i < entries.len() - 1 {
        assert(keys_unique(prefix)) by {
            assert forall|a: int, b: int| 0 <= a < b < prefix.len() implies (#[trigger] prefix[a]).0@
                != (#[trigger] prefix[b]).0@ by {
                assert(prefix[a] == entries[a] && prefix[b] == entries[b]);
            }
        }
        lemma_kv_map_at(prefix, i);
        assert(entries[i] == prefix[i]);
        assert(entries[i].0@ != entries[entries.len() - 1].0@);
    }
}

/// Replacing the value of an existing key updates the denoted map.
pub proof fn lemma_kv_map_update<V>(entries: Seq<(String, V)>, i: int, value: V)
    requires
        keys_unique(entries),
        0 <= i < entries.len(),
    ensures
        keys_unique(entries.update(i, (entries[i].0, value))),
        kv_map(entries.update(i, (entries[i].0, value))) == kv_map(entries).insert(
            entries[i].0@,
            value,
        ),
    decreases entries.len(),
{
    let updated = entries.update(i, (entries[i].0, value));
    assert forall|a: int, b: int| 0 <= a < b < updated.len() implies (#[trigger] updated[a]).0@
        != (#[trigger] updated[b]).0@ by {
        assert(updated[a].0 == entries[a].0 && updated[b].0 == entries[b].0);
    }
    let prefix = entries.drop_last();
    assert(keys_unique(prefix)) by {
        assert forall|a: int, b: int| 0 <= a < b < prefix.len() implies (#[trigger] prefix[a]).0@
            != (#[trigger] prefix[b]).0@ by {
            assert(prefix[a] == entries[a] && prefix[b] == entries[b]);
        }
    }
    if i == entries.len() - 1 {
        assert(updated.drop_last() =~= prefix);
        lemma_kv_map_dom(prefix, entries[i].0@);
        assert(kv_map(updated) =~= kv_map(entries).insert(entries[i].0@, value));
    } else {
        lemma_kv_map_update(prefix, i, value);
        assert(updated.drop_last() =~= prefix.update(i, (prefix[i].0, value)));
        assert(entries[i].0@ != entries.last().0@) by {
            assert(entries[i] == entries[i]);
            assert(entries.last() == entries[entries.len() - 1]);
        }
        assert(kv_map(updated) =~= kv_map(entries).insert(entries[i].0@, value));
    }
}

/// Strict lexicographic order on character sequences, by code point: the
/// order of `String` comparison.
pub open spec fn text_less(a: Seq<char>, b: Seq<char>) -> bool
    decreases a.len(),
{
    if b.len() == 0 {
        false
    } else if a.len() == 0 {
        true
    } else if a[0] == b[0] {
        text_less(a.drop_first(), b.drop_first())
    } else {
        (a[0] as u32) < (b[0] as u32)
    }
}

proof fn lemma_char_u32_injective(x: char, y: char)
    requires
        x as u32 == y as u32,
    ensures
        x == y,
{
    vstd::utf8::char_u32_cast(x, x as u32);
    vstd::utf8::char_u32_cast(y, y as u32);
}

/// No sequence is less than itself.
pub proof fn lemma_text_less_irreflexive(a: Seq<char>)
    ensures
        !text_less(a, a),
    decreases a.len(),
{
    if a.len() > 0 {
        lemma_text_less_irreflexive(a.drop_first());
    }
}

/// The order is transitive.
pub proof fn lemma_text_less_transitive(a: Seq<char>, b: Seq<char>, c: Seq<char>)
    requires
        text_less(a, b),
        text_less(b, c),
    ensures
        text_less(a, c),
    decreases a.len(),
{
    if a.len() > 0 && b.len() > 0 && c.len() > 0 {
        if a[0] == b[0] && b[0] == c[0] {
            lemma_text_less_transitive(a.drop_first(), b.drop_first(), c.drop_first());
        } else if a[0] == c[0] {
            lemma_char_u32_injective(a[0], c[0]);
        } else if (a[0] as u32) == (c[0] as u32) {
            lemma_char_u32_injective(a[0], c[0]);
        }
    }
}

/// Any two different sequences are ordered one way or the other.
pub proof fn lemma_text_less_total(a: Seq<char>, b: Seq<char>)
    requires
        a != b,
    ensures
        text_less(a, b) || text_less(b, a),
    decreases a.len(),
{
    if a.len() == 0 && b.len() == 0 {
        assert(a =~= b);
    } else if a.len() > 0 && b.len() > 0 {
        if a[0] == b[0] {
            if a.drop_first() == b.drop_first() {
                assert(a =~= seq![a[0]] + a.drop_first());
                assert(b =~= seq![b[0]] + b.drop_first());
            }
            lemma_text_less_total(a.drop_first(), b.drop_first());
        } else if (a[0] as u32) == (b[0] as u32) {
            lemma_char_u32_injective(a[0], b[0]);
        }
    }
}

/// Whether `a` orders before `b`.
pub fn text_lt(a: &str, b: &str) -> (r: bool)
    ensures
        r == text_less(a@, b@),
{
    let n = a.unicode_len();
    let m = b.unicode_len();
    let mut i: usize = 0;
    assert(a@.skip(0) =~= a@ && b@.skip(0) =~= b@);
    while i < n && i < m
        invariant
            n == a@.len(),
            m == b@.len(),
            i <= n,
            i <= m,
            text_less(a@, b@) == text_less(a@.skip(i as int), b@.skip(i as int)),
        decreases n - i,
    {
        let x = a.get_char(i);
        let y = b.get_char(i);
        proof {
            assert(a@.skip(i as int)[0] == x);
            assert(b@.skip(i as int)[0] == y);
            assert(a@.skip(i as int).drop_first() =~= a@.skip(i + 1));
            assert(b@.skip(i as int).drop_first() =~= b@.skip(i + 1));
        }
        if x != y {
            return (x as u32) < (y as u32);
        }
        i += 1;
    }
    i == n && i < m
}

/// Whether the keys strictly increase.
pub open spec fn keys_sorted<V>(entries: Seq<(String, V)>) -> bool {
    forall|i: int, j: int|
        0 <= i < j < entries.len() ==> text_less(
            (#[trigger] entries[i]).0@,
            (#[trigger] entries[j]).0@,
        )
}

/// Sorted keys are unique.
pub proof fn lemma_sorted_keys_unique<V>(entries: Seq<(String, V)>)
    requires
        keys_sorted(entries),
    ensures
        keys_unique(entries),
{
    assert forall|i: int, j: int| 0 <= i < j < entries.len() implies (#[trigger] entries[i]).0@
        != (#[trigger] entries[j]).0@ by {
        lemma_text_less_irreflexive(entries[i].0@);
    }
}


/// Where `key` sits among ordered entries, or the position that keeps them
/// ordered once it is added there.
pub fn locate_key<V>(entries: &Vec<(String, V)>, key: &str) -> (r: Result<usize, usize>)
    requires
        keys_sorted(entries@),
    ensures
        match r {
            Ok(i) => i < entries@.len() && entries@[i as int].0@ == key@,
            Err(i) => {
                &&& i <= entries@.len()
                &&& forall|k: int| 0 <= k < i ==> text_less((#[trigger] entries@[k]).0@, key@)
                &&& forall|k: int|
                    i <= k < entries@.len() ==> text_less(key@, (#[trigger] entries@[k]).0@)
            },
        },
{
    let wanted = key.to_string();
    let mut i: usize = 0;
    while i < entries.len()
        invariant
            i <= entries@.len(),
            wanted@ == key@,
            keys_sorted(entries@),
            forall|k: int| 0 <= k < i ==> text_less((#[trigger] entries@[k]).0@, key@),
        decreases entries@.len() - i,
    {
        if entries[i].0 == wanted {
            return Ok(i);
        }
        if text_lt(key, entries[i].0.as_str()) {
            proof {
                assert forall|k: int| i <= k < entries@.len() implies text_less(
                    key@,
                    (#[trigger] entries@[k]).0@,
                ) by {
                    if k > i {
                        lemma_text_less_transitive(key@, entries@[i as int].0@, entries@[k].0@);
                    }
                }
            }
            return Err(i);
        }
        proof {
            lemma_text_less_total(key@, entries@[i as int].0@);
        }
        i += 1;
    }
    Err(i)
}

/// With unique keys, the denoted map holds exactly the keys, each with its
/// entry's value.
proof fn lemma_kv_map_unique<V>(entries: Seq<(String, V)>)
    requires
        keys_unique(entries),
    ensures
        forall|x: Seq<char>|
            #[trigger] kv_map(entries).contains_key(x) <==> exists|i: int|
                0 <= i < entries.len() && (#[trigger] entries[i]).0@ == x,
        forall|i: int|
            0 <= i < entries.len() ==> kv_map(entries)[(#[trigger] entries[i]).0@] == entries[i].1,
{
    assert forall|x: Seq<char>| #[trigger] kv_map(entries).contains_key(x) <==> exists|i: int|
        0 <= i < entries.len() && (#[trigger] entries[i]).0@ == x by {
        lemma_kv_map_dom(entries, x);
    }
    assert forall|i: int| 0 <= i < entries.len() implies kv_map(entries)[(
    #[trigger] entries[i]).0@] == entries[i].1 by {
        lemma_kv_map_at(entries, i);
    }
}

/// Adding a new key at its ordered position keeps the keys ordered and adds
/// it to the denoted map.
pub proof fn lemma_kv_map_insert_sorted<V>(entries: Seq<(String, V)>, i: int, key: String, value: V)
    requires
        keys_sorted(entries),
        0 <= i <= entries.len(),
        forall|k: int| 0 <= k < i ==> text_less((#[trigger] entries[k]).0@, key@),
        forall|k: int| i <= k < entries.len() ==> text_less(key@, (#[trigger] entries[k]).0@),
    ensures
        keys_sorted(entries.insert(i, (key, value))),
        kv_map(entries.insert(i, (key, value))) == kv_map(entries).insert(key@, value),
{
    let e2 = entries.insert(i, (key, value));
    assert forall|a: int, b: int| 0 <= a < b < e2.len() implies text_less(
        (#[trigger] e2[a]).0@,
        (#[trigger] e2[b]).0@,
    ) by {
        if b < i {
            assert(e2[a] == entries[a] && e2[b] == entries[b]);
        } else if b == i {
            assert(e2[a] == entries[a]);
        } else if a < i {
            assert(e2[a] == entries[a] && e2[b] == entries[b - 1]);
            lemma_text_less_transitive(entries[a].0@, key@, entries[b - 1].0@);
        } else if a == i {
            assert(e2[b] == entries[b - 1]);
        } else {
            assert(e2[a] == entries[a - 1] && e2[b] == entries[b - 1]);
        }
    }
    lemma_sorted_keys_unique(entries);
    lemma_sorted_keys_unique(e2);
    lemma_kv_map_unique(entries);
    lemma_kv_map_unique(e2);
    assert(e2[i] == (key, value));
    assert forall|x: Seq<char>| #[trigger] kv_map(e2).contains_key(x) <==> kv_map(entries).insert(
        key@,
        value,
    ).contains_key(x) by {
        if kv_map(e2).contains_key(x) && x != key@ {
            let j = choose|j: int| 0 <= j < e2.len() && (#[trigger] e2[j]).0@ == x;
            if j < i {
                assert(e2[j] == entries[j]);
            } else {
                assert(e2[j] == entries[j - 1]);
            }
        }
        if kv_map(entries).contains_key(x) {
            let j = choose|j: int| 0 <= j < entries.len() && (#[trigger] entries[j]).0@ == x;
            if j < i {
                assert(e2[j] == entries[j]);
            } else {
                assert(e2[j + 1] == entries[j]);
            }
        }
    }
    assert forall|x: Seq<char>| #[trigger] kv_map(e2).contains_key(x) implies kv_map(e2)[x]
        == kv_map(entries).insert(key@, value)[x] by {
        if x != key@ {
            let j = choose|j: int| 0 <= j < e2.len() && (#[trigger] e2[j]).0@ == x;
            if j < i {
                assert(e2[j] == entries[j]);
            } else {
                assert(e2[j] == entries[j - 1]);
            }
        }
    }
    assert(kv_map(e2) =~= kv_map(entries).insert(key@, value));
}

/// Replacing the value of an existing key keeps the keys ordered.
pub proof fn lemma_update_keeps_sorted<V>(entries: Seq<(String, V)>, i: int, value: V)
    requires
        keys_sorted(entries),
        0 <= i < entries.len(),
    ensures
        keys_sorted(entries.update(i, (entries[i].0, value))),
{
    let e2 = entries.update(i, (entries[i].0, value));
    assert forall|a: int, b: int| 0 <= a < b < e2.len() implies text_less(
        (#[trigger] e2[a]).0@,
        (#[trigger] e2[b]).0@,
    ) by {
        assert(e2[a].0 == entries[a].0 && e2[b].0 == entries[b].0);
    }
}

/// An ordered entry list is determined by the map it denotes: two ordered
/// lists that denote the same map hold the same keys and values at every
/// position, whatever order the entries were added in.
pub proof fn lemma_sorted_entries_canonical<V>(a: Seq<(String, V)>, b: Seq<(String, V)>)
    requires
        keys_sorted(a),
        keys_sorted(b),
        kv_map(a) == kv_map(b),
    ensures
        a.len() == b.len(),
        forall|i: int| 0 <= i < a.len() ==> (#[trigger] a[i]).0@ == b[i].0@ && a[i].1 == b[i].1,
    decreases a.len(),
{
    lemma_sorted_keys_unique(a);
    lemma_sorted_keys_unique(b);
    lemma_kv_map_unique(a);
    lemma_kv_map_unique(b);
    if a.len() == 0 || b.len() == 0 {
        if a.len() > 0 {
            assert(kv_map(a).contains_key(a[0].0@));
        }
        if b.len() > 0 {
            assert(kv_map(b).contains_key(b[0].0@));
        }
    } else {
        let la = a.last();
        let lb = b.last();
        assert(a[a.len() - 1] == la && b[b.len() - 1] == lb);
        assert(kv_map(b).contains_key(la.0@));
        assert(kv_map(a).contains_key(lb.0@));
        let ja = choose|j: int| 0 <= j < b.len() && (#[trigger] b[j]).0@ == la.0@;
        let jb = choose|j: int| 0 <= j < a.len() && (#[trigger] a[j]).0@ == lb.0@;
        if la.0@ != lb.0@ {
            assert(ja < b.len() - 1);
            assert(jb < a.len() - 1);
            assert(text_less(la.0@, lb.0@));
            assert(text_less(lb.0@, la.0@));
            lemma_text_less_transitive(la.0@, lb.0@, la.0@);
            lemma_text_less_irreflexive(la.0@);
        }
        assert(la.1 == lb.1);
        let pa = a.drop_last();
        let pb = b.drop_last();
        assert(keys_sorted(pa)) by {
            assert forall|x: int, y: int| 0 <= x < y < pa.len() implies text_less(
                (#[trigger] pa[x]).0@,
                (#[trigger] pa[y]).0@,
            ) by {
                assert(pa[x] == a[x] && pa[y] == a[y]);
            }
        }
        assert(keys_sorted(pb)) by {
            assert forall|x: int, y: int| 0 <= x < y < pb.len() implies text_less(
                (#[trigger] pb[x]).0@,
                (#[trigger] pb[y]).0@,
            ) by {
                assert(pb[x] == b[x] && pb[y] == b[y]);
            }
        }
        lemma_sorted_keys_unique(pa);
        lemma_sorted_keys_unique(pb);
        lemma_kv_map_dom(pa, la.0@);
        lemma_kv_map_dom(pb, lb.0@);
        if kv_map(pa).contains_key(la.0@) {
            let j = choose|j: int| 0 <= j < pa.len() && (#[trigger] pa[j]).0@ == la.0@;
            assert(pa[j] == a[j]);
        }
        if kv_map(pb).contains_key(lb.0@) {
            let j = choose|j: int| 0 <= j < pb.len() && (#[trigger] pb[j]).0@ == lb.0@;
            assert(pb[j] == b[j]);
        }
        assert(kv_map(pa) =~= kv_map(a).remove(la.0@));
        assert(kv_map(pb) =~= kv_map(b).remove(lb.0@));
        lemma_sorted_entries_canonical(pa, pb);
        assert forall|i: int| 0 <= i < a.len() implies (#[trigger] a[i]).0@ == b[i].0@ && a[i].1
            == b[i].1 by {
            if i < a.len() - 1 {
                assert(a[i] == pa[i] && b[i] == pb[i]);
            }
        }
    }
}


/// Whether the texts strictly increase.
pub open spec fn texts_sorted(items: Seq<Seq<char>>) -> bool {
    forall|i: int, j: int|
        0 <= i < j < items.len() ==> text_less(#[trigger] items[i], #[trigger] items[j])
}

/// Where `key` sits among ordered strings, or the position that keeps them
/// ordered once it is added there.
pub fn locate_text(items: &Vec<String>, key: &str) -> (r: Result<usize, usize>)
    requires
        texts_sorted(views(items@)),
    ensures
        match r {
            Ok(i) => i < items@.len() && items@[i as int]@ == key@,
            Err(i) => {
                &&& i <= items@.len()
                &&& forall|k: int| 0 <= k < i ==> text_less((#[trigger] items@[k])@, key@)
                &&& forall|k: int| i <= k < items@.len() ==> text_less(key@, (#[trigger] items@[k])@)
            },
        },
{
    let wanted = key.to_string();
    let mut i: usize = 0;
    while i < items.len()
        invariant
            i <= items@.len(),
            wanted@ == key@,
            texts_sorted(views(items@)),
            forall|k: int| 0 <= k < i ==> text_less((#[trigger] items@[k])@, key@),
        decreases items@.len() - i,
    {
        if items[i] == wanted {
            return Ok(i);
        }
        if text_lt(key, items[i].as_str()) {
            proof {
                assert forall|k: int| i <= k < items@.len() implies text_less(
                    key@,
                    (#[trigger] items@[k])@,
                ) by {
                    if k > i {
                        assert(views(items@)[i as int] == items@[i as int]@);
                        assert(views(items@)[k] == items@[k]@);
                        lemma_text_less_transitive(key@, items@[i as int]@, items@[k]@);
                    }
                }
            }
            return Err(i);
        }
        proof {
            lemma_text_less_total(key@, items@[i as int]@);
        }
        i += 1;
    }
    Err(i)
}

/// Adding a new string at its ordered position keeps the strings ordered
/// and adds it to their set.
pub proof fn lemma_texts_insert_sorted(items: Seq<String>, i: int, s: String)
    requires
        texts_sorted(views(items)),
        0 <= i <= items.len(),
        forall|k: int| 0 <= k < i ==> text_less((#[trigger] items[k])@, s@),
        forall|k: int| i <= k < items.len() ==> text_less(s@, (#[trigger] items[k])@),
    ensures
        texts_sorted(views(items.insert(i, s))),
        views(items.insert(i, s)).to_set() == views(items).to_set().insert(s@),
{
    let v = views(items);
    let v2 = views(items.insert(i, s));
    assert(v2 =~= v.insert(i, s@));
    assert forall|a: int, b: int| 0 <= a < b < v2.len() implies text_less(
        #[trigger] v2[a],
        #[trigger] v2[b],
    ) by {
        if b < i {
            assert(v2[a] == items[a]@ && v2[b] == items[b]@);
        } else if b == i {
            assert(v2[a] == items[a]@);
        } else if a < i {
            assert(v2[a] == items[a]@ && v2[b] == items[b - 1]@);
            lemma_text_less_transitive(items[a]@, s@, items[b - 1]@);
        } else if a == i {
            assert(v2[b] == items[b - 1]@);
        } else {
            assert(v2[a] == items[a - 1]@ && v2[b] == items[b - 1]@);
            assert(v[a - 1] == items[a - 1]@ && v[b - 1] == items[b - 1]@);
        }
    }
    assert forall|x: Seq<char>| v2.to_set().contains(x) <==> v.to_set().insert(s@).contains(x) by {
        if v2.contains(x) {
            let j = choose|j: int| 0 <= j < v2.len() && v2[j] == x;
            if j < i {
                assert(v[j] == x);
            } else if j > i {
                assert(v[j - 1] == x);
            }
        }
        if v.contains(x) {
            let j = choose|j: int| 0 <= j < v.len() && v[j] == x;
            if j < i {
                assert(v2[j] == x);
            } else {
                assert(v2[j + 1] == x);
            }
        }
        if x == s@ {
            assert(v2[i] == x);
        }
    }
    assert(v2.to_set() =~= v.to_set().insert(s@));
}

/// An ordered list of strings is determined by its set: two ordered lists
/// with the same strings are the same list, whatever order the strings
/// were added in.
pub proof fn lemma_sorted_texts_canonical(a: Seq<Seq<char>>, b: Seq<Seq<char>>)
    requires
        texts_sorted(a),
        texts_sorted(b),
        a.to_set() == b.to_set(),
    ensures
        a == b,
    decreases a.len(),
{
    if a.len() == 0 || b.len() == 0 {
        if a.len() > 0 {
            assert(a.to_set().contains(a[0]));
        }
        if b.len() > 0 {
            assert(b.to_set().contains(b[0]));
        }
        assert(a =~= b);
    } else {
        let la = a.last();
        let lb = b.last();
        assert(a[a.len() - 1] == la && b[b.len() - 1] == lb);
        assert(a.to_set().contains(la));
        assert(b.to_set().contains(lb));
        let ja = choose|j: int| 0 <= j < b.len() && b[j] == la;
        let jb = choose|j: int| 0 <= j < a.len() && a[j] == lb;
        if la != lb {
            assert(ja < b.len() - 1);
            assert(jb < a.len() - 1);
            lemma_text_less_transitive(la, lb, la);
            lemma_text_less_irreflexive(la);
        }
        let pa = a.drop_last();
        let pb = b.drop_last();
        assert forall|x: Seq<char>| pa.to_set().contains(x) <==> pb.to_set().contains(x) by {
            if pa.contains(x) {
                let j = choose|j: int| 0 <= j < pa.len() && pa[j] == x;
                assert(a[j] == x);
                assert(text_less(x, la));
                lemma_text_less_irreflexive(x);
                assert(b.to_set().contains(x));
                let k = choose|k: int| 0 <= k < b.len() && b[k] == x;
                assert(k != b.len() - 1);
                assert(pb[k] == x);
            }
            if pb.contains(x) {
                let j = choose|j: int| 0 <= j < pb.len() && pb[j] == x;
                assert(b[j] == x);
                assert(text_less(x, lb));
                lemma_text_less_irreflexive(x);
                assert(a.to_set().contains(x));
                let k = choose|k: int| 0 <= k < a.len() && a[k] == x;
                assert(k != a.len() - 1);
                assert(pa[k] == x);
            }
        }
        assert(pa.to_set() =~= pb.to_set());
        assert(texts_sorted(pa));
        assert(texts_sorted(pb));
        lemma_sorted_texts_canonical(pa, pb);
        assert(a =~= pa.push(la));
        assert(b =~= pb.push(lb));
    }
}

} // verus!
