//! String-keyed maps, read in key order.
//!
//! Labels, annotations, config data and resource requests all arrive as
//! `BTreeMap<String, String>`.  The map itself is copied as a whole where
//! a record keeps it; where its entries are read one by one, they are
//! read through [`entries`], whose result is the map's one listing in
//! ascending key order.

use std::collections::BTreeMap;
use vstd::prelude::*;

verus! {

/// Whether text `a` sorts strictly before text `b` in the order of
/// `String`: code points are compared from the front, and a proper prefix
/// comes before any text that extends it.
pub open spec fn sorts_before(a: Seq<char>, b: Seq<char>) -> bool
    decreases a.len(),
{
    if b.len() == 0 {
        false
    } else if a.len() == 0 {
        true
    } else if a[0] != b[0] {
        (a[0] as u32) < (b[0] as u32)
    } else {
        sorts_before(a.drop_first(), b.drop_first())
    }
}

/// Whether `entries` lists `map`: every entry is a pair of the map, every
/// key of the map has an entry, and the keys ascend strictly.
pub open spec fn is_listing(entries: Seq<(String, String)>, map: Map<String, String>) -> bool {
    &&& forall|i: int|
        0 <= i < entries.len() ==> map.contains_pair((#[trigger] entries[i]).0, entries[i].1)
    &&& forall|k: String| #[trigger]
        map.contains_key(k) ==> exists|i: int|
            0 <= i < entries.len() && (#[trigger] entries[i]).0 == k
    &&& forall|i: int, j: int|
        0 <= i < j < entries.len() ==> sorts_before(
            (#[trigger] entries[i]).0@,
            (#[trigger] entries[j]).0@,
        )
}

/// The entries of `map` in ascending key order.
pub open spec fn listing(map: Map<String, String>) -> Seq<(String, String)> {
    choose|entries: Seq<(String, String)>| is_listing(entries, map)
}

/// The map that `value` holds, or the empty map where there is none.
pub open spec fn map_or_empty(value: Option<BTreeMap<String, String>>) -> Map<String, String> {
    match value {
        Some(map) => map@,
        None => Map::empty(),
    }
}

/// The keys of a listing, in its order.
pub open spec fn keys_of(entries: Seq<(String, String)>) -> Seq<String> {
    entries.map_values(|e: (String, String)| e.0)
}

/// The value of the first entry whose key reads `key`, if there is one.
pub open spec fn value_at(entries: Seq<(String, String)>, key: Seq<char>) -> Option<Seq<char>>
    decreases entries.len(),
{
    if entries.len() == 0 {
        None
    } else if entries[0].0@ == key {
        Some(entries[0].1@)
    } else {
        value_at(entries.drop_first(), key)
    }
}

/// No text sorts before itself.
pub proof fn lemma_sorts_before_irreflexive(a: Seq<char>)
    ensures
        !sorts_before(a, a),
    decreases a.len(),
{
    if a.len() > 0 {
        lemma_sorts_before_irreflexive(a.drop_first());
    }
}

/// The order of texts is transitive.
pub proof fn lemma_sorts_before_transitive(a: Seq<char>, b: Seq<char>, c: Seq<char>)
    requires
        sorts_before(a, b),
        sorts_before(b, c),
    ensures
        sorts_before(a, c),
    decreases a.len(),
{
    if a.len() > 0 && a[0] == b[0] && b[0] == c[0] {
        lemma_sorts_before_transitive(a.drop_first(), b.drop_first(), c.drop_first());
    }
}

proof fn lemma_listings_agree(
    a: Seq<(String, String)>,
    b: Seq<(String, String)>,
    map: Map<String, String>,
    i: int,
)
    requires
        is_listing(a, map),
        is_listing(b, map),
        0 <= i < a.len(),
    ensures
        i < b.len(),
        a[i] == b[i],
    decreases i,
{
    assert forall|j: int| 0 <= j < i implies j < b.len() && a[j] == b[j] by {
        lemma_listings_agree(a, b, map, j);
    }
    lemma_sorts_before_irreflexive(a[i].0@);
    assert(map.contains_key(a[i].0));
    let p = choose|p: int| 0 <= p < b.len() && (#[trigger] b[p]).0 == a[i].0;
    if p < i {
        assert(sorts_before(a[p].0@, a[i].0@));
        assert(false);
    }
    lemma_sorts_before_irreflexive(b[i].0@);
    assert(map.contains_key(b[i].0));
    let q = choose|q: int| 0 <= q < a.len() && (#[trigger] a[q]).0 == b[i].0;
    if q < i {
        assert(sorts_before(b[q].0@, b[i].0@));
        assert(false);
    }
    if p > i {
        assert(sorts_before(b[i].0@, b[p].0@));
        if q > i {
            assert(sorts_before(a[i].0@, a[q].0@));
            lemma_sorts_before_transitive(b[i].0@, a[i].0@, b[i].0@);
        }
        assert(false);
    }
    assert(map.contains_pair(a[i].0, a[i].1));
    assert(map.contains_pair(b[i].0, b[i].1));
}

/// A map has at most one listing: two sequences that both list it in
/// ascending key order are the same sequence.
pub proof fn lemma_listing_unique(
    a: Seq<(String, String)>,
    b: Seq<(String, String)>,
    map: Map<String, String>,
)
    requires
        is_listing(a, map),
        is_listing(b, map),
    ensures
        a == b,
{
    assert forall|i: int| 0 <= i < a.len() implies i < b.len() && a[i] == b[i] by {
        lemma_listings_agree(a, b, map, i);
    }
    assert(a.len() == b.len()) by {
        if a.len() < b.len() {
            lemma_listings_agree(b, a, map, a.len() as int);
        }
        if b.len() < a.len() {
            lemma_listings_agree(a, b, map, b.len() as int);
        }
    }
    assert(a =~= b);
}

/// Hands out the entries of a `BTreeMap`, each key and value cloned, in
/// the order in which `BTreeMap::iter` visits them.  That method walks
/// the map by ascending key, and `String` keys compare by code point from
/// the front; the contract claims exactly this of the result: it holds
/// the map's pairs, one entry for each key, keys ascending.
#[verifier::external_body]
fn entries_in_order(map: &BTreeMap<String, String>) -> (out: Vec<(String, String)>)
    ensures
        is_listing(out@, map@),
{
    let mut out = Vec::new();
    for (key, value) in map.iter() {
        out.push((key.clone(), value.clone()));
    }
    out
}

/// The entries of `map`, in ascending key order.
pub fn entries(map: &BTreeMap<String, String>) -> (out: Vec<(String, String)>)
    ensures
        out@ == listing(map@),
        is_listing(out@, map@),
{
    let out = entries_in_order(map);
    proof {
        lemma_listing_unique(out@, listing(map@), map@);
    }
    out
}

/// A copy of the map that `value` holds, or an empty map where there is
/// none.
pub fn copy_or_empty(value: &Option<BTreeMap<String, String>>) -> (out: BTreeMap<String, String>)
    ensures
        out@ == map_or_empty(*value),
{
    match value {
        Some(map) => map.clone(),
        None => BTreeMap::new(),
    }
}

/// The keys of `map`, in ascending order.
pub fn keys(map: &BTreeMap<String, String>) -> (out: Vec<String>)
    ensures
        out@ == keys_of(listing(map@)),
{
    let listed = entries(map);
    let mut out: Vec<String> = Vec::new();
    let mut i: usize = 0;
    while i < listed.len()
        invariant
            i <= listed.len(),
            out@ == keys_of(listed@.take(i as int)),
        decreases listed.len() - i,
    {
        out.push(listed[i].0.clone());
        assert(out@ =~= keys_of(listed@.take(i + 1)));
        i += 1;
    }
    assert(listed@.take(i as int) =~= listed@);
    out
}

/// Looks up, among `listed` entries, the value stored under the key that
/// reads `key`.
pub fn find(listed: &Vec<(String, String)>, key: &str) -> (out: Option<String>)
    ensures
        out.deep_view() == value_at(listed@, key@),
{
    let wanted = key.to_owned();
    let mut i: usize = 0;
    assert(listed@.skip(0) =~= listed@);
    while i < listed.len()
        invariant
            i <= listed.len(),
            wanted@ == key@,
            value_at(listed@, key@) == value_at(listed@.skip(i as int), key@),
        decreases listed.len() - i,
    {
        assert(listed@.skip(i as int).drop_first() =~= listed@.skip(i + 1));
        if listed[i].0 == wanted {
            return Some(listed[i].1.clone());
        }
        i += 1;
    }
    None
}

} // verus!
