//! The ingredient catalog of a category, and the producers that a product's ingredients
//! come from, each listed once in the order of their identifiers.

use vstd::prelude::*;
use std::collections::BTreeMap;
use crate::responses::{detailed_error, detailed_reply, ApiError};
use crate::text::{ascii_lower, string_of, trim, trim_lower_ascii};

verus! {

/// A row of the catalog query: an ingredient and the producer that supplies it.
#[derive(Debug, Clone)]
pub struct CatalogIngredientRow {
    pub ingredient_id: u128,
    pub ingredient_name: String,
    pub ingredient_category: Option<String>,
    pub ingredient_allergens: Vec<String>,
    pub producer_id: u128,
    pub producer_name: String,
    pub producer_category: Option<String>,
    pub producer_city: String,
    pub producer_email: String,
    pub producer_phone: Option<String>,
}

/// A producer suggested by the catalog.
#[derive(Debug, Clone)]
pub struct CatalogProducerSuggestion {
    pub producer_id: u128,
    pub producer_name: String,
    pub producer_category: Option<String>,
    pub producer_city: String,
    pub producer_email: String,
    pub producer_phone: Option<String>,
}

/// An ingredient suggested by the catalog, with its producer.
#[derive(Debug, Clone)]
pub struct CatalogIngredientSuggestion {
    pub ingredient_id: u128,
    pub ingredient_name: String,
    pub ingredient_category: Option<String>,
    pub ingredient_allergens: Vec<String>,
    pub producer: CatalogProducerSuggestion,
}

/// A producer shown on a public traceability page.
#[derive(Debug, Clone)]
pub struct PublicProducerInfo {
    pub producer_id: u128,
    pub producer_name: String,
    pub producer_city: String,
    pub producer_email: String,
    pub producer_phone: Option<String>,
}

/// `entries`, ordered by key, with `value` stored under `key`: a new entry when no entry
/// has that key; otherwise the existing entry is replaced when `replace` holds and kept
/// when it does not.
pub open spec fn upsert<T>(entries: Seq<(u128, T)>, key: u128, value: T, replace: bool) -> Seq<
    (u128, T),
>
    decreases entries.len(),
{
    if entries.len() == 0 {
        seq![(key, value)]
    } else if entries[0].0 == key {
        if replace {
            seq![(key, value)] + entries.drop_first()
        } else {
            entries
        }
    } else if entries[0].0 > key {
        seq![(key, value)] + entries
    } else {
        seq![entries[0]] + upsert(entries.drop_first(), key, value, replace)
    }
}

/// Whether the keys of `entries` strictly increase.
pub open spec fn strictly_sorted<T>(entries: Seq<(u128, T)>) -> bool {
    forall|i: int, j: int| 0 <= i < j < entries.len() ==> entries[i].0 < entries[j].0
}

/// The map that keyed entries hold: each key to the value stored under it.
pub open spec fn entries_map<T>(entries: Seq<(u128, T)>) -> Map<u128, T>
    decreases entries.len(),
{
    if entries.len() == 0 {
        Map::empty()
    } else {
        entries_map(entries.drop_first()).insert(entries[0].0, entries[0].1)
    }
}

/// In entries whose keys strictly increase, each entry's key maps to its value, and the
/// map holds no other key.
proof fn lemma_entries_map<T>(entries: Seq<(u128, T)>)
    requires
        strictly_sorted(entries),
    ensures
        forall|i: int| 0 <= i < entries.len() ==> #[trigger] entries_map(entries).contains_key(entries[i].0)
            && entries_map(entries)[entries[i].0] == entries[i].1,
        forall|k: u128| #[trigger] entries_map(entries).contains_key(k) ==> exists|i: int|
            0 <= i < entries.len() && entries[i].0 == k,
    decreases entries.len(),
{
    if entries.len() > 0 {
        let rest = entries.drop_first();
        assert forall|i: int, j: int| 0 <= i < j < rest.len() implies rest[i].0 < rest[j].0 by {
            assert(rest[i] == entries[i + 1] && rest[j] == entries[j + 1]);
        }
        lemma_entries_map(rest);
        assert forall|i: int| 0 <= i < entries.len() implies #[trigger] entries_map(entries).contains_key(entries[i].0)
            && entries_map(entries)[entries[i].0] == entries[i].1 by {
            assert(entries_map(entries) == entries_map(rest).insert(entries[0].0, entries[0].1));
            if i > 0 {
                assert(rest[i - 1] == entries[i]);
                assert(entries[0].0 < entries[i].0);
                assert(entries_map(rest).contains_key(rest[i - 1].0));
            }
        }
        assert forall|k: u128| #[trigger] entries_map(entries).contains_key(k) implies exists|i: int|
            0 <= i < entries.len() && entries[i].0 == k by {
            if k != entries[0].0 {
                assert(entries_map(rest).contains_key(k));
                let w = choose|w: int| 0 <= w < rest.len() && rest[w].0 == k;
                assert(entries[w + 1] == rest[w]);
            }
        }
    }
}

/// What storing under a key does to the map of sorted entries: the value is stored when
/// `replace` holds or the key is new, and the map is unchanged otherwise.
proof fn lemma_upsert_map<T>(entries: Seq<(u128, T)>, key: u128, value: T, replace: bool)
    requires
        strictly_sorted(entries),
    ensures
        entries_map(upsert(entries, key, value, replace)) == if replace || !entries_map(entries).contains_key(key) {
            entries_map(entries).insert(key, value)
        } else {
            entries_map(entries)
        },
    decreases entries.len(),
{
    lemma_entries_map(entries);
    let m = entries_map(entries);
    if entries.len() == 0 {
        let one = seq![(key, value)];
        assert(one.drop_first() =~= Seq::<(u128, T)>::empty());
        assert(entries_map(one.drop_first()) == Map::<u128, T>::empty());
        assert(entries_map(one) =~= Map::<u128, T>::empty().insert(key, value));
        assert(upsert(entries, key, value, replace) == one);
    } else {
        let rest = entries.drop_first();
        assert forall|i: int, j: int| 0 <= i < j < rest.len() implies rest[i].0 < rest[j].0 by {
            assert(rest[i] == entries[i + 1] && rest[j] == entries[j + 1]);
        }
        if entries[0].0 == key {
            if replace {
                let out = seq![(key, value)] + rest;
                assert(out.drop_first() =~= rest);
                assert(entries_map(out) =~= m.insert(key, value));
            }
        } else if entries[0].0 > key {
            let out = seq![(key, value)] + entries;
            assert(out.drop_first() =~= entries);
            assert(!m.contains_key(key)) by {
                if m.contains_key(key) {
                    let w = choose|w: int| 0 <= w < entries.len() && entries[w].0 == key;
                    if w > 0 {
                        assert(entries[0].0 < entries[w].0);
                    }
                }
            }
        } else {
            lemma_upsert_map(rest, key, value, replace);
            let tail = upsert(rest, key, value, replace);
            let out = seq![entries[0]] + tail;
            assert(out.drop_first() =~= tail);
            assert(out[0] == entries[0]);
            let mr = entries_map(rest);
            assert(m.contains_key(key) == mr.contains_key(key));
            if replace || !mr.contains_key(key) {
                assert(entries_map(out) =~= m.insert(key, value));
            } else {
                assert(entries_map(out) =~= m);
            }
        }
    }
}

/// Two strictly increasing sequences of identifiers that hold the same identifiers are the
/// same sequence.
proof fn lemma_increasing_sequences_agree(a: Seq<u128>, b: Seq<u128>)
    requires
        forall|i: int, j: int| 0 <= i < j < a.len() ==> a[i] < a[j],
        forall|i: int, j: int| 0 <= i < j < b.len() ==> b[i] < b[j],
        a.to_set() == b.to_set(),
    ensures
        a == b,
    decreases a.len(),
{
    broadcast use vstd::seq_lib::group_seq_properties;

    if a.len() == 0 {
        if b.len() > 0 {
            assert(b.to_set().contains(b[0]));
            assert(a.to_set().contains(b[0]));
        }
        assert(a =~= b);
    } else {
        assert(a.to_set().contains(a[0]));
        assert(b.len() > 0) by {
            if b.len() == 0 {
                assert(b.to_set().contains(a[0]));
            }
        }
        assert(b.to_set().contains(b[0]));
        assert(b.contains(a[0]));
        assert(a.contains(b[0]));
        let k = choose|k: int| 0 <= k < b.len() && b[k] == a[0];
        let m = choose|m: int| 0 <= m < a.len() && a[m] == b[0];
        assert(a[0] <= a[m]);
        assert(b[0] <= b[k]);
        assert(a[0] == b[0]);
        let ra = a.drop_first();
        let rb = b.drop_first();
        assert forall|x: u128| ra.to_set().contains(x) <==> rb.to_set().contains(x) by {
            if ra.to_set().contains(x) {
                assert(ra.contains(x));
                let w = choose|w: int| 0 <= w < ra.len() && ra[w] == x;
                assert(a[w + 1] == x);
                assert(a.contains(x));
                assert(b.to_set().contains(x));
                assert(b.contains(x));
                let v = choose|v: int| 0 <= v < b.len() && b[v] == x;
                assert(v != 0);
                assert(rb[v - 1] == x);
                assert(rb.contains(x));
            }
            if rb.to_set().contains(x) {
                assert(rb.contains(x));
                let w = choose|w: int| 0 <= w < rb.len() && rb[w] == x;
                assert(b[w + 1] == x);
                assert(b.contains(x));
                assert(a.to_set().contains(x));
                assert(a.contains(x));
                let v = choose|v: int| 0 <= v < a.len() && a[v] == x;
                assert(v != 0);
                assert(ra[v - 1] == x);
                assert(ra.contains(x));
            }
        }
        assert(ra.to_set() =~= rb.to_set());
        lemma_increasing_sequences_agree(ra, rb);
        assert(a =~= seq![a[0]] + ra);
        assert(b =~= seq![b[0]] + rb);
    }
}

/// The keys of keyed entries, in order.
pub open spec fn entry_keys<T>(entries: Seq<(u128, T)>) -> Seq<u128> {
    entries.map_values(|e: (u128, T)| e.0)
}

/// Storing under a key keeps the keys strictly increasing, adds that key, and adds no
/// other key.
pub proof fn law_upsert_keeps_keys_sorted<T>(entries: Seq<(u128, T)>, key: u128, value: T, replace: bool)
    requires
        strictly_sorted(entries),
    ensures
        strictly_sorted(upsert(entries, key, value, replace)),
        entry_keys(upsert(entries, key, value, replace)).contains(key),
        forall|k: u128|
            #[trigger] entry_keys(upsert(entries, key, value, replace)).contains(k) ==> k == key
                || entry_keys(entries).contains(k),
    decreases entries.len(),
{
    let out = upsert(entries, key, value, replace);
    let keys = entry_keys(entries);
    let out_keys = entry_keys(out);
    if entries.len() == 0 {
        assert(out_keys[0] == key);
    } else if entries[0].0 == key {
        assert(out_keys[0] == key);
        assert forall|k: u128| #[trigger] out_keys.contains(k) implies k == key || keys.contains(k) by {
            let w = choose|w: int| 0 <= w < out_keys.len() && out_keys[w] == k;
            if w > 0 || !replace {
                assert(keys[w] == out_keys[w]);
            }
        }
    } else if entries[0].0 > key {
        assert(out_keys[0] == key);
        assert forall|k: u128| #[trigger] out_keys.contains(k) implies k == key || keys.contains(k) by {
            let w = choose|w: int| 0 <= w < out_keys.len() && out_keys[w] == k;
            if w > 0 {
                assert(keys[w - 1] == out_keys[w]);
            }
        }
    } else {
        let rest = entries.drop_first();
        assert forall|i: int, j: int| 0 <= i < j < rest.len() implies rest[i].0 < rest[j].0 by {
            assert(rest[i] == entries[i + 1] && rest[j] == entries[j + 1]);
        }
        law_upsert_keeps_keys_sorted(rest, key, value, replace);
        let tail = upsert(rest, key, value, replace);
        let rest_keys = entry_keys(rest);
        let tail_keys = entry_keys(tail);
        assert(out =~= seq![entries[0]] + tail);
        assert forall|k: int| 0 <= k < tail.len() implies entries[0].0 < #[trigger] tail[k].0 by {
            assert(tail_keys[k] == tail[k].0);
            assert(tail_keys.contains(tail[k].0));
            if tail[k].0 != key {
                let w = choose|w: int| 0 <= w < rest_keys.len() && rest_keys[w] == tail[k].0;
                assert(rest[w] == entries[w + 1]);
            }
        }
        assert forall|i: int, j: int| 0 <= i < j < out.len() implies out[i].0 < out[j].0 by {
            if i > 0 {
                assert(out[i] == tail[i - 1] && out[j] == tail[j - 1]);
            } else {
                assert(out[j] == tail[j - 1]);
            }
        }
        let w = choose|w: int| 0 <= w < tail_keys.len() && tail_keys[w] == key;
        assert(out_keys[w + 1] == key);
        assert forall|k: u128| #[trigger] out_keys.contains(k) implies k == key || keys.contains(k) by {
            let w = choose|w: int| 0 <= w < out_keys.len() && out_keys[w] == k;
            if w == 0 {
                assert(keys[0] == k);
            } else {
                assert(tail_keys[w - 1] == k);
                assert(tail_keys.contains(k));
                if k != key {
                    let v = choose|v: int| 0 <= v < rest_keys.len() && rest_keys[v] == k;
                    assert(keys[v + 1] == k);
                }
            }
        }
    }
}

/// The suggestion of the producer of a catalog row.
pub open spec fn producer_of_row(row: CatalogIngredientRow) -> CatalogProducerSuggestion {
    CatalogProducerSuggestion {
        producer_id: row.producer_id,
        producer_name: row.producer_name,
        producer_category: row.producer_category,
        producer_city: row.producer_city,
        producer_email: row.producer_email,
        producer_phone: row.producer_phone,
    }
}

/// The suggestion of the ingredient of a catalog row.
pub open spec fn ingredient_of_row(row: CatalogIngredientRow) -> CatalogIngredientSuggestion {
    CatalogIngredientSuggestion {
        ingredient_id: row.ingredient_id,
        ingredient_name: row.ingredient_name,
        ingredient_category: row.ingredient_category,
        ingredient_allergens: row.ingredient_allergens,
        producer: producer_of_row(row),
    }
}

/// The catalog's producers keyed by identifier, the last row of each producer giving its
/// details.
pub open spec fn catalog_producer_entries(rows: Seq<CatalogIngredientRow>) -> Seq<
    (u128, CatalogProducerSuggestion),
>
    decreases rows.len(),
{
    if rows.len() == 0 {
        Seq::empty()
    } else {
        upsert(
            catalog_producer_entries(rows.drop_last()),
            rows.last().producer_id,
            producer_of_row(rows.last()),
            true,
        )
    }
}

/// The values of keyed entries, in order.
pub open spec fn entry_values<T>(entries: Seq<(u128, T)>) -> Seq<T> {
    entries.map_values(|e: (u128, T)| e.1)
}

/// The producer suggestion of `row`.
fn producer_suggestion(row: &CatalogIngredientRow) -> (r: CatalogProducerSuggestion)
    ensures
        r == producer_of_row(*row),
{
    CatalogProducerSuggestion {
        producer_id: row.producer_id,
        producer_name: row.producer_name.clone(),
        producer_category: row.producer_category.clone(),
        producer_city: row.producer_city.clone(),
        producer_email: row.producer_email.clone(),
        producer_phone: row.producer_phone.clone(),
    }
}

/// The ingredient suggestions of the catalog rows, in order, and their producers, each once,
/// ordered by identifier.
pub fn build_catalog_payload(rows: Vec<CatalogIngredientRow>) -> (r: (
    Vec<CatalogIngredientSuggestion>,
    Vec<CatalogProducerSuggestion>,
))
    ensures
        r.0@ == rows@.map_values(|row: CatalogIngredientRow| ingredient_of_row(row)),
        r.1@ == entry_values(catalog_producer_entries(rows@)),
{
    let ghost all = rows@;
    let mut producers: BTreeMap<u128, CatalogProducerSuggestion> = BTreeMap::new();
    let mut ingredients: Vec<CatalogIngredientSuggestion> = Vec::new();
    let mut rest = rows;
    assert(all.take(0) =~= Seq::<CatalogIngredientRow>::empty());
    while rest.len() > 0
        invariant
            rest.len() <= all.len(),
            rest@ == all.skip(all.len() - rest.len()),
            producers@ == entries_map(catalog_producer_entries(all.take(all.len() - rest.len()))),
            ingredients@ == all.take(all.len() - rest.len()).map_values(
                |row: CatalogIngredientRow| ingredient_of_row(row),
            ),
        decreases rest.len(),
    {
        let ghost done = all.len() - rest.len();
        let row = rest.remove(0);
        assert(row == all[done]);
        assert(all.take(done + 1).drop_last() =~= all.take(done));
        assert(all.take(done + 1).last() == row);
        proof {
            lemma_identifiers_are_ordered();
            law_catalog_producers_are_distinct_and_complete(all.take(done));
            lemma_upsert_map(
                catalog_producer_entries(all.take(done)),
                row.producer_id,
                producer_of_row(row),
                true,
            );
        }
        producers.insert(row.producer_id, producer_suggestion(&row));
        let producer = producer_suggestion(&row);
        ingredients.push(
            CatalogIngredientSuggestion {
                ingredient_id: row.ingredient_id,
                ingredient_name: row.ingredient_name,
                ingredient_category: row.ingredient_category,
                ingredient_allergens: row.ingredient_allergens,
                producer,
            },
        );
        assert(ingredients@ =~= all.take(done + 1).map_values(
            |row: CatalogIngredientRow| ingredient_of_row(row),
        ));
        assert(rest@ =~= all.skip(all.len() - rest.len()));
    }
    assert(all.take(all.len() as int) =~= all);
    proof {
        law_catalog_producers_are_distinct_and_complete(all);
    }
    (ingredients, values_in_key_order(producers, Ghost(catalog_producer_entries(all))))
}

/// The public producers keyed by identifier, the first line of each producer giving its
/// details.
pub open spec fn public_producer_entries(lines: Seq<PublicProducerInfo>) -> Seq<
    (u128, PublicProducerInfo),
>
    decreases lines.len(),
{
    if lines.len() == 0 {
        Seq::empty()
    } else {
        upsert(public_producer_entries(lines.drop_last()), lines.last().producer_id, lines.last(), false)
    }
}

/// The producers of a product's ingredient lines (given as each line's producer), each
/// once, ordered by identifier.
pub fn dedupe_public_producers(lines: &[PublicProducerInfo]) -> (r: Vec<PublicProducerInfo>)
    ensures
        r@ == entry_values(public_producer_entries(lines@)),
{
    let ghost all = lines@;
    let mut seen: BTreeMap<u128, PublicProducerInfo> = BTreeMap::new();
    let mut i: usize = 0;
    while i < lines.len()
        invariant
            i <= lines.len(),
            all == lines@,
            seen@ == entries_map(public_producer_entries(all.take(i as int))),
        decreases lines.len() - i,
    {
        let line = &lines[i];
        assert(all.take(i + 1).drop_last() =~= all.take(i as int));
        proof {
            lemma_identifiers_are_ordered();
            law_public_producers_are_distinct_and_complete(all.take(i as int));
            lemma_upsert_map(public_producer_entries(all.take(i as int)), line.producer_id, all[i as int], false);
        }
        if !seen.contains_key(&line.producer_id) {
            let info = PublicProducerInfo {
                producer_id: line.producer_id,
                producer_name: line.producer_name.clone(),
                producer_city: line.producer_city.clone(),
                producer_email: line.producer_email.clone(),
                producer_phone: line.producer_phone.clone(),
            };
            assert(info == all[i as int]);
            seen.insert(line.producer_id, info);
        }
        i = i + 1;
    }
    assert(all.take(all.len() as int) =~= all);
    proof {
        law_public_producers_are_distinct_and_complete(all);
    }
    values_in_key_order(seen, Ghost(public_producer_entries(all)))
}


/// The catalog lists producers in increasing identifier order, each once, and exactly the
/// producers of its rows.
pub proof fn law_catalog_producers_are_distinct_and_complete(rows: Seq<CatalogIngredientRow>)
    ensures
        strictly_sorted(catalog_producer_entries(rows)),
        forall|id: u128|
            #[trigger] entry_keys(catalog_producer_entries(rows)).contains(id) <==> exists|k: int|
                0 <= k < rows.len() && rows[k].producer_id == id,
    decreases rows.len(),
{
    if rows.len() > 0 {
        let prefix = rows.drop_last();
        law_catalog_producers_are_distinct_and_complete(prefix);
        let before = catalog_producer_entries(prefix);
        law_upsert_keeps_keys_sorted(before, rows.last().producer_id, producer_of_row(rows.last()), true);
        let out_keys = entry_keys(catalog_producer_entries(rows));
        assert forall|id: u128| #[trigger] out_keys.contains(id) <==> exists|k: int|
            0 <= k < rows.len() && rows[k].producer_id == id by {
            if out_keys.contains(id) {
                if id == rows.last().producer_id {
                    assert(rows[rows.len() - 1].producer_id == id);
                } else {
                    assert(entry_keys(before).contains(id));
                    let k = choose|k: int| 0 <= k < prefix.len() && prefix[k].producer_id == id;
                    assert(rows[k] == prefix[k]);
                }
            }
            if exists|k: int| 0 <= k < rows.len() && rows[k].producer_id == id {
                let k = choose|k: int| 0 <= k < rows.len() && rows[k].producer_id == id;
                if k < rows.len() - 1 {
                    assert(prefix[k] == rows[k]);
                    assert(entry_keys(before).contains(id));
                    law_upsert_keeps_existing_keys(before, rows.last().producer_id, producer_of_row(rows.last()), true, id);
                }
            }
        }
    }
}

/// Storing under a key keeps every key already stored.
pub proof fn law_upsert_keeps_existing_keys<T>(entries: Seq<(u128, T)>, key: u128, value: T, replace: bool, k: u128)
    requires
        entry_keys(entries).contains(k),
    ensures
        entry_keys(upsert(entries, key, value, replace)).contains(k),
    decreases entries.len(),
{
    let keys = entry_keys(entries);
    let out = upsert(entries, key, value, replace);
    let out_keys = entry_keys(out);
    let w = choose|w: int| 0 <= w < keys.len() && keys[w] == k;
    if entries[0].0 == key {
        if w == 0 {
            assert(out_keys[0] == k);
        } else {
            assert(out_keys[w] == k);
        }
    } else if entries[0].0 > key {
        assert(out_keys[w + 1] == k);
    } else if w == 0 {
        assert(out_keys[0] == k);
    } else {
        let rest = entries.drop_first();
        assert(entry_keys(rest)[w - 1] == k);
        law_upsert_keeps_existing_keys(rest, key, value, replace, k);
        let tail_keys = entry_keys(upsert(rest, key, value, replace));
        let v = choose|v: int| 0 <= v < tail_keys.len() && tail_keys[v] == k;
        assert(out_keys[v + 1] == k);
    }
}

/// A public page lists producers in increasing identifier order, each once, and exactly the
/// producers of its ingredient lines.
pub proof fn law_public_producers_are_distinct_and_complete(lines: Seq<PublicProducerInfo>)
    ensures
        strictly_sorted(public_producer_entries(lines)),
        forall|id: u128|
            #[trigger] entry_keys(public_producer_entries(lines)).contains(id) <==> exists|k: int|
                0 <= k < lines.len() && lines[k].producer_id == id,
    decreases lines.len(),
{
    if lines.len() > 0 {
        let prefix = lines.drop_last();
        law_public_producers_are_distinct_and_complete(prefix);
        let before = public_producer_entries(prefix);
        law_upsert_keeps_keys_sorted(before, lines.last().producer_id, lines.last(), false);
        let out_keys = entry_keys(public_producer_entries(lines));
        assert forall|id: u128| #[trigger] out_keys.contains(id) <==> exists|k: int|
            0 <= k < lines.len() && lines[k].producer_id == id by {
            if out_keys.contains(id) {
                if id == lines.last().producer_id {
                    assert(lines[lines.len() - 1].producer_id == id);
                } else {
                    assert(entry_keys(before).contains(id));
                    let k = choose|k: int| 0 <= k < prefix.len() && prefix[k].producer_id == id;
                    assert(lines[k] == prefix[k]);
                }
            }
            if exists|k: int| 0 <= k < lines.len() && lines[k].producer_id == id {
                let k = choose|k: int| 0 <= k < lines.len() && lines[k].producer_id == id;
                if k < lines.len() - 1 {
                    assert(prefix[k] == lines[k]);
                    assert(entry_keys(before).contains(id));
                    law_upsert_keeps_existing_keys(before, lines.last().producer_id, lines.last(), false, id);
                }
            }
        }
    }
}

/// The category a catalog request asks for: trimmed and ASCII-lowercased, refused with 400
/// when nothing is left.
pub fn catalog_category(category: &str) -> (r: Result<String, ApiError>)
    ensures
        match r {
            Ok(c) => c@ == ascii_lower(trim(category@)) && c@.len() > 0,
            Err(e) => ascii_lower(trim(category@)).len() == 0 && e@ == detailed_error(
                400,
                "Categorie invalide"@,
                "details"@,
                "La categorie ne peut pas etre vide"@,
            ),
        },
{
    let normalized = trim_lower_ascii(category);
    if normalized.len() == 0 {
        Err(detailed_reply(400, "Categorie invalide", "details", "La categorie ne peut pas etre vide"))
    } else {
        Ok(string_of(&normalized))
    }
}

/// The answer when the catalog cannot be read.
pub fn catalog_failure() -> (r: ApiError)
    ensures
        r@ == detailed_error(500, "Erreur lors du chargement du catalogue"@, "details"@, "Erreur interne"@),
{
    detailed_reply(500, "Erreur lors du chargement du catalogue", "details", "Erreur interne")
}

/// The identifiers stored in `map`, in increasing order.
fn keys_in_order<T>(map: &BTreeMap<u128, T>) -> (r: Vec<u128>)
    ensures
        r@.to_set() == map@.dom(),
        forall|i: int, j: int| 0 <= i < j < r@.len() ==> r@[i] < r@[j],
{
    broadcast use vstd::std_specs::btree::group_btree_axioms, vstd::laws_cmp::group_laws_cmp;

    let keys = map.keys();
    let ghost items = vstd::std_specs::iter::IteratorSpec::remaining(&keys);
    let mut out: Vec<u128> = Vec::new();
    for k in it: keys
        invariant
            it.seq() == items,
            out@.len() == it.index(),
            forall|i: int| 0 <= i < out@.len() ==> out@[i] == *items[i],
    {
        out.push(*k);
    }
    assert(out@ =~= items.unref());
    assert(vstd::laws_cmp::obeys_cmp::<u128>());
    assert(vstd::laws_cmp::obeys_cmp::<&u128>());
    assert(vstd::std_specs::btree::increasing_seq(items));
    assert forall|i: int, j: int| 0 <= i < j < out@.len() implies out@[i] < out@[j] by {
        assert(vstd::std_specs::cmp::OrdSpec::cmp_spec(&items[i], &items[j]) is Less);
    }
    out
}

/// Identifiers are ordered as vstd's specifications of `BTreeMap` ask.
proof fn lemma_identifiers_are_ordered()
    ensures
        vstd::laws_cmp::obeys_cmp::<u128>(),
{
    broadcast use vstd::laws_cmp::group_laws_cmp;
}

/// The values of `map`, taken out in increasing order of their identifiers; `entries` are
/// the same entries, ordered by key.
fn values_in_key_order<T>(map: BTreeMap<u128, T>, Ghost(entries): Ghost<Seq<(u128, T)>>) -> (r: Vec<T>)
    requires
        strictly_sorted(entries),
        map@ == entries_map(entries),
    ensures
        r@ == entry_values(entries),
{
    broadcast use vstd::std_specs::btree::group_btree_axioms;

    proof {
        lemma_identifiers_are_ordered();
        lemma_entries_map(entries);
    }
    let keys = keys_in_order(&map);
    proof {
        let ek = entry_keys(entries);
        assert forall|x: u128| ek.to_set().contains(x) <==> keys@.to_set().contains(x) by {
            if ek.to_set().contains(x) {
                assert(ek.contains(x));
                let w = choose|w: int| 0 <= w < ek.len() && ek[w] == x;
                assert(entries[w].0 == x);
                assert(map@.contains_key(entries[w].0));
            }
            if keys@.to_set().contains(x) {
                assert(map@.contains_key(x));
                let w = choose|w: int| 0 <= w < entries.len() && entries[w].0 == x;
                assert(ek[w] == x);
                assert(ek.contains(x));
            }
        }
        assert(ek.to_set() =~= keys@.to_set());
        lemma_increasing_sequences_agree(keys@, ek);
    }
    let mut map = map;
    let mut out: Vec<T> = Vec::new();
    let mut i: usize = 0;
    while i < keys.len()
        invariant
            i <= keys.len(),
            keys@ == entry_keys(entries),
            strictly_sorted(entries),
            forall|j: int| i <= j < entries.len() ==> #[trigger] map@.contains_key(entries[j].0)
                && map@[entries[j].0] == entries[j].1,
            out@ == entry_values(entries.take(i as int)),
        decreases keys.len() - i,
    {
        proof {
            lemma_identifiers_are_ordered();
        }
        let k = keys[i];
        assert(k == entries[i as int].0);
        let ghost before = map@;
        let taken = map.remove(&k);
        match taken {
            Some(v) => {
                assert(v == entries[i as int].1);
                out.push(v);
            },
            None => {
                assert(before.contains_key(entries[i as int].0));
                assert(false);
            },
        }
        assert forall|j: int| i + 1 <= j < entries.len() implies #[trigger] map@.contains_key(entries[j].0)
            && map@[entries[j].0] == entries[j].1 by {
            assert(entries[i as int].0 < entries[j].0);
            assert(before.contains_key(entries[j].0));
        }
        assert(out@ =~= entry_values(entries.take(i + 1)));
        i = i + 1;
    }
    assert(entries.take(keys.len() as int) =~= entries);
    out
}

/// Each ingredient suggestion carries its own row's ingredient fields, and its producer
/// carries the row's producer fields: no field of one side stands in for the other.
pub proof fn law_suggestions_keep_their_row_fields(row: CatalogIngredientRow)
    ensures
        ingredient_of_row(row).ingredient_id == row.ingredient_id,
        ingredient_of_row(row).ingredient_name == row.ingredient_name,
        ingredient_of_row(row).ingredient_category == row.ingredient_category,
        ingredient_of_row(row).ingredient_allergens == row.ingredient_allergens,
        ingredient_of_row(row).producer.producer_id == row.producer_id,
        ingredient_of_row(row).producer.producer_name == row.producer_name,
        ingredient_of_row(row).producer.producer_category == row.producer_category,
        ingredient_of_row(row).producer.producer_city == row.producer_city,
        ingredient_of_row(row).producer.producer_email == row.producer_email,
        ingredient_of_row(row).producer.producer_phone == row.producer_phone,
{
}

} // verus!
