//! Normalization of the product fields that consumers see: Nutri-Score grade and allergens.

use vstd::prelude::*;
use crate::ids::{uuid_hyphenated, uuid_to_text};
use crate::lookup::Lookup;
use crate::records::{failure_error, failure_reply, not_found_error, not_found_reply, RecordRequest};
use crate::roles::{is_allowed, permits, Action, UserRole};
use crate::responses::{detailed_error, detailed_reply, forbidden, internal_error, internal_error_view, plain_error, ApiError, ApiErrorView};
use crate::text::{
    is_white_space, trim_end, trim_start,
    ascii_lower, ascii_upper, ascii_upper_char, chars_eq, opt_str_view, opt_string_view, chars_of, string_of, trim, trim_lower_ascii,
    trim_upper_ascii,
};

verus! {

/// The producer details shown with a product.
#[derive(Debug, Clone)]
pub struct ProducteurInfo {
    pub nom: String,
    /// The sanitary approval number.
    pub agrement: Option<String>,
    pub contact: Option<String>,
    pub adresse: Option<String>,
    /// Such as organic, PDO or PGI.
    pub labels: Option<Vec<String>>,
}

/// The fourteen allergens of EU regulation 1169/2011, by the identifiers the platform uses.
pub open spec fn is_eu_allergen(id: Seq<char>) -> bool {
    ||| id == "gluten"@
    ||| id == "crustaces"@
    ||| id == "oeufs"@
    ||| id == "poissons"@
    ||| id == "arachides"@
    ||| id == "soja"@
    ||| id == "lait"@
    ||| id == "fruits-a-coque"@
    ||| id == "celeri"@
    ||| id == "moutarde"@
    ||| id == "sesame"@
    ||| id == "sulfites"@
    ||| id == "lupin"@
    ||| id == "mollusques"@
}

/// A Nutri-Score grade: one of the letters `A` to `E`.
pub open spec fn is_nutriscore_grade(grade: Seq<char>) -> bool {
    grade.len() == 1 && 'A' <= grade[0] <= 'E'
}

/// The stored Nutri-Score for a submitted one: trimmed and uppercased, kept only when it
/// is a grade.
pub open spec fn normalized_nutriscore(input: Option<Seq<char>>) -> Option<Seq<char>> {
    match input {
        None => None,
        Some(s) => {
            let grade = ascii_upper(trim(s));
            if is_nutriscore_grade(grade) {
                Some(grade)
            } else {
                None
            }
        },
    }
}

/// The allergen identifier a submitted entry stands for: trimmed and lowercased.
pub open spec fn allergen_candidate(entry: Seq<char>) -> Seq<char> {
    ascii_lower(trim(entry))
}

/// The stored allergen list for submitted `entries`, taken in order: each entry becomes
/// its candidate identifier, which is kept when it is an EU allergen not kept before.
pub open spec fn normalized_allergens(entries: Seq<Seq<char>>) -> Seq<Seq<char>>
    decreases entries.len(),
{
    if entries.len() == 0 {
        Seq::empty()
    } else {
        let kept = normalized_allergens(entries.drop_last());
        let candidate = allergen_candidate(entries.last());
        if candidate.len() == 0 || !is_eu_allergen(candidate) || kept.contains(candidate) {
            kept
        } else {
            kept.push(candidate)
        }
    }
}

/// Whether `id` names one of the EU allergens.
pub fn is_eu_allergen_id(id: &Vec<char>) -> (r: bool)
    ensures
        r == is_eu_allergen(id@),
{
    chars_eq(id, &chars_of("gluten")) || chars_eq(id, &chars_of("crustaces")) || chars_eq(
        id,
        &chars_of("oeufs"),
    ) || chars_eq(id, &chars_of("poissons")) || chars_eq(id, &chars_of("arachides"))
        || chars_eq(id, &chars_of("soja")) || chars_eq(id, &chars_of("lait")) || chars_eq(
        id,
        &chars_of("fruits-a-coque"),
    ) || chars_eq(id, &chars_of("celeri")) || chars_eq(id, &chars_of("moutarde")) || chars_eq(
        id,
        &chars_of("sesame"),
    ) || chars_eq(id, &chars_of("sulfites")) || chars_eq(id, &chars_of("lupin")) || chars_eq(
        id,
        &chars_of("mollusques"),
    )
}

/// The Nutri-Score stored for a submitted value.
pub fn normalize_nutriscore(input: Option<&str>) -> (r: Option<String>)
    ensures
        opt_string_view(r) == normalized_nutriscore(opt_str_view(input)),
{
    match input {
        None => None,
        Some(s) => {
            let grade = trim_upper_ascii(s);
            if grade.len() == 1 && 'A' <= grade[0] && grade[0] <= 'E' {
                Some(string_of(&grade))
            } else {
                None
            }
        },
    }
}

/// The characters of each vector of `list`.
pub open spec fn char_views(list: Seq<Vec<char>>) -> Seq<Seq<char>> {
    list.map_values(|v: Vec<char>| v@)
}

fn contains_chars(list: &Vec<Vec<char>>, item: &Vec<char>) -> (r: bool)
    ensures
        r == char_views(list@).contains(item@),
{
    let mut i: usize = 0;
    while i < list.len()
        invariant
            i <= list.len(),
            forall|j: int| 0 <= j < i ==> char_views(list@)[j] != item@,
        decreases list.len() - i,
    {
        if chars_eq(&list[i], item) {
            assert(char_views(list@)[i as int] == item@);
            return true;
        }
        i = i + 1;
    }
    false
}

/// The allergen list stored for submitted entries: EU allergens only, trimmed, lowercased,
/// each once, in the order of their first submission.
pub fn normalize_allergens(allergens: Option<Vec<String>>) -> (r: Vec<String>)
    ensures
        r.deep_view() == normalized_allergens(
            match allergens {
                Some(v) => v.deep_view(),
                None => Seq::empty(),
            },
        ),
{
    let entries = match allergens {
        Some(v) => v,
        None => Vec::new(),
    };
    let ghost input = entries.deep_view();
    let mut kept: Vec<Vec<char>> = Vec::new();
    let mut out: Vec<String> = Vec::new();
    let mut i: usize = 0;
    assert(char_views(kept@) =~= normalized_allergens(input.take(0)));
    while i < entries.len()
        invariant
            i <= entries.len(),
            input == entries.deep_view(),
            char_views(kept@) == normalized_allergens(input.take(i as int)),
            out.deep_view() == char_views(kept@),
        decreases entries.len() - i,
    {
        let candidate = trim_lower_ascii(entries[i].as_str());
        assert(input.take(i + 1).drop_last() =~= input.take(i as int));
        assert(input.take(i + 1).last() == entries[i as int]@);
        if candidate.len() != 0 && is_eu_allergen_id(&candidate) && !contains_chars(
            &kept,
            &candidate,
        ) {
            let s = string_of(&candidate);
            kept.push(candidate);
            out.push(s);
            assert(char_views(kept@) =~= normalized_allergens(input.take(i + 1)));
            assert(out.deep_view() =~= char_views(kept@));
        }
        i = i + 1;
    }
    assert(input.take(entries.len() as int) =~= input);
    out
}


/// Whether `list` holds no element twice.
pub open spec fn no_duplicates(list: Seq<Seq<char>>) -> bool {
    forall|i: int, j: int| 0 <= i < j < list.len() ==> list[i] != list[j]
}

proof fn lemma_eu_allergen_is_normal(id: Seq<char>)
    requires
        is_eu_allergen(id),
    ensures
        allergen_candidate(id) == id,
        id.len() > 0,
{
    reveal_strlit("gluten");
    reveal_strlit("crustaces");
    reveal_strlit("oeufs");
    reveal_strlit("poissons");
    reveal_strlit("arachides");
    reveal_strlit("soja");
    reveal_strlit("lait");
    reveal_strlit("fruits-a-coque");
    reveal_strlit("celeri");
    reveal_strlit("moutarde");
    reveal_strlit("sesame");
    reveal_strlit("sulfites");
    reveal_strlit("lupin");
    reveal_strlit("mollusques");
    assert(id.len() > 0);
    assert(!is_white_space(id[0]));
    assert(!is_white_space(id.last()));
    assert(trim_start(id) == id);
    assert(trim_end(id) == id);
    assert(forall|i: int| 0 <= i < id.len() ==> ('a' <= #[trigger] id[i] <= 'z' || id[i] == '-'));
    assert(ascii_lower(id) =~= id);
}

/// The stored allergen list holds EU allergens only, each at most once, and every EU
/// allergen that some entry stands for.
pub proof fn law_normalized_allergens_are_distinct_eu_allergens(entries: Seq<Seq<char>>)
    ensures
        no_duplicates(normalized_allergens(entries)),
        forall|k: int|
            0 <= k < normalized_allergens(entries).len() ==> is_eu_allergen(
                #[trigger] normalized_allergens(entries)[k],
            ),
        forall|k: int|
            0 <= k < entries.len() && is_eu_allergen(allergen_candidate(#[trigger] entries[k]))
                ==> normalized_allergens(entries).contains(allergen_candidate(entries[k])),
    decreases entries.len(),
{
    if entries.len() > 0 {
        let prefix = entries.drop_last();
        law_normalized_allergens_are_distinct_eu_allergens(prefix);
        let kept = normalized_allergens(prefix);
        let out = normalized_allergens(entries);
        assert forall|k: int|
            0 <= k < entries.len() && is_eu_allergen(
                allergen_candidate(#[trigger] entries[k]),
            ) implies out.contains(allergen_candidate(entries[k])) by {
            let c = allergen_candidate(entries[k]);
            lemma_eu_allergen_is_normal(c);
            if k < entries.len() - 1 {
                assert(prefix[k] == entries[k]);
                let w = choose|w: int| 0 <= w < kept.len() && kept[w] == c;
                assert(out[w] == c);
            } else {
                if kept.contains(c) {
                    let w = choose|w: int| 0 <= w < kept.len() && kept[w] == c;
                    assert(out[w] == c);
                } else {
                    assert(out[kept.len() as int] == c);
                }
            }
        }
    }
}

proof fn lemma_normal_list_is_fixed(list: Seq<Seq<char>>)
    requires
        no_duplicates(list),
        forall|k: int| 0 <= k < list.len() ==> is_eu_allergen(#[trigger] list[k]),
    ensures
        normalized_allergens(list) == list,
    decreases list.len(),
{
    if list.len() > 0 {
        let prefix = list.drop_last();
        assert forall|k: int| 0 <= k < prefix.len() implies is_eu_allergen(#[trigger] prefix[k]) by {
            assert(prefix[k] == list[k]);
        }
        lemma_normal_list_is_fixed(prefix);
        lemma_eu_allergen_is_normal(list.last());
        if prefix.contains(list.last()) {
            let w = choose|w: int| 0 <= w < prefix.len() && prefix[w] == list.last();
            assert(list[w] == list[list.len() - 1]);
        }
        assert(prefix.push(list.last()) =~= list);
    }
}

/// Normalizing a stored allergen list again leaves it unchanged.
pub proof fn law_normalize_allergens_is_idempotent(entries: Seq<Seq<char>>)
    ensures
        normalized_allergens(normalized_allergens(entries)) == normalized_allergens(entries),
{
    law_normalized_allergens_are_distinct_eu_allergens(entries);
    lemma_normal_list_is_fixed(normalized_allergens(entries));
}

/// A stored Nutri-Score is a grade, and normalizing it again leaves it unchanged.
pub proof fn law_normalize_nutriscore_is_idempotent(input: Option<Seq<char>>)
    ensures
        normalized_nutriscore(input) matches Some(g) ==> is_nutriscore_grade(g)
            && normalized_nutriscore(Some(g)) == Some(g),
{
    if let Some(g) = normalized_nutriscore(input) {
        assert(!is_white_space(g[0]));
        assert(trim_start(g) == g);
        assert(trim_end(g) == g);
        assert(ascii_upper(g) =~= g);
    }
}


/// The allergen list an update stores: none when the update sends no list (the stored one
/// stays), else the normalized list sent.
pub fn allergens_update(allergens: Option<Vec<String>>) -> (r: Option<Vec<String>>)
    ensures
        match allergens {
            None => r is None,
            Some(v) => r matches Some(w) && w.deep_view() == normalized_allergens(v.deep_view()),
        },
{
    match allergens {
        None => None,
        Some(v) => Some(normalize_allergens(Some(v))),
    }
}

/// The position stored for each ingredient link of a product: the one sent, else the
/// link's index in the request.
pub open spec fn link_sort_order(requested: Seq<Option<i32>>, index: int) -> i32 {
    match requested[index] {
        Some(order) => order,
        None => index as i32,
    }
}

/// The positions stored for the ingredient links of a product, in request order.
pub fn link_sort_orders(requested: &Vec<Option<i32>>) -> (r: Vec<i32>)
    ensures
        r.len() == requested.len(),
        forall|i: int| 0 <= i < r.len() ==> r[i] == link_sort_order(requested@, i),
{
    let mut out: Vec<i32> = Vec::new();
    let mut i: usize = 0;
    while i < requested.len()
        invariant
            i <= requested.len(),
            out.len() == i,
            forall|j: int| 0 <= j < i ==> out[j] == link_sort_order(requested@, j),
        decreases requested.len() - i,
    {
        let order = match requested[i] {
            Some(o) => o,
            None => #[verifier::truncate] (i as i32),
        };
        out.push(order);
        i = i + 1;
    }
    out
}

/// The refusal of a request that names a producer that does not exist.
pub open spec fn missing_producer_error() -> ApiErrorView {
    detailed_error(400, "Producteur introuvable"@, "details"@, "L'ID du producteur fourni n'existe pas"@)
}

/// The refusal that looking up a named producer leads to, if any.
pub open spec fn producer_refusal(lookup: Lookup<u128>) -> Option<ApiErrorView> {
    match lookup {
        Lookup::Found(_) => None,
        Lookup::Missing => Some(missing_producer_error()),
        Lookup::Failed(_) => Some(internal_error_view("Erreur interne"@)),
    }
}

/// The producer that a product is attached to: the requested one when it exists, else the
/// first producer on record.
pub open spec fn product_producer_answer(requested: Option<u128>, lookup: Lookup<u128>) -> Result<u128, ApiErrorView> {
    match (requested, lookup) {
        (Some(id), Lookup::Found(_)) => Ok(id),
        (Some(_), Lookup::Missing) => Err(missing_producer_error()),
        (None, Lookup::Found(first)) => Ok(first),
        (None, Lookup::Missing) => Err(
            detailed_error(400, "Aucun producteur trouvé"@, "details"@, "Vous devez d'abord créer un producteur"@),
        ),
        (_, Lookup::Failed(_)) => Err(internal_error_view("Erreur interne"@)),
    }
}

/// The producer a product write uses, given what looking it up gave: the requested
/// producer's record, or the first producer's identifier when none is requested.
pub fn product_producer(requested: Option<u128>, lookup: Lookup<u128>) -> (r: Result<u128, ApiError>)
    ensures
        match (r, product_producer_answer(requested, lookup)) {
            (Ok(a), Ok(b)) => a == b,
            (Err(e), Err(v)) => e@ == v,
            _ => false,
        },
{
    match (requested, lookup) {
        (Some(id), Lookup::Found(_)) => Ok(id),
        (Some(_), Lookup::Missing) => Err(
            detailed_reply(400, "Producteur introuvable", "details", "L'ID du producteur fourni n'existe pas"),
        ),
        (None, Lookup::Found(first)) => Ok(first),
        (None, Lookup::Missing) => Err(
            detailed_reply(400, "Aucun producteur trouvé", "details", "Vous devez d'abord créer un producteur"),
        ),
        (_, Lookup::Failed(_)) => Err(internal_error("Erreur interne")),
    }
}

/// The message refusing an ingredient link to an ingredient that does not exist.
pub open spec fn missing_ingredient_details(ingredient_id: u128) -> Seq<char> {
    "ingredient_id "@ + uuid_hyphenated(ingredient_id) + " n'existe pas"@
}

/// Checks an ingredient link of a product, given what looking up its producer and its
/// ingredient gave (the producer first).
pub fn check_ingredient_link(ingredient_id: u128, producer: Lookup<u128>, ingredient: Lookup<u128>) -> (r: Result<(), ApiError>)
    ensures
        match producer_refusal(producer) {
            Some(v) => r matches Err(e) && e@ == v,
            None => match ingredient {
                Lookup::Found(_) => r is Ok,
                Lookup::Missing => r matches Err(e) && e@ == detailed_error(
                    400,
                    "Ingrédient introuvable"@,
                    "details"@,
                    missing_ingredient_details(ingredient_id),
                ),
                Lookup::Failed(_) => r matches Err(e) && e@ == internal_error_view("Erreur lors de la validation des ingrédients"@),
            },
        },
{
    match producer {
        Lookup::Found(_) => {},
        Lookup::Missing => {
            return Err(
                detailed_reply(400, "Producteur introuvable", "details", "L'ID du producteur fourni n'existe pas"),
            );
        },
        Lookup::Failed(_) => {
            return Err(internal_error("Erreur interne"));
        },
    }
    match ingredient {
        Lookup::Found(_) => Ok(()),
        Lookup::Missing => {
            let mut details = String::from_str("ingredient_id ");
            details.append(uuid_to_text(ingredient_id).as_str());
            details.append(" n'existe pas");
            Err(detailed_reply(400, "Ingrédient introuvable", "details", details.as_str()))
        },
        Lookup::Failed(_) => Err(
            internal_error("Erreur lors de la validation des ingrédients"),
        ),
    }
}

/// The producer a new catalog record (a product or an ingredient) is written for, or the
/// refusal: a role that may not manage the catalog, or a request naming another producer
/// than the caller's, is refused with 403; otherwise the record belongs to the caller's own
/// producer.
pub open spec fn catalog_creation_producer(role: UserRole, own_producer: u128, requested_producer: Option<u128>) -> Result<u128, ApiErrorView> {
    if !permits(role, Action::ManageCatalog) {
        Err(plain_error(403, "Action non autorisée"@))
    } else if requested_producer matches Some(p) && p != own_producer {
        Err(plain_error(403, "Action non autorisée"@))
    } else {
        Ok(own_producer)
    }
}

/// Decides who may create a product or an ingredient and for which producer, given the
/// caller's role, the caller's producer and the producer the request names, if any.
pub fn authorize_catalog_creation(role: &UserRole, own_producer: u128, requested_producer: Option<u128>) -> (r: Result<u128, ApiError>)
    ensures
        match (r, catalog_creation_producer(*role, own_producer, requested_producer)) {
            (Ok(a), Ok(b)) => a == b,
            (Err(e), Err(v)) => e@ == v,
            _ => false,
        },
{
    if !is_allowed(role, Action::ManageCatalog) {
        return Err(forbidden());
    }
    match requested_producer {
        Some(p) => {
            if p != own_producer {
                return Err(forbidden());
            }
        },
        None => {},
    }
    Ok(own_producer)
}

/// Why an update, at step `request`, of the catalog record written `id` is refused before
/// anything changes, if it is: a role that may not manage the catalog (403), a request to
/// move the record to another producer (403), then a record that does not exist or belongs
/// to another producer (404, the same answer for both, so that other producers' records
/// stay hidden), or a failing database (500). `stored_owner` is what looking up the
/// record's producer gave.
pub open spec fn catalog_update_refusal(
    request: RecordRequest,
    role: UserRole,
    own_producer: u128,
    id: Seq<char>,
    stored_owner: Lookup<u128>,
    requested_producer: Option<u128>,
) -> Option<ApiErrorView> {
    if !permits(role, Action::ManageCatalog) {
        Some(plain_error(403, "Action non autorisée"@))
    } else if requested_producer matches Some(p) && p != own_producer {
        Some(plain_error(403, "Action non autorisée"@))
    } else {
        match stored_owner {
            Lookup::Found(owner) => if owner == own_producer {
                None
            } else {
                Some(not_found_error(request, id))
            },
            Lookup::Missing => Some(not_found_error(request, id)),
            Lookup::Failed(_) => Some(failure_error(request)),
        }
    }
}

/// Decides whether the caller may update, at step `request` (a product or an ingredient
/// update), the record written `id`.
pub fn authorize_catalog_update(
    request: RecordRequest,
    role: &UserRole,
    own_producer: u128,
    id: &str,
    stored_owner: Lookup<u128>,
    requested_producer: Option<u128>,
) -> (r: Result<(), ApiError>)
    ensures
        match catalog_update_refusal(request, *role, own_producer, id@, stored_owner, requested_producer) {
            None => r is Ok,
            Some(e) => r matches Err(x) && x@ == e,
        },
{
    if !is_allowed(role, Action::ManageCatalog) {
        return Err(forbidden());
    }
    match requested_producer {
        Some(p) => {
            if p != own_producer {
                return Err(forbidden());
            }
        },
        None => {},
    }
    match stored_owner {
        Lookup::Found(owner) => {
            if owner == own_producer {
                Ok(())
            } else {
                Err(not_found_reply(request, id))
            }
        },
        Lookup::Missing => Err(not_found_reply(request, id)),
        Lookup::Failed(_) => Err(failure_reply(request)),
    }
}

/// A catalog record is only written by a role that may manage the catalog, and only for the
/// caller's own producer: a new record belongs to it, and an update goes through only for a
/// record it already owns and leaves it there; another producer's record is answered
/// exactly as a missing one.
pub proof fn law_catalog_writes_stay_with_the_caller_producer(
    request: RecordRequest,
    role: UserRole,
    own_producer: u128,
    id: Seq<char>,
    stored_owner: Lookup<u128>,
    requested_producer: Option<u128>,
    other: u128,
)
    requires
        other != own_producer,
    ensures
        catalog_creation_producer(role, own_producer, requested_producer) matches Ok(p) ==> p
            == own_producer && permits(role, Action::ManageCatalog),
        catalog_update_refusal(request, role, own_producer, id, stored_owner, requested_producer) is None
            ==> permits(role, Action::ManageCatalog) && stored_owner == Lookup::<u128>::Found(
            own_producer,
        ) && (requested_producer is None || requested_producer == Some(own_producer)),
        permits(role, Action::ManageCatalog) && (requested_producer is None) ==> catalog_update_refusal(
            request,
            role,
            own_producer,
            id,
            Lookup::Found(other),
            requested_producer,
        ) == catalog_update_refusal(request, role, own_producer, id, Lookup::Missing, requested_producer),
{
}

/// A submitted Nutri-Score is stored exactly when, once trimmed, it is a single letter from
/// `A` to `E` in either case, and it is then stored as that letter in capitals: every grade
/// is kept, and nothing else is.
pub proof fn law_every_nutriscore_grade_is_kept(s: Seq<char>)
    ensures
        normalized_nutriscore(Some(s)) == if trim(s).len() == 1 && ('A' <= trim(s)[0] <= 'E' || 'a'
            <= trim(s)[0] <= 'e') {
            Some(seq![ascii_upper_char(trim(s)[0])])
        } else {
            None
        },
        trim(s).len() == 1 && ('A' <= trim(s)[0] <= 'E' || 'a' <= trim(s)[0] <= 'e') ==> 'A'
            <= ascii_upper_char(trim(s)[0]) <= 'E',
{
    let t = trim(s);
    let g = ascii_upper(t);
    assert(g.len() == t.len());
    if t.len() == 1 {
        assert(g =~= seq![ascii_upper_char(t[0])]);
        let c = t[0];
        if 'a' <= c <= 'z' {
            assert((c as u32) >= 97 && (c as u32) <= 122);
        }
    }
}

} // verus!
