//! Shared business reference lists (allergens, categories, units) and their validation.

use vstd::prelude::*;
use crate::text::{chars_of, is_blank, is_blank_str, str_eq, trim};

verus! {

/// One allergen of the reference lists.
#[derive(Debug, Clone)]
pub struct AllergenDefinition {
    pub id: String,
    pub label: String,
}

/// The business reference lists that the API and the interface share.
#[derive(Debug, Clone)]
pub struct ReferenceData {
    pub regulatory_profile: String,
    pub allergens: Vec<AllergenDefinition>,
    pub product_categories: Vec<String>,
    pub ingredient_categories: Vec<String>,
    pub units: Vec<String>,
}

/// Why a set of reference lists is refused.
#[derive(Debug, Clone)]
pub enum ValidationFailure {
    /// The regulatory profile is blank.
    BlankProfile,
    /// Some allergen has a blank identifier or a blank label.
    IncompleteAllergen,
    /// An allergen identifier occurs twice.
    DuplicateAllergen(String),
    /// The EU profile lacks one of the allergens it requires.
    MissingRequiredAllergen(String),
    /// The named list is empty.
    EmptyList(String),
    /// The named list holds a blank value or the same value twice.
    InvalidListValue(String),
}

/// A refusal of reference lists, with its reason and the message shown for it.
#[derive(Debug, Clone)]
pub struct InvalidData {
    pub failure: ValidationFailure,
    pub message: String,
}

/// A validation failure as plain character sequences.
pub enum FailureView {
    BlankProfile,
    IncompleteAllergen,
    DuplicateAllergen(Seq<char>),
    MissingRequiredAllergen(Seq<char>),
    EmptyList(Seq<char>),
    InvalidListValue(Seq<char>),
}

impl View for ValidationFailure {
    type V = FailureView;

    open spec fn view(&self) -> FailureView {
        match self {
            ValidationFailure::BlankProfile => FailureView::BlankProfile,
            ValidationFailure::IncompleteAllergen => FailureView::IncompleteAllergen,
            ValidationFailure::DuplicateAllergen(id) => FailureView::DuplicateAllergen(id@),
            ValidationFailure::MissingRequiredAllergen(id) => FailureView::MissingRequiredAllergen(
                id@,
            ),
            ValidationFailure::EmptyList(name) => FailureView::EmptyList(name@),
            ValidationFailure::InvalidListValue(name) => FailureView::InvalidListValue(name@),
        }
    }
}

/// The identifier of the EU regulatory profile.
pub open spec fn eu_profile() -> Seq<char> {
    "eu-1169-2011"@
}

/// The allergens that the EU profile requires, in the order they are checked.
pub open spec fn required_eu_allergens() -> Seq<Seq<char>> {
    seq![
        "gluten"@,
        "crustaces"@,
        "oeufs"@,
        "poissons"@,
        "arachides"@,
        "soja"@,
        "lait"@,
        "fruits-a-coque"@,
        "celeri"@,
        "moutarde"@,
        "sesame"@,
        "sulfites"@,
        "lupin"@,
        "mollusques"@,
    ]
}

/// The identifiers of a list of allergens.
pub open spec fn allergen_ids(allergens: Seq<AllergenDefinition>) -> Seq<Seq<char>> {
    allergens.map_values(|a: AllergenDefinition| a.id@)
}

/// The first problem among `allergens`, taken in order: a blank identifier or label, or
/// an identifier that an earlier allergen has.
pub open spec fn allergen_failure(allergens: Seq<AllergenDefinition>) -> Option<FailureView>
    decreases allergens.len(),
{
    if allergens.len() == 0 {
        None
    } else {
        let earlier = allergens.drop_last();
        match allergen_failure(earlier) {
            Some(f) => Some(f),
            None => {
                let a = allergens.last();
                if is_blank(a.id@) || is_blank(a.label@) {
                    Some(FailureView::IncompleteAllergen)
                } else if allergen_ids(earlier).contains(a.id@) {
                    Some(FailureView::DuplicateAllergen(a.id@))
                } else {
                    None
                }
            },
        }
    }
}

/// The first of `required` that `ids` lacks.
pub open spec fn missing_required(ids: Seq<Seq<char>>, required: Seq<Seq<char>>) -> Option<
    Seq<char>,
>
    decreases required.len(),
{
    if required.len() == 0 {
        None
    } else if !ids.contains(required[0]) {
        Some(required[0])
    } else {
        missing_required(ids, required.drop_first())
    }
}

/// The first problem of a list of values: empty, or a blank or repeated value.
pub open spec fn values_failure(name: Seq<char>, values: Seq<Seq<char>>) -> Option<FailureView> {
    if values.len() == 0 {
        Some(FailureView::EmptyList(name))
    } else if exists|i: int|
        0 <= i < values.len() && (is_blank(#[trigger] values[i]) || values.take(i).contains(
            values[i],
        )) {
        Some(FailureView::InvalidListValue(name))
    } else {
        None
    }
}

/// The first problem of a set of reference lists, checked in this order: the profile, the
/// allergens, the allergens that the EU profile requires, then the product categories, the
/// ingredient categories and the units.
pub open spec fn reference_failure(data: ReferenceData) -> Option<FailureView> {
    if is_blank(data.regulatory_profile@) {
        Some(FailureView::BlankProfile)
    } else if allergen_failure(data.allergens@) is Some {
        allergen_failure(data.allergens@)
    } else if data.regulatory_profile@ == eu_profile() && missing_required(
        allergen_ids(data.allergens@),
        required_eu_allergens(),
    ) is Some {
        Some(
            FailureView::MissingRequiredAllergen(
                missing_required(allergen_ids(data.allergens@), required_eu_allergens()).unwrap(),
            ),
        )
    } else if values_failure("product_categories"@, data.product_categories.deep_view()) is Some {
        values_failure("product_categories"@, data.product_categories.deep_view())
    } else if values_failure("ingredient_categories"@, data.ingredient_categories.deep_view()) is Some {
        values_failure("ingredient_categories"@, data.ingredient_categories.deep_view())
    } else {
        values_failure("units"@, data.units.deep_view())
    }
}

/// The message shown for a failure.
pub open spec fn failure_message(f: FailureView) -> Seq<char> {
    match f {
        FailureView::BlankProfile => "regulatory_profile ne peut pas être vide"@,
        FailureView::IncompleteAllergen => "chaque allergène doit avoir un identifiant et un libellé"@,
        FailureView::DuplicateAllergen(id) => "identifiant d'allergène dupliqué: "@ + id,
        FailureView::MissingRequiredAllergen(id) => "le profil eu-1169-2011 exige l'allergène "@
            + id,
        FailureView::EmptyList(name) => name + " ne peut pas être vide"@,
        FailureView::InvalidListValue(name) => name + " contient une valeur vide ou dupliquée"@,
    }
}


/// The refusal for `failure`, with its message.
pub fn invalid_data(failure: ValidationFailure) -> (r: InvalidData)
    ensures
        r.failure@ == failure@,
        r.message@ == failure_message(failure@),
{
    let message = match &failure {
        ValidationFailure::BlankProfile => String::from_str(
            "regulatory_profile ne peut pas être vide",
        ),
        ValidationFailure::IncompleteAllergen => String::from_str(
            "chaque allergène doit avoir un identifiant et un libellé",
        ),
        ValidationFailure::DuplicateAllergen(id) => {
            let mut m = String::from_str("identifiant d'allergène dupliqué: ");
            m.append(id.as_str());
            m
        },
        ValidationFailure::MissingRequiredAllergen(id) => {
            let mut m = String::from_str("le profil eu-1169-2011 exige l'allergène ");
            m.append(id.as_str());
            m
        },
        ValidationFailure::EmptyList(name) => {
            let mut m = String::from_str(name.as_str());
            m.append(" ne peut pas être vide");
            m
        },
        ValidationFailure::InvalidListValue(name) => {
            let mut m = String::from_str(name.as_str());
            m.append(" contient une valeur vide ou dupliquée");
            m
        },
    };
    InvalidData { failure, message }
}

/// The `i`-th allergen that the EU profile requires.
fn required_eu_allergen(i: usize) -> (r: &'static str)
    requires
        i < 14,
    ensures
        r@ == required_eu_allergens()[i as int],
{
    match i {
        0 => "gluten",
        1 => "crustaces",
        2 => "oeufs",
        3 => "poissons",
        4 => "arachides",
        5 => "soja",
        6 => "lait",
        7 => "fruits-a-coque",
        8 => "celeri",
        9 => "moutarde",
        10 => "sesame",
        11 => "sulfites",
        12 => "lupin",
        _ => "mollusques",
    }
}

proof fn lemma_allergen_failure_prefix(s: Seq<AllergenDefinition>, k: int)
    requires
        0 <= k <= s.len(),
        allergen_failure(s.take(k)) is Some,
    ensures
        allergen_failure(s) == allergen_failure(s.take(k)),
    decreases s.len() - k,
{
    if k < s.len() {
        assert(s.drop_last().take(k) =~= s.take(k));
        lemma_allergen_failure_prefix(s.drop_last(), k);
    } else {
        assert(s.take(k) =~= s);
    }
}

proof fn lemma_missing_required_skip(ids: Seq<Seq<char>>, req: Seq<Seq<char>>, k: int)
    requires
        0 <= k <= req.len(),
        forall|j: int| 0 <= j < k ==> ids.contains(#[trigger] req[j]),
    ensures
        missing_required(ids, req) == missing_required(ids, req.skip(k)),
    decreases k,
{
    if k > 0 {
        assert(ids.contains(req[0]));
        assert forall|j: int| 0 <= j < k - 1 implies ids.contains(#[trigger] req.drop_first()[j]) by {
            assert(req.drop_first()[j] == req[j + 1]);
        }
        lemma_missing_required_skip(ids, req.drop_first(), k - 1);
        assert(req.drop_first().skip(k - 1) =~= req.skip(k));
    } else {
        assert(req.skip(0) =~= req);
    }
}

/// Checks that `values` is not empty and holds no blank or repeated value.
pub fn validate_unique_values(name: &str, values: &[String]) -> (r: Result<(), InvalidData>)
    ensures
        match r {
            Ok(()) => values_failure(name@, values.deep_view()) is None,
            Err(e) => Some(e.failure@) == values_failure(name@, values.deep_view())
                && e.message@ == failure_message(e.failure@),
        },
{
    let ghost vs = values.deep_view();
    if values.len() == 0 {
        return Err(invalid_data(ValidationFailure::EmptyList(String::from_str(name))));
    }
    let mut i: usize = 0;
    while i < values.len()
        invariant
            i <= values.len(),
            vs == values.deep_view(),
            forall|k: int|
                0 <= k < i ==> !(is_blank(#[trigger] vs[k]) || vs.take(k).contains(vs[k])),
        decreases values.len() - i,
    {
        let mut bad = is_blank_str(values[i].as_str());
        let mut j: usize = 0;
        while j < i && !bad
            invariant
                j <= i < values.len(),
                vs == values.deep_view(),
                bad ==> is_blank(vs[i as int]) || vs.take(i as int).contains(vs[i as int]),
                !bad ==> !is_blank(vs[i as int]) && forall|m: int| 0 <= m < j ==> vs[m] != vs[i as int],
            decreases i - j,
        {
            if str_eq(values[j].as_str(), values[i].as_str()) {
                assert(vs.take(i as int)[j as int] == vs[i as int]);
                bad = true;
            }
            j = j + 1;
        }
        if bad {
            return Err(invalid_data(ValidationFailure::InvalidListValue(String::from_str(name))));
        }
        assert(!vs.take(i as int).contains(vs[i as int]));
        i = i + 1;
    }
    Ok(())
}

impl ReferenceData {
    /// Whether some allergen has the identifier `id`.
    pub fn contains_allergen(&self, id: &str) -> (r: bool)
        ensures
            r == allergen_ids(self.allergens@).contains(id@),
    {
        let mut i: usize = 0;
        while i < self.allergens.len()
            invariant
                i <= self.allergens.len(),
                forall|k: int| 0 <= k < i ==> allergen_ids(self.allergens@)[k] != id@,
            decreases self.allergens.len() - i,
        {
            if str_eq(self.allergens[i].id.as_str(), id) {
                assert(allergen_ids(self.allergens@)[i as int] == id@);
                return true;
            }
            i = i + 1;
        }
        false
    }

    /// Whether `category` is a product category.
    pub fn contains_product_category(&self, category: &str) -> (r: bool)
        ensures
            r == self.product_categories.deep_view().contains(category@),
    {
        contains_value(&self.product_categories, category)
    }

    /// Whether `category` is an ingredient category.
    pub fn contains_ingredient_category(&self, category: &str) -> (r: bool)
        ensures
            r == self.ingredient_categories.deep_view().contains(category@),
    {
        contains_value(&self.ingredient_categories, category)
    }

    /// Checks the lists, and refuses them for the first problem found.
    pub fn validate(&self) -> (r: Result<(), InvalidData>)
        ensures
            match r {
                Ok(()) => reference_failure(*self) is None,
                Err(e) => Some(e.failure@) == reference_failure(*self) && e.message@
                    == failure_message(e.failure@),
            },
    {
        if is_blank_str(self.regulatory_profile.as_str()) {
            return Err(invalid_data(ValidationFailure::BlankProfile));
        }
        let ghost all = self.allergens@;
        let mut i: usize = 0;
        assert(all.take(0) =~= Seq::<AllergenDefinition>::empty());
        while i < self.allergens.len()
            invariant
                i <= self.allergens.len(),
                all == self.allergens@,
                !is_blank(self.regulatory_profile@),
                allergen_failure(all.take(i as int)) is None,
            decreases self.allergens.len() - i,
        {
            let a = &self.allergens[i];
            assert(all.take(i + 1).drop_last() =~= all.take(i as int));
            assert(all.take(i + 1).last() == all[i as int]);
            assert(*a == all[i as int]);
            if is_blank_str(a.id.as_str()) || is_blank_str(a.label.as_str()) {
                proof {
                    lemma_allergen_failure_prefix(all, i + 1);
                }
                return Err(invalid_data(ValidationFailure::IncompleteAllergen));
            }
            let mut j: usize = 0;
            while j < i
                invariant
                    j <= i < self.allergens.len(),
                    all == self.allergens@,
                    !is_blank(self.regulatory_profile@),
                    allergen_failure(all.take(i as int)) is None,
                    *a == all[i as int],
                    !is_blank(a.id@) && !is_blank(a.label@),
                    all.take(i + 1).drop_last() == all.take(i as int),
                    all.take(i + 1).last() == all[i as int],
                    forall|m: int| 0 <= m < j ==> allergen_ids(all.take(i as int))[m] != all[i as int].id@,
                decreases i - j,
            {
                assert(all.take(i as int)[j as int] == all[j as int]);
                assert(allergen_ids(all.take(i as int))[j as int] == all[j as int].id@);
                if str_eq(self.allergens[j].id.as_str(), a.id.as_str()) {
                    proof {
                        lemma_allergen_failure_prefix(all, i + 1);
                    }
                    return Err(
                        invalid_data(ValidationFailure::DuplicateAllergen(a.id.clone())),
                    );
                }
                j = j + 1;
            }
            assert(!allergen_ids(all.take(i as int)).contains(all[i as int].id@));
            i = i + 1;
        }
        assert(all.take(all.len() as int) =~= all);
        if str_eq(self.regulatory_profile.as_str(), "eu-1169-2011") {
            let ghost ids = allergen_ids(all);
            let mut r: usize = 0;
            while r < 14
                invariant
                    r <= 14,
                    all == self.allergens@,
                    !is_blank(self.regulatory_profile@),
                    allergen_failure(all) is None,
                    self.regulatory_profile@ == eu_profile(),
                    ids == allergen_ids(all),
                    required_eu_allergens().len() == 14,
                    forall|j: int| 0 <= j < r ==> ids.contains(#[trigger] required_eu_allergens()[j]),
                decreases 14 - r,
            {
                let required = required_eu_allergen(r);
                if !self.contains_allergen(required) {
                    proof {
                        lemma_missing_required_skip(ids, required_eu_allergens(), r as int);
                        assert(required_eu_allergens().skip(r as int)[0] == required_eu_allergens()[r as int]);
                    }
                    return Err(
                        invalid_data(
                            ValidationFailure::MissingRequiredAllergen(String::from_str(required)),
                        ),
                    );
                }
                r = r + 1;
            }
            proof {
                lemma_missing_required_skip(ids, required_eu_allergens(), 14);
            }
        }
        validate_unique_values("product_categories", self.product_categories.as_slice())?;
        validate_unique_values("ingredient_categories", self.ingredient_categories.as_slice())?;
        validate_unique_values("units", self.units.as_slice())?;
        Ok(())
    }
}

proof fn lemma_missing_required_none(ids: Seq<Seq<char>>, req: Seq<Seq<char>>)
    ensures
        missing_required(ids, req) is None <==> forall|j: int|
            0 <= j < req.len() ==> ids.contains(#[trigger] req[j]),
    decreases req.len(),
{
    if req.len() > 0 {
        lemma_missing_required_none(ids, req.drop_first());
        if missing_required(ids, req) is None {
            assert forall|j: int| 0 <= j < req.len() implies ids.contains(#[trigger] req[j]) by {
                if j > 0 {
                    assert(req.drop_first()[j - 1] == req[j]);
                }
            }
        } else if ids.contains(req[0]) {
            let j = choose|j: int|
                0 <= j < req.drop_first().len() && !ids.contains(#[trigger] req.drop_first()[j]);
            assert(req.drop_first()[j] == req[j + 1]);
        }
    }
}

/// Reference lists under the EU profile are refused whenever they lack an allergen that
/// the profile requires; accepted EU lists contain every one of them.
pub proof fn law_eu_profile_requires_every_eu_allergen(data: ReferenceData, required: Seq<char>)
    requires
        data.regulatory_profile@ == eu_profile(),
        required_eu_allergens().contains(required),
    ensures
        !allergen_ids(data.allergens@).contains(required) ==> reference_failure(data) is Some,
        reference_failure(data) is None ==> allergen_ids(data.allergens@).contains(required),
{
    lemma_missing_required_none(allergen_ids(data.allergens@), required_eu_allergens());
}

/// The allergens that the EU profile requires are exactly those that product allergen
/// lists keep.
pub proof fn law_required_allergens_are_the_eu_allergens(id: Seq<char>)
    ensures
        required_eu_allergens().contains(id) <==> crate::product::is_eu_allergen(id),
{
    let req = required_eu_allergens();
    if crate::product::is_eu_allergen(id) {
        if id == "gluten"@ { assert(req[0] == id); }
        else if id == "crustaces"@ { assert(req[1] == id); }
        else if id == "oeufs"@ { assert(req[2] == id); }
        else if id == "poissons"@ { assert(req[3] == id); }
        else if id == "arachides"@ { assert(req[4] == id); }
        else if id == "soja"@ { assert(req[5] == id); }
        else if id == "lait"@ { assert(req[6] == id); }
        else if id == "fruits-a-coque"@ { assert(req[7] == id); }
        else if id == "celeri"@ { assert(req[8] == id); }
        else if id == "moutarde"@ { assert(req[9] == id); }
        else if id == "sesame"@ { assert(req[10] == id); }
        else if id == "sulfites"@ { assert(req[11] == id); }
        else if id == "lupin"@ { assert(req[12] == id); }
        else { assert(req[13] == id); }
    }
}

/// Whether `values` holds `value`.
fn contains_value(values: &Vec<String>, value: &str) -> (r: bool)
    ensures
        r == values.deep_view().contains(value@),
{
    let mut i: usize = 0;
    while i < values.len()
        invariant
            i <= values.len(),
            forall|k: int| 0 <= k < i ==> values.deep_view()[k] != value@,
        decreases values.len() - i,
    {
        if str_eq(values[i].as_str(), value) {
            assert(values.deep_view()[i as int] == value@);
            return true;
        }
        i = i + 1;
    }
    false
}

} // verus!
