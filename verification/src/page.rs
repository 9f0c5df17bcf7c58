//! The public traceability page of a batch: the product, its allergens and nutrition, the
//! producers involved and the lot, with every stored text escaped.

use vstd::prelude::*;
use crate::dates::{format_utc, utc_text, MAX_UTC_TIMESTAMP, MIN_UTC_TIMESTAMP};
use crate::html::{escape_html, generate_error_html, html_escaped, error_page, product_image, product_image_markup};
use crate::text::{int_text, int_to_text};

verus! {

/// The page text before the page title.
pub const PAGE_BEFORE_TITLE: &'static str = r#"
<!DOCTYPE html>
<html lang="fr">
<head>
    <meta charset="UTF-8">
    <meta name="viewport" content="width=device-width, initial-scale=1.0">
    <title>Traçabilité - "#;

/// The page text before the product heading.
pub const PAGE_BEFORE_PRODUCT_NAME: &'static str = r#"</title>
    <style>
        body { font-family: Georgia, serif; margin: 0; background: linear-gradient(180deg, #f7f1e8 0%, #f3f6f0 100%); color: #2e2a24; }
        .container { max-width: 860px; margin: 24px auto; background: rgba(255,255,255,0.92); padding: 32px; border-radius: 18px; box-shadow: 0 20px 45px rgba(62, 48, 32, 0.12); }
        .header { text-align: center; border-bottom: 2px solid #b7732d; padding-bottom: 24px; margin-bottom: 30px; }
        .brand { font-size: 14px; letter-spacing: 0.24em; text-transform: uppercase; color: #9c5c1a; margin-bottom: 8px; }
        .product-name { color: #5f3a14; font-size: 32px; font-weight: bold; margin-bottom: 10px; }
        .section { margin-bottom: 25px; }
        .section h3 { color: #495057; border-left: 4px solid #b7732d; padding-left: 15px; margin-bottom: 15px; }
        .info-grid { display: grid; gap: 10px; }
        .info-item { display: flex; justify-content: space-between; padding: 8px 0; border-bottom: 1px solid #eee; }
        .label { font-weight: bold; color: #495057; }
        .value { color: #6c757d; }
        .footer { text-align: center; margin-top: 30px; padding-top: 20px; border-top: 1px solid #eee; color: #6c757d; font-size: 14px; }
        .labels { display: flex; gap: 10px; flex-wrap: wrap; }
        .label-badge { background: #5f7f4a; color: white; padding: 4px 12px; border-radius: 20px; font-size: 12px; }
        .label-badge.allergen { background: #a03a2d; }
        .hero { display: grid; grid-template-columns: 220px 1fr; gap: 24px; align-items: center; margin-bottom: 28px; }
        .hero img { width: 100%; border-radius: 16px; object-fit: cover; box-shadow: 0 10px 24px rgba(0,0,0,0.12); }
        .nutriscore { display: inline-flex; gap: 8px; align-items: center; background: #fff5e8; color: #8a5200; border: 1px solid #efcfad; padding: 8px 12px; border-radius: 999px; font-weight: bold; }
        .producer-list { display: grid; gap: 12px; }
        .producer-card { padding: 12px 14px; border: 1px solid #e8dfd3; border-radius: 10px; background: #fff; }
        @media (max-width: 720px) { .hero { grid-template-columns: 1fr; } }
    </style>
</head>
<body>
    <div class="container">
        <div class="header">
            <div class="brand">Apothicaire Culinaire</div>
            <div class="product-name">"#;

/// The page text before the product picture.
pub const PAGE_BEFORE_IMAGE: &'static str = r#"</div>
            <p>Traçabilité artisanale authentifiée</p>
        </div>

        <div class="hero">
            <div>"#;

/// The page text before the Nutri-Score badge.
pub const PAGE_BEFORE_NUTRISCORE: &'static str = r#"</div>
            <div>
                "#;

/// The page text before the value of the `Nom` row.
pub const PAGE_BEFORE_NAME_VALUE: &'static str = r#"
                <div class="info-grid">
                    <div class="info-item">
                        <span class="label">Nom :</span>
                        <span class="value">"#;

/// The page text before the value of the `Catégorie` row.
pub const PAGE_BEFORE_CATEGORY_VALUE: &'static str = r#"</span>
                    </div>
                    <div class="info-item">
                        <span class="label">Catégorie :</span>
                        <span class="value">"#;

/// The page text before the first line of the product details.
pub const PAGE_BEFORE_FIRST_DETAIL: &'static str = r#"</span>
                    </div>
                </div>
            </div>
        </div>

        <div class="section">
            <h3>📦 Informations Produit</h3>
            <div class="info-grid">
                "#;

/// The page text before the second line of the product details.
pub const PAGE_BEFORE_SECOND_DETAIL: &'static str = r#"
                "#;

/// The page text before the third line of the product details.
pub const PAGE_BEFORE_THIRD_DETAIL: &'static str = r#"
                "#;

/// The page text before the allergen badges.
pub const PAGE_BEFORE_ALLERGENS: &'static str = r#"
            </div>
        </div>

        <div class="section">
            <h3>⚠️ Allergènes</h3>
            <div class="labels">"#;

/// The page text before the nutrition rows.
pub const PAGE_BEFORE_NUTRITION: &'static str = r#"</div>
        </div>

        <div class="section">
            <h3>🥄 Valeurs nutritionnelles pour 100 g</h3>
            <div class="info-grid">"#;

/// The page text before the macronutrient rows.
pub const PAGE_BEFORE_MACROS: &'static str = r#"</div>
        </div>

        <div class="section">
            <h3>📊 Apport énergétique et répartition des macronutriments</h3>
            <div class="info-grid">"#;

/// The page text before the ingredient cards.
pub const PAGE_BEFORE_PRODUCERS: &'static str = r#"</div>
        </div>

        <div class="section">
            <h3>🧑‍🌾 Producteurs impliqués</h3>
            <div class="producer-list">"#;

/// The page text before the lot code.
pub const PAGE_BEFORE_LOT_CODE: &'static str = r#"</div>
        </div>

        <div class="section">
            <h3>🏷️ Lot de Production</h3>
            <div class="info-grid">
                <div class="info-item">
                    <span class="label">Code lot :</span>
                    <span class="value">"#;

/// The page text before the production date.
pub const PAGE_BEFORE_PRODUCTION_DATE: &'static str = r#"</span>
                </div>
                <div class="info-item">
                    <span class="label">Date de production :</span>
                    <span class="value">"#;

/// The page text before the best-before date.
pub const PAGE_BEFORE_BEST_BEFORE: &'static str = r#"</span>
                </div>
                <div class="info-item">
                    <span class="label">DLUO/DDM :</span>
                    <span class="value">"#;

/// The page text before the quantity produced.
pub const PAGE_BEFORE_QUANTITY: &'static str = r#"</span>
                </div>
                <div class="info-item">
                    <span class="label">Quantité produite :</span>
                    <span class="value">"#;

/// The page text before the production site.
pub const PAGE_BEFORE_SITE: &'static str = r#" unités</span>
                </div>
                <div class="info-item">
                    <span class="label">Site de production :</span>
                    <span class="value">"#;

/// The page text before the notes row.
pub const PAGE_BEFORE_NOTES: &'static str = r#"</span>
                </div>
                "#;

/// The page text before the scan time.
pub const PAGE_BEFORE_SCAN_TIME: &'static str = r#"
            </div>
        </div>

        <div class="footer">
            <p>✅ Authentifié par Code Terroir</p>
            <p>Scan effectué le "#;

/// The end of the page.
pub const PAGE_END: &'static str = r#"</p>
        </div>
    </div>
</body>
</html>
            "#;

/// An ingredient of the product and the producer who supplies it, as the page shows them.
#[derive(Debug, Clone)]
pub struct IngredientLine {
    pub ingredient_name: String,
    pub ingredient_category: Option<String>,
    pub producer_name: String,
    pub producer_city: String,
    pub producer_email: String,
    pub producer_phone: Option<String>,
}

/// What the traceability page of a batch shows. Nutrition and macronutrient rows come as
/// (label, value) pairs already written; instants are Unix seconds.
#[derive(Debug, Clone)]
pub struct TraceabilityPage {
    pub product_name: String,
    pub category: String,
    pub image_url: Option<String>,
    pub nutriscore: Option<String>,
    pub description: Option<String>,
    pub labels: Vec<String>,
    pub usage_advice: Option<String>,
    pub allergens: Vec<String>,
    pub nutrition_rows: Vec<(String, String)>,
    pub macro_rows: Vec<(String, String)>,
    pub ingredients: Vec<IngredientLine>,
    pub lot_code: String,
    pub production_date: i64,
    pub best_before: i64,
    pub quantity_produced: i32,
    pub production_site: String,
    pub notes: Option<String>,
    pub scanned_at: i64,
}

/// The characters of an optional text.
pub open spec fn opt_view(o: Option<String>) -> Option<Seq<char>> {
    match o {
        Some(s) => Some(s@),
        None => None,
    }
}

/// The Nutri-Score badge, when the product has a grade.
pub open spec fn nutriscore_badge(grade: Option<Seq<char>>) -> Seq<char> {
    match grade {
        Some(g) => "<div class=\"nutriscore\">Nutriscore "@ + html_escaped(g) + "</div>"@,
        None => Seq::empty(),
    }
}

/// A row of the page with `label` and the already written `value`.
pub open spec fn info_row(label: Seq<char>, value: Seq<char>) -> Seq<char> {
    "<div class=\"info-item\"><span class=\"label\">"@ + label + " :</span><span class=\"value\">"@
        + value + "</span></div>"@
}

/// The row showing an optional stored text under `label`, nothing when it is absent.
pub open spec fn detail_row(label: Seq<char>, text: Option<Seq<char>>) -> Seq<char> {
    match text {
        Some(t) => info_row(label, html_escaped(t)),
        None => Seq::empty(),
    }
}

/// Badges for `items`, each opened by `open`.
pub open spec fn badges(items: Seq<Seq<char>>, open: Seq<char>) -> Seq<char>
    decreases items.len(),
{
    if items.len() == 0 {
        Seq::empty()
    } else {
        badges(items.drop_last(), open) + open + html_escaped(items.last()) + "</span>"@
    }
}

/// The row of the product's labels, nothing when it has none.
pub open spec fn labels_row(labels: Seq<Seq<char>>) -> Seq<char> {
    if labels.len() == 0 {
        Seq::empty()
    } else {
        "<div class=\"info-item\"><span class=\"label\">Labels :</span><div class=\"labels\">"@
            + badges(labels, "<span class=\"label-badge\">"@) + "</div></div>"@
    }
}

/// The allergen badges, or the statement that none is declared.
pub open spec fn allergen_badges(allergens: Seq<Seq<char>>) -> Seq<char> {
    if allergens.len() == 0 {
        "<span class=\"value\">Aucun allergène déclaré</span>"@
    } else {
        badges(allergens, "<span class=\"label-badge allergen\">"@)
    }
}

/// The rows for already written (label, value) pairs.
pub open spec fn info_rows(rows: Seq<(String, String)>) -> Seq<char>
    decreases rows.len(),
{
    if rows.len() == 0 {
        Seq::empty()
    } else {
        info_rows(rows.drop_last()) + info_row(rows.last().0@, rows.last().1@)
    }
}

/// The card of an ingredient and its producer.
pub open spec fn ingredient_card(line: IngredientLine) -> Seq<char> {
    "<div class=\"producer-card\"><strong>"@ + html_escaped(line.ingredient_name@) + "</strong><div>"@
        + html_escaped(
        match line.ingredient_category {
            Some(c) => c@,
            None => "catégorie non renseignée"@,
        },
    ) + "</div><div>Producteur: "@ + html_escaped(line.producer_name@) + " ("@ + html_escaped(
        line.producer_city@,
    ) + ")</div><div>Contact: "@ + html_escaped(line.producer_email@) + match line.producer_phone {
        Some(phone) => " · "@ + html_escaped(phone@),
        None => Seq::empty(),
    } + "</div></div>"@
}

/// The cards of the ingredients, in order.
pub open spec fn ingredient_cards(lines: Seq<IngredientLine>) -> Seq<char>
    decreases lines.len(),
{
    if lines.len() == 0 {
        Seq::empty()
    } else {
        ingredient_cards(lines.drop_last()) + ingredient_card(lines.last())
    }
}

/// Whether the instants of the page can be written as dates.
pub open spec fn page_dates_fit(p: TraceabilityPage) -> bool {
    &&& MIN_UTC_TIMESTAMP <= p.production_date <= MAX_UTC_TIMESTAMP
    &&& MIN_UTC_TIMESTAMP <= p.best_before <= MAX_UTC_TIMESTAMP
    &&& MIN_UTC_TIMESTAMP <= p.scanned_at <= MAX_UTC_TIMESTAMP
}

/// The traceability page, each part in its slot of the template.
pub open spec fn traceability_page(p: TraceabilityPage) -> Seq<char> {
    PAGE_BEFORE_TITLE@
        + html_escaped(p.product_name@)
        + PAGE_BEFORE_PRODUCT_NAME@
        + html_escaped(p.product_name@)
        + PAGE_BEFORE_IMAGE@
        + product_image(opt_view(p.image_url), p.product_name@)
        + PAGE_BEFORE_NUTRISCORE@
        + nutriscore_badge(opt_view(p.nutriscore))
        + PAGE_BEFORE_NAME_VALUE@
        + detail_row("Description"@, opt_view(p.description))
        + PAGE_BEFORE_CATEGORY_VALUE@
        + labels_row(p.labels.deep_view())
        + PAGE_BEFORE_FIRST_DETAIL@
        + detail_row("Conseils"@, opt_view(p.usage_advice))
        + PAGE_BEFORE_SECOND_DETAIL@
        + html_escaped(p.product_name@)
        + PAGE_BEFORE_THIRD_DETAIL@
        + html_escaped(p.category@)
        + PAGE_BEFORE_ALLERGENS@
        + allergen_badges(p.allergens.deep_view())
        + PAGE_BEFORE_NUTRITION@
        + info_rows(p.nutrition_rows@)
        + PAGE_BEFORE_MACROS@
        + info_rows(p.macro_rows@)
        + PAGE_BEFORE_PRODUCERS@
        + ingredient_cards(p.ingredients@)
        + PAGE_BEFORE_LOT_CODE@
        + html_escaped(p.lot_code@)
        + PAGE_BEFORE_PRODUCTION_DATE@
        + utc_text(p.production_date, "%d/%m/%Y à %H:%M"@)
        + PAGE_BEFORE_BEST_BEFORE@
        + utc_text(p.best_before, "%d/%m/%Y"@)
        + PAGE_BEFORE_QUANTITY@
        + int_text(p.quantity_produced as int)
        + PAGE_BEFORE_SITE@
        + html_escaped(p.production_site@)
        + PAGE_BEFORE_NOTES@
        + detail_row("Notes"@, opt_view(p.notes))
        + PAGE_BEFORE_SCAN_TIME@
        + utc_text(p.scanned_at, "%d/%m/%Y à %H:%M UTC"@)
        + PAGE_END@
}

fn opt_ref(o: &Option<String>) -> (r: Option<&str>)
    ensures
        match r {
            Some(s) => opt_view(*o) == Some(s@),
            None => o is None,
        },
{
    match o {
        Some(s) => Some(s.as_str()),
        None => None,
    }
}

fn nutriscore_badge_html(grade: &Option<String>) -> (r: String)
    ensures
        r@ == nutriscore_badge(opt_view(*grade)),
{
    match grade {
        Some(g) => {
            let mut out = String::from_str("<div class=\"nutriscore\">Nutriscore ");
            out.append(escape_html(g.as_str()).as_str());
            out.append("</div>");
            out
        },
        None => {
            proof {
                reveal_strlit("");
            }
            String::from_str("")
        },
    }
}

fn info_row_html(label: &str, value: &str) -> (r: String)
    ensures
        r@ == info_row(label@, value@),
{
    let mut out = String::from_str("<div class=\"info-item\"><span class=\"label\">");
    out.append(label);
    out.append(" :</span><span class=\"value\">");
    out.append(value);
    out.append("</span></div>");
    out
}

fn detail_row_html(label: &str, text: &Option<String>) -> (r: String)
    ensures
        r@ == detail_row(label@, opt_view(*text)),
{
    match text {
        Some(t) => info_row_html(label, escape_html(t.as_str()).as_str()),
        None => {
            proof {
                reveal_strlit("");
            }
            String::from_str("")
        },
    }
}

fn badges_html(items: &Vec<String>, open: &str) -> (r: String)
    ensures
        r@ == badges(items.deep_view(), open@),
{
    let mut out = String::from_str("");
    proof {
        reveal_strlit("");
    }
    let mut i: usize = 0;
    while i < items.len()
        invariant
            i <= items.len(),
            out@ == badges(items.deep_view().take(i as int), open@),
        decreases items.len() - i,
    {
        assert(items.deep_view().take(i + 1).drop_last() =~= items.deep_view().take(i as int));
        out.append(open);
        out.append(escape_html(items[i].as_str()).as_str());
        out.append("</span>");
        i = i + 1;
    }
    assert(items.deep_view().take(items.len() as int) =~= items.deep_view());
    out
}

fn labels_row_html(labels: &Vec<String>) -> (r: String)
    ensures
        r@ == labels_row(labels.deep_view()),
{
    if labels.len() == 0 {
        proof {
            reveal_strlit("");
        }
        String::from_str("")
    } else {
        let mut out = String::from_str(
            "<div class=\"info-item\"><span class=\"label\">Labels :</span><div class=\"labels\">",
        );
        out.append(badges_html(labels, "<span class=\"label-badge\">").as_str());
        out.append("</div></div>");
        out
    }
}

fn allergen_badges_html(allergens: &Vec<String>) -> (r: String)
    ensures
        r@ == allergen_badges(allergens.deep_view()),
{
    if allergens.len() == 0 {
        String::from_str("<span class=\"value\">Aucun allergène déclaré</span>")
    } else {
        badges_html(allergens, "<span class=\"label-badge allergen\">")
    }
}

fn info_rows_html(rows: &Vec<(String, String)>) -> (r: String)
    ensures
        r@ == info_rows(rows@),
{
    let mut out = String::from_str("");
    proof {
        reveal_strlit("");
    }
    let mut i: usize = 0;
    while i < rows.len()
        invariant
            i <= rows.len(),
            out@ == info_rows(rows@.take(i as int)),
        decreases rows.len() - i,
    {
        assert(rows@.take(i + 1).drop_last() =~= rows@.take(i as int));
        let row = info_row_html(rows[i].0.as_str(), rows[i].1.as_str());
        out.append(row.as_str());
        i = i + 1;
    }
    assert(rows@.take(rows.len() as int) =~= rows@);
    out
}

fn ingredient_card_html(line: &IngredientLine) -> (r: String)
    ensures
        r@ == ingredient_card(*line),
{
    let mut out = String::from_str("<div class=\"producer-card\"><strong>");
    out.append(escape_html(line.ingredient_name.as_str()).as_str());
    out.append("</strong><div>");
    let category: &str = match &line.ingredient_category {
        Some(c) => c.as_str(),
        None => "catégorie non renseignée",
    };
    out.append(escape_html(category).as_str());
    out.append("</div><div>Producteur: ");
    out.append(escape_html(line.producer_name.as_str()).as_str());
    out.append(" (");
    out.append(escape_html(line.producer_city.as_str()).as_str());
    out.append(")</div><div>Contact: ");
    out.append(escape_html(line.producer_email.as_str()).as_str());
    match &line.producer_phone {
        Some(phone) => {
            out.append(" · ");
            out.append(escape_html(phone.as_str()).as_str());
        },
        None => {},
    }
    out.append("</div></div>");
    out
}

fn ingredient_cards_html(lines: &Vec<IngredientLine>) -> (r: String)
    ensures
        r@ == ingredient_cards(lines@),
{
    let mut out = String::from_str("");
    proof {
        reveal_strlit("");
    }
    let mut i: usize = 0;
    while i < lines.len()
        invariant
            i <= lines.len(),
            out@ == ingredient_cards(lines@.take(i as int)),
        decreases lines.len() - i,
    {
        assert(lines@.take(i + 1).drop_last() =~= lines@.take(i as int));
        let card = ingredient_card_html(&lines[i]);
        out.append(card.as_str());
        i = i + 1;
    }
    assert(lines@.take(lines.len() as int) =~= lines@);
    out
}

/// The traceability page of a batch whose product and lot are known.
pub fn traceability_html(page: &TraceabilityPage) -> (r: String)
    requires
        page_dates_fit(*page),
    ensures
        r@ == traceability_page(*page),
{
    proof {
        reveal_strlit("%d/%m/%Y à %H:%M");
        reveal_strlit("%d/%m/%Y");
        reveal_strlit("%d/%m/%Y à %H:%M UTC");
    }
    let mut out = String::from_str(PAGE_BEFORE_TITLE);
    let part = escape_html(page.product_name.as_str());
    out.append(part.as_str());
    out.append(PAGE_BEFORE_PRODUCT_NAME);
    let part = escape_html(page.product_name.as_str());
    out.append(part.as_str());
    out.append(PAGE_BEFORE_IMAGE);
    let part = product_image_markup(opt_ref(&page.image_url), page.product_name.as_str());
    out.append(part.as_str());
    out.append(PAGE_BEFORE_NUTRISCORE);
    let part = nutriscore_badge_html(&page.nutriscore);
    out.append(part.as_str());
    out.append(PAGE_BEFORE_NAME_VALUE);
    let part = detail_row_html("Description", &page.description);
    out.append(part.as_str());
    out.append(PAGE_BEFORE_CATEGORY_VALUE);
    let part = labels_row_html(&page.labels);
    out.append(part.as_str());
    out.append(PAGE_BEFORE_FIRST_DETAIL);
    let part = detail_row_html("Conseils", &page.usage_advice);
    out.append(part.as_str());
    out.append(PAGE_BEFORE_SECOND_DETAIL);
    let part = escape_html(page.product_name.as_str());
    out.append(part.as_str());
    out.append(PAGE_BEFORE_THIRD_DETAIL);
    let part = escape_html(page.category.as_str());
    out.append(part.as_str());
    out.append(PAGE_BEFORE_ALLERGENS);
    let part = allergen_badges_html(&page.allergens);
    out.append(part.as_str());
    out.append(PAGE_BEFORE_NUTRITION);
    let part = info_rows_html(&page.nutrition_rows);
    out.append(part.as_str());
    out.append(PAGE_BEFORE_MACROS);
    let part = info_rows_html(&page.macro_rows);
    out.append(part.as_str());
    out.append(PAGE_BEFORE_PRODUCERS);
    let part = ingredient_cards_html(&page.ingredients);
    out.append(part.as_str());
    out.append(PAGE_BEFORE_LOT_CODE);
    let part = escape_html(page.lot_code.as_str());
    out.append(part.as_str());
    out.append(PAGE_BEFORE_PRODUCTION_DATE);
    let part = format_utc(page.production_date, "%d/%m/%Y à %H:%M");
    out.append(part.as_str());
    out.append(PAGE_BEFORE_BEST_BEFORE);
    let part = format_utc(page.best_before, "%d/%m/%Y");
    out.append(part.as_str());
    out.append(PAGE_BEFORE_QUANTITY);
    let part = int_to_text(page.quantity_produced);
    out.append(part.as_str());
    out.append(PAGE_BEFORE_SITE);
    let part = escape_html(page.production_site.as_str());
    out.append(part.as_str());
    out.append(PAGE_BEFORE_NOTES);
    let part = detail_row_html("Notes", &page.notes);
    out.append(part.as_str());
    out.append(PAGE_BEFORE_SCAN_TIME);
    let part = format_utc(page.scanned_at, "%d/%m/%Y à %H:%M UTC");
    out.append(part.as_str());
    out.append(PAGE_END);
    out
}

/// The page a traceability code shows: the batch's page when its product and lot are
/// known, else the page for an unknown code, written `inconnu`.
pub fn generate_traceability_html(page: Option<&TraceabilityPage>) -> (r: String)
    requires
        page matches Some(p) ==> page_dates_fit(*p),
    ensures
        match page {
            Some(p) => r@ == traceability_page(*p),
            None => r@ == error_page("inconnu"@),
        },
{
    match page {
        Some(p) => traceability_html(p),
        None => generate_error_html("inconnu"),
    }
}

/// The lot section of a page: the production instant in the production-date row, then the
/// best-before day (DLUO/DDM), then the quantity produced.
pub open spec fn lot_dates_section(production: Seq<char>, best_before: Seq<char>) -> Seq<char> {
    PAGE_BEFORE_PRODUCTION_DATE@ + production + PAGE_BEFORE_BEST_BEFORE@ + best_before
        + PAGE_BEFORE_QUANTITY@
}

/// The production-date row shows the UTC day and minute of the batch's production, and the
/// DLUO/DDM row shows the UTC day of its best-before instant: each date is read from its
/// own field of the batch, whatever the other holds.
pub proof fn law_lot_rows_show_their_own_dates(p: TraceabilityPage)
    ensures
        exists|before: Seq<char>, after: Seq<char>|
            traceability_page(p) == before + lot_dates_section(
                utc_text(p.production_date, "%d/%m/%Y à %H:%M"@),
                utc_text(p.best_before, "%d/%m/%Y"@),
            ) + after,
{
    let before = PAGE_BEFORE_TITLE@
        + html_escaped(p.product_name@)
        + PAGE_BEFORE_PRODUCT_NAME@
        + html_escaped(p.product_name@)
        + PAGE_BEFORE_IMAGE@
        + product_image(opt_view(p.image_url), p.product_name@)
        + PAGE_BEFORE_NUTRISCORE@
        + nutriscore_badge(opt_view(p.nutriscore))
        + PAGE_BEFORE_NAME_VALUE@
        + detail_row("Description"@, opt_view(p.description))
        + PAGE_BEFORE_CATEGORY_VALUE@
        + labels_row(p.labels.deep_view())
        + PAGE_BEFORE_FIRST_DETAIL@
        + detail_row("Conseils"@, opt_view(p.usage_advice))
        + PAGE_BEFORE_SECOND_DETAIL@
        + html_escaped(p.product_name@)
        + PAGE_BEFORE_THIRD_DETAIL@
        + html_escaped(p.category@)
        + PAGE_BEFORE_ALLERGENS@
        + allergen_badges(p.allergens.deep_view())
        + PAGE_BEFORE_NUTRITION@
        + info_rows(p.nutrition_rows@)
        + PAGE_BEFORE_MACROS@
        + info_rows(p.macro_rows@)
        + PAGE_BEFORE_PRODUCERS@
        + ingredient_cards(p.ingredients@)
        + PAGE_BEFORE_LOT_CODE@
        + html_escaped(p.lot_code@);
    let after = int_text(p.quantity_produced as int)
        + PAGE_BEFORE_SITE@
        + html_escaped(p.production_site@)
        + PAGE_BEFORE_NOTES@
        + detail_row("Notes"@, opt_view(p.notes))
        + PAGE_BEFORE_SCAN_TIME@
        + utc_text(p.scanned_at, "%d/%m/%Y à %H:%M UTC"@)
        + PAGE_END@;
    let section = lot_dates_section(
        utc_text(p.production_date, "%d/%m/%Y à %H:%M"@),
        utc_text(p.best_before, "%d/%m/%Y"@),
    );
    assert(traceability_page(p) =~= before + section + after);
}

} // verus!
