use code_terroir::auth::{registration_decision, tokens_match};
use code_terroir::html::escape_html;
use code_terroir::lookup::Lookup;
use code_terroir::producer::authorize_producer_update;
use code_terroir::product::{authorize_catalog_creation, authorize_catalog_update};
use code_terroir::records::RecordRequest;
use code_terroir::qr::{traceability_failure, visited_tag};
use code_terroir::responses::internal_error;
use code_terroir::roles::UserRole;

const TOKEN: &str = "0123456789abcdef0123456789abcdef";
const OWN: u128 = 7;
const OTHER: u128 = 8;

fn detail(e: &code_terroir::responses::ApiError) -> Option<(&str, &str)> {
    e.detail.as_ref().map(|(k, v)| (k.as_str(), v.as_str()))
}

#[test]
fn registration_closes_after_the_first_account() {
    let e = registration_decision(Lookup::Found(()), Some(TOKEN), Some(TOKEN)).unwrap_err();
    assert_eq!((e.status, e.error.as_str()), (403, "L'inscription publique est désactivée"));
    assert_eq!(registration_decision(Lookup::Missing, Some(TOKEN), Some(TOKEN)).ok(), Some(UserRole::Admin));
    let e = registration_decision(Lookup::Missing, Some(TOKEN), Some("0123456789abcdef0123456789abcdeX")).unwrap_err();
    assert_eq!((e.status, e.error.as_str()), (403, "Jeton d'initialisation invalide"));
    assert!(registration_decision(Lookup::Missing, Some(TOKEN), None).is_err());
    assert!(registration_decision(Lookup::Missing, None, Some(TOKEN)).is_err());
    assert!(registration_decision(Lookup::Missing, Some("short"), Some("short")).is_err());
    let e = registration_decision(Lookup::Failed(String::from("connection reset")), Some(TOKEN), Some(TOKEN)).unwrap_err();
    assert_eq!(e.status, 500);
    assert_eq!(detail(&e), Some(("details", "Erreur interne")));
}

#[test]
fn bootstrap_tokens_are_compared_whole() {
    assert!(tokens_match("abc", "abc"));
    assert!(!tokens_match("abc", "abd"));
    assert!(!tokens_match("abc", "ab"));
    assert!(!tokens_match("abc", "abcd"));
    assert!(tokens_match("", ""));
}

#[test]
fn products_are_written_by_catalog_roles_for_their_own_producer() {
    assert_eq!(authorize_catalog_creation(&UserRole::Atelier, OWN, None).ok(), Some(OWN));
    assert_eq!(authorize_catalog_creation(&UserRole::Admin, OWN, Some(OWN)).ok(), Some(OWN));
    assert_eq!(authorize_catalog_creation(&UserRole::Admin, OWN, Some(OTHER)).unwrap_err().status, 403);
    assert_eq!(authorize_catalog_creation(&UserRole::Quality, OWN, None).unwrap_err().status, 403);

    assert!(authorize_catalog_update(RecordRequest::UpdateProduct, &UserRole::Atelier, OWN, "p", Lookup::Found(OWN), None).is_ok());
    let e = authorize_catalog_update(RecordRequest::UpdateProduct, &UserRole::ReadOnly, OWN, "p", Lookup::Found(OWN), None).unwrap_err();
    assert_eq!((e.status, e.error.as_str()), (403, "Action non autorisée"));
    assert_eq!(authorize_catalog_update(RecordRequest::UpdateProduct, &UserRole::Admin, OWN, "p", Lookup::Found(OWN), Some(OTHER)).unwrap_err().status, 403);
    let foreign = authorize_catalog_update(RecordRequest::UpdateProduct, &UserRole::Admin, OWN, "p", Lookup::Found(OTHER), None).unwrap_err();
    let missing = authorize_catalog_update(RecordRequest::UpdateProduct, &UserRole::Admin, OWN, "p", Lookup::Missing, None).unwrap_err();
    assert_eq!((foreign.status, foreign.error.as_str()), (404, "Produit non trouvé"));
    assert_eq!((foreign.status, foreign.error.as_str(), detail(&foreign)), (missing.status, missing.error.as_str(), detail(&missing)));
    let e = authorize_catalog_update(RecordRequest::UpdateProduct, &UserRole::Admin, OWN, "p", Lookup::Failed(String::from("deadlock")), None).unwrap_err();
    assert_eq!((e.status, detail(&e)), (500, Some(("details", "Erreur interne"))));
}

#[test]
fn internal_errors_carry_no_cause() {
    let e = internal_error("Erreur lors du refresh token");
    assert_eq!((e.status, e.error.as_str(), detail(&e)), (500, "Erreur lors du refresh token", Some(("details", "Erreur interne"))));
    let e = visited_tag::<u8>(Lookup::Failed(String::from("syntax error at SELECT"))).unwrap_err();
    assert_eq!(detail(&e), Some(("details", "Erreur interne")));
    assert_eq!(detail(&traceability_failure()), Some(("details", "Erreur interne")));
}

#[test]
fn escaping_keeps_what_was_typed() {
    assert_eq!(escape_html("&lt;"), "&amp;lt;");
    assert_eq!(escape_html("<a href=\"x\">'</a> & co"), "&lt;a href=&quot;x&quot;&gt;&#x27;&lt;/a&gt; &amp; co");
}

#[test]
fn ingredients_and_producers_stay_with_their_producer() {
    let e = authorize_catalog_update(RecordRequest::UpdateIngredient, &UserRole::Atelier, OWN, "i", Lookup::Found(OTHER), None)
        .unwrap_err();
    assert_eq!((e.status, e.error.as_str()), (404, "Ingrédient non trouvé"));
    assert!(authorize_catalog_update(RecordRequest::UpdateIngredient, &UserRole::Atelier, OWN, "i", Lookup::Found(OWN), None).is_ok());
    assert!(authorize_producer_update(&UserRole::Admin, OWN, OWN, "p").is_ok());
    let e = authorize_producer_update(&UserRole::Admin, OWN, OTHER, "p").unwrap_err();
    assert_eq!((e.status, e.error.as_str()), (404, "Producteur non trouvé"));
    assert_eq!(authorize_producer_update(&UserRole::Atelier, OWN, OWN, "p").unwrap_err().status, 403);
}

#[test]
fn escaped_text_reads_back_by_replacing_references_in_turn() {
    for text in ["&lt;", "<b>\"x\" & 'y'</b>", "&amp;&#x27;", "plain"] {
        let escaped = escape_html(text);
        let back = escaped
            .replace("&lt;", "<")
            .replace("&gt;", ">")
            .replace("&quot;", "\"")
            .replace("&#x27;", "'")
            .replace("&amp;", "&");
        assert_eq!(back, text);
    }
}
