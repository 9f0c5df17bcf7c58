use code_terroir::auth::{
    bearer_token, check_email_free, checked_token_window, check_login, check_refresh_session, check_password_length, check_token_type, counter_lifetime_seconds,
    expires_in_seconds, is_failed_attempt, login_attempt_key, login_failure_outcome, login_is_rate_limited,
    refresh_account, refresh_validity_hours, registration_producer, retry_after_seconds, token_subject,
    token_window, CounterRead, LoginAccount, LoginFailure,
};
use code_terroir::batch::{batch_lot_code, BatchState};
use code_terroir::boxes::IndividualBox;
use code_terroir::catalog::{catalog_category, dedupe_public_producers, PublicProducerInfo};
use code_terroir::config::{bootstrap_token, parse_cors_origins, parse_unsigned, AppConfig, ConfigError, ConfigSettings, SecurityConfig};
use code_terroir::html::{generate_error_html, product_image_markup};
use code_terroir::lookup::Lookup;
use code_terroir::network::{parse_ip_network, IpNet};
use code_terroir::page::{generate_traceability_html, IngredientLine, TraceabilityPage};
use code_terroir::product::{allergens_update, check_ingredient_link, link_sort_orders, product_producer};
use code_terroir::qr::{generate_qr_codes, prepare_qr_tag, requested_format, scanned_tag, traceability_message, visited_tag, QRFormat, SLUG_CHARS};
use code_terroir::quality::QACheckType;
use code_terroir::recipes::{creation_version, next_recipe_version, plan_recipe_update, RecipeChanges, RecipeHeader};
use code_terroir::records::{check_reference, failure_reply, parse_record_id, record_answer, Entity, RecordRequest, ReferenceCheck};
use code_terroir::reference_data::validate_unique_values;
use code_terroir::responses::{rejection_reply, RejectionKind};
use code_terroir::roles::{authorize, authorize_producer_write, Action, UserRole};

const BATCH: u128 = 0x1234_5678_9abc_def0_1122_3344_5566_7788;

fn detail(e: &code_terroir::responses::ApiError) -> Option<(&str, &str)> {
    e.detail.as_ref().map(|(k, v)| (k.as_str(), v.as_str()))
}

#[test]
fn the_lockout_starts_at_the_configured_number_of_failures() {
    assert!(!login_is_rate_limited(CounterRead::Count(4), 5));
    assert!(login_is_rate_limited(CounterRead::Count(5), 5));
    assert!(login_is_rate_limited(CounterRead::Count(9), 5));
    assert!(login_is_rate_limited(CounterRead::Count(1), 0));
    assert!(!login_is_rate_limited(CounterRead::Missing, 5));
    assert!(!login_is_rate_limited(CounterRead::Unavailable, 1));
    assert_eq!(login_failure_outcome(4, 5, 30), LoginFailure::InvalidCredentials);
    assert_eq!(login_failure_outcome(5, 5, 30), LoginFailure::TooManyAttempts { retry_after_seconds: 1800 });
    assert_eq!(login_failure_outcome(0, 5, 30), LoginFailure::InvalidCredentials);
}

#[test]
fn lockout_and_token_lifetimes_saturate() {
    assert_eq!(retry_after_seconds(0), 60);
    assert_eq!(retry_after_seconds(30), 1800);
    assert_eq!(retry_after_seconds(u64::MAX), u64::MAX);
    assert_eq!(counter_lifetime_seconds(u64::MAX), i64::MAX);
    assert_eq!(counter_lifetime_seconds(30), 1800);
    assert_eq!(expires_in_seconds(24), 86_400);
    assert_eq!(expires_in_seconds(u64::MAX), i64::MAX);
    assert_eq!(refresh_validity_hours(24), 576);
    assert_eq!(refresh_validity_hours(u64::MAX), i64::MAX as u64);
    assert_eq!(token_window(1_000, 2), (1_000, 8_200));
    assert_eq!(checked_token_window(1_000, 2), Some((1_000, 8_200)));
    assert_eq!(checked_token_window(8_210_266_876_799, 1), None);
    assert_eq!(checked_token_window(0, u64::MAX), None);
    assert_eq!(checked_token_window(-8_334_601_228_801, 0), None);
}

#[test]
fn login_attempt_keys_are_prefixed_hex_digests() {
    let key = login_attempt_key("someone@example.test");
    assert_eq!(key.len(), 84);
    assert!(key.starts_with("auth:login-attempts:"));
    assert!(key[20..].chars().all(|c| c.is_ascii_hexdigit() && !c.is_ascii_uppercase()));
    assert_ne!(key, login_attempt_key("someone-else@example.test"));
}

#[test]
fn login_refusals_come_in_order() {
    let active = LoginAccount { is_active: true, totp_enabled: false };
    let with_totp = LoginAccount { is_active: true, totp_enabled: true };
    let disabled = LoginAccount { is_active: false, totp_enabled: false };
    assert!(check_login(Lookup::Found(active), true).is_ok());
    let e = check_login(Lookup::Missing, true).unwrap_err();
    assert_eq!((e.status, e.error.as_str()), (401, "Identifiants invalides"));
    let e = check_login(Lookup::Found(disabled), false).unwrap_err();
    assert_eq!((e.status, e.error.as_str()), (403, "Utilisateur désactivé"));
    let e = check_login(Lookup::Found(active), false).unwrap_err();
    assert_eq!((e.status, e.error.as_str()), (401, "Identifiants invalides"));
    let e = check_login(Lookup::Found(with_totp), true).unwrap_err();
    assert_eq!((e.status, e.error.as_str()), (401, "Code TOTP requis pour cet utilisateur"));
    assert!(is_failed_attempt(&Lookup::Missing, false));
    assert!(is_failed_attempt(&Lookup::Found(active), false));
    assert!(!is_failed_attempt(&Lookup::Found(disabled), false));
    assert!(!is_failed_attempt(&Lookup::Found(with_totp), true));
    let e = check_login(Lookup::Failed(String::from("db down")), true).unwrap_err();
    assert_eq!(e.status, 500);
    assert_eq!(detail(&e), Some(("details", "Erreur interne")));
}

#[test]
fn registration_checks() {
    let e = check_password_length("short", 8).unwrap_err();
    assert_eq!(e.status, 400);
    assert_eq!(e.error, "Le mot de passe doit faire au moins 8 caractères");
    assert!(check_password_length("long enough", 8).is_ok());
    assert_eq!(registration_producer(Some(7), Lookup::Found(7)).ok(), Some(7));
    assert_eq!(registration_producer(None, Lookup::Found(3)).ok(), Some(3));
    let e = registration_producer(Some(7), Lookup::Missing).unwrap_err();
    assert_eq!((e.status, e.error.as_str()), (400, "Producteur introuvable"));
    let e = registration_producer(None, Lookup::Missing).unwrap_err();
    assert_eq!((e.status, e.error.as_str()), (400, "Aucun producteur disponible"));
    assert!(check_email_free(Lookup::Missing).is_ok());
    let e = check_email_free(Lookup::Found(1)).unwrap_err();
    assert_eq!((e.status, e.error.as_str()), (409, "Un utilisateur existe déjà avec cet email"));
}

#[test]
fn refresh_tokens_are_checked() {
    assert!(check_token_type("refresh", "refresh").is_ok());
    let e = check_token_type("access", "refresh").unwrap_err();
    assert_eq!((e.status, e.error.as_str()), (401, "Type de token invalide"));
    assert_eq!(token_subject(Some(9)).ok(), Some(9));
    assert_eq!(token_subject(None).unwrap_err().error, "Token invalide");
    assert!(check_refresh_session(Lookup::Found(true)).is_ok());
    assert_eq!(check_refresh_session(Lookup::Found(false)).unwrap_err().error, "Token invalide");
    assert_eq!(check_refresh_session(Lookup::Missing).unwrap_err().status, 401);
    assert_eq!(check_refresh_session(Lookup::Failed(String::from("x"))).unwrap_err().status, 500);
    let e = refresh_account::<u8>(Lookup::Missing).unwrap_err();
    assert_eq!((e.status, e.error.as_str()), (401, "Utilisateur introuvable"));
}

#[test]
fn bearer_tokens_are_read_from_the_header() {
    assert_eq!(bearer_token("Bearer abc.def "), Some(String::from("abc.def")));
    assert_eq!(bearer_token("Basic abc"), None);
    assert_eq!(bearer_token("bearer abc"), None);
    assert_eq!(bearer_token("Bearer "), Some(String::new()));
}

#[test]
fn write_permissions_answer_forbidden() {
    assert!(authorize(&UserRole::Atelier, Action::ManageBatches).is_ok());
    let e = authorize(&UserRole::Logistics, Action::ManageBatches).unwrap_err();
    assert_eq!((e.status, e.error.as_str()), (403, "Action non autorisée"));
    assert!(authorize_producer_write(&UserRole::Admin, 1, 1).is_ok());
    assert!(authorize_producer_write(&UserRole::Admin, 1, 2).is_err());
    assert!(authorize_producer_write(&UserRole::Quality, 1, 1).is_err());
}

#[test]
fn record_answers_follow_the_table() {
    let e = parse_record_id(Entity::Batch, "not-a-uuid").unwrap_err();
    assert_eq!((e.status, e.error.as_str()), (400, "ID lot invalide"));
    assert_eq!(detail(&e), Some(("details", "L'ID doit être un UUID valide")));
    assert_eq!(parse_record_id(Entity::Batch, "12345678-9abc-def0-1122-334455667788").ok(), Some(BATCH));
    assert_eq!(parse_record_id(Entity::Batch, "12345678-9ABC-DEF0-1122-334455667788").ok(), Some(BATCH));
    assert_eq!(record_answer(RecordRequest::ReadBatch, "abc", Lookup::Found(5u8)).ok(), Some(5));
    let e = record_answer::<u8>(RecordRequest::ReadBatch, "abc", Lookup::Missing).unwrap_err();
    assert_eq!((e.status, e.error.as_str()), (404, "Lot non trouvé"));
    assert_eq!(detail(&e), Some(("batch_id", "abc")));
    let e = record_answer::<u8>(RecordRequest::UpdateBatch, "abc", Lookup::Missing).unwrap_err();
    assert_eq!(detail(&e), None);
    let e = record_answer::<u8>(RecordRequest::ReadSupplier, "abc", Lookup::Failed(String::from("boom"))).unwrap_err();
    assert_eq!((e.status, e.error.as_str()), (500, "Erreur lors de la récupération du fournisseur"));
    assert_eq!(detail(&e), Some(("details", "Erreur interne")));
    let e = failure_reply(RecordRequest::UpdateProducer);
    assert_eq!((e.status, e.error.as_str()), (500, "Erreur lors de la mise à jour du producteur"));
    assert_eq!(detail(&e), Some(("details", "Erreur interne")));
    let a = record_answer::<u8>(RecordRequest::UpdateProduct, "abc", Lookup::Failed(String::from("relation \"products\" does not exist")))
        .unwrap_err();
    let b = record_answer::<u8>(RecordRequest::UpdateProduct, "abc", Lookup::Failed(String::from("timeout"))).unwrap_err();
    assert_eq!((a.status, a.error.as_str(), detail(&a)), (b.status, b.error.as_str(), detail(&b)));
    assert_eq!(detail(&a), Some(("details", "Erreur interne")));
}

#[test]
fn reference_checks_name_the_missing_record() {
    let e = check_reference::<u8>(ReferenceCheck::BatchProduct, BATCH, Lookup::Missing).unwrap_err();
    assert_eq!((e.status, e.error.as_str()), (400, "Produit non trouvé"));
    assert_eq!(
        detail(&e),
        Some(("details", "Aucun produit trouvé avec l'ID: 12345678-9abc-def0-1122-334455667788"))
    );
    let e = check_reference::<u8>(ReferenceCheck::CheckOperator, BATCH, Lookup::Missing).unwrap_err();
    assert_eq!(detail(&e), Some(("operator_id", "12345678-9abc-def0-1122-334455667788")));
    let e = check_reference::<u8>(ReferenceCheck::IngredientSupplier, BATCH, Lookup::Failed(String::from("x"))).unwrap_err();
    assert_eq!((e.status, e.error.as_str()), (500, "Erreur interne"));
    assert_eq!(detail(&e), Some(("details", "Erreur interne")));
}

#[test]
fn uuid_text_round_trips() {
    let e = check_reference::<u8>(ReferenceCheck::CheckedBatch, BATCH, Lookup::Missing).unwrap_err();
    let (_, text) = detail(&e).expect("identifier");
    assert_eq!(text, "12345678-9abc-def0-1122-334455667788");
    assert_eq!(parse_record_id(Entity::Batch, text).ok(), Some(BATCH));
    assert!(parse_record_id(Entity::Batch, "nope").is_err());
}

#[test]
fn recipe_versions_come_after_the_stored_ones() {
    assert_eq!(next_recipe_version(Some(3)), 4);
    assert_eq!(next_recipe_version(None), 1);
    assert_eq!(creation_version(None), 1);
    assert_eq!(creation_version(Some(Some(7))), 8);
    let existing = RecipeHeader { producer_id: 1, name: String::from("Cassoulet"), version: 2, notes: Some(String::from("old")) };
    let plan = plan_recipe_update(
        existing.clone(),
        RecipeChanges { name: None, notes: None, create_new_version: true },
        Some(Some(5)),
    );
    assert_eq!(plan.name, "Cassoulet");
    assert_eq!(plan.notes.as_deref(), Some("old"));
    assert_eq!(plan.new_version, Some(6));
    assert_eq!(plan.message, "Nouvelle version de recette créée");
    let plan = plan_recipe_update(
        existing,
        RecipeChanges { name: Some(String::from("Confit")), notes: None, create_new_version: false },
        None,
    );
    assert_eq!(plan.name, "Confit");
    assert_eq!(plan.new_version, None);
    assert_eq!(plan.message, "Recette mise à jour avec succès");
}

#[test]
fn unsigned_settings_read_like_std() {
    assert_eq!(parse_unsigned("42", 100), Some(42));
    assert_eq!(parse_unsigned("+42", 100), Some(42));
    assert_eq!(parse_unsigned("101", 100), None);
    assert_eq!(parse_unsigned("", 100), None);
    assert_eq!(parse_unsigned("+", 100), None);
    assert_eq!(parse_unsigned("-1", 100), None);
    assert_eq!(parse_unsigned(" 1", 100), None);
    assert_eq!(parse_unsigned("18446744073709551615", u64::MAX), Some(u64::MAX));
    assert_eq!(parse_unsigned("18446744073709551616", u64::MAX), None);
    assert_eq!(parse_unsigned("65536", u16::MAX as u64), None);
}

#[test]
fn cors_origins_are_trimmed_pieces() {
    assert_eq!(parse_cors_origins(" https://a.test , ,https://b.test ,"), vec!["https://a.test", "https://b.test"]);
    assert!(parse_cors_origins("  ").is_empty());
    assert_eq!(bootstrap_token(Some(String::from("  "))), None);
    assert_eq!(bootstrap_token(Some(String::from("tok"))), Some(String::from("tok")));
}

fn settings() -> ConfigSettings {
    ConfigSettings {
        database_url: Some(String::from("postgres://db")),
        redis_url: None,
        server_port: None,
        jwt_secret: Some(String::from("secret")),
        jwt_expiration_hours: None,
        bootstrap_token: None,
        cors_allowed_origins: None,
        upload_dir: None,
        export_dir: None,
        base_url: None,
        qr_base_url: None,
        public_port: None,
        smtp_host: None,
        smtp_port: None,
        smtp_username: None,
        smtp_password: None,
        smtp_from_email: None,
        smtp_from_name: None,
        password_min_length: None,
        session_timeout_minutes: None,
        max_login_attempts: None,
        lockout_duration_minutes: None,
        max_request_body_bytes: None,
    }
}

#[test]
fn configuration_defaults_and_errors() {
    let config = AppConfig::from_settings(&settings()).expect("defaults");
    let defaults = SecurityConfig::default();
    assert_eq!(config.redis_url, "redis://localhost:6379");
    assert_eq!(config.server_port, 3030);
    assert_eq!(config.jwt_expiration_hours, 24);
    assert_eq!(config.cors_allowed_origins, vec!["http://localhost:8081"]);
    assert_eq!(config.smtp.port, 587);
    assert_eq!(config.smtp.from_email, "noreply@code-terroir.com");
    assert_eq!(config.security.max_login_attempts, defaults.max_login_attempts);
    assert_eq!(config.security.max_request_body_bytes, 1_048_576);
    let mut missing = settings();
    missing.database_url = None;
    assert!(matches!(AppConfig::from_settings(&missing), Err(ConfigError::Missing("DATABASE_URL"))));
    let mut bad = settings();
    bad.server_port = Some(String::from("70000"));
    bad.jwt_secret = None;
    assert!(matches!(AppConfig::from_settings(&bad), Err(ConfigError::Invalid("SERVER_PORT"))));
}

#[test]
fn check_types_read_in_any_case() {
    assert_eq!(QACheckType::parse("Temperature"), QACheckType::Temperature);
    assert_eq!(QACheckType::parse("pH"), QACheckType::Ph);
    assert_eq!(QACheckType::parse("Salinity"), QACheckType::Other(String::from("salinity")));
    assert_eq!(QACheckType::Other(String::from("salinity")).to_string(), "salinity");
}

#[test]
fn batch_states_and_lot_codes() {
    assert_eq!(BatchState::parse("PUBLISHED"), Ok(BatchState::Published));
    assert_eq!(BatchState::parse("nope"), Err(String::from("Invalid batch state: nope")));
    assert_eq!(batch_lot_code(None, 1_776_587_400), "LOT-2026-04-19-A");
    assert_eq!(batch_lot_code(Some(String::from("L-1")), 0), "L-1");
}

#[test]
fn box_codes_name_their_batch() {
    let b = IndividualBox {
        id: 1,
        batch_id: BATCH,
        serial_number: String::from("0007/0010"),
        qr_code_slug: None,
        numero_sequence: 7,
        total_sequence: 10,
        date_numerotage: 0,
        operateur_id: 2,
        statut: String::from("rappel"),
        commentaire: None,
        created_at: 0,
        updated_at: 0,
    };
    assert_eq!(b.generate_qr_slug(), "12345678-0007");
    assert!(b.is_recalled());
}

#[test]
fn qr_tags_encode_their_address() {
    let tag = prepare_qr_tag("https://ct.local", None);
    assert_eq!(tag.slug.chars().count(), 6);
    assert!(tag.slug.chars().all(|c| SLUG_CHARS.contains(c)));
    assert_eq!(tag.short_url, format!("https://ct.local/t/{}", tag.slug));
    assert!(tag.svg.as_ref().is_some_and(|s| s.contains("<svg")));
    assert!(tag.png.is_some());
    let (svg, png) = generate_qr_codes("https://ct.local/t/abc123", &QRFormat::Png);
    assert!(svg.is_none());
    assert!(png.is_some_and(|p| !p.is_empty()));
    assert_eq!(requested_format(None), QRFormat::Both);
}

#[test]
fn scans_and_visits_answer_missing_tags() {
    let e = scanned_tag::<u8>("abc", Lookup::Missing).unwrap_err();
    assert_eq!((e.status, e.error.as_str()), (404, "QR code non trouvé ou inactif"));
    assert_eq!(detail(&e), Some(("slug", "abc")));
    let e = visited_tag::<u8>(Lookup::Missing).unwrap_err();
    assert_eq!((e.status, e.error.as_str()), (404, "QR code non trouvé"));
    assert_eq!(traceability_message(false, "zz"), "Aucune information trouvée pour le code zz");
}

#[test]
fn product_rules() {
    assert_eq!(link_sort_orders(&vec![Some(5), None, None]), vec![5, 1, 2]);
    assert_eq!(allergens_update(None), None);
    assert_eq!(allergens_update(Some(vec![String::from(" LAIT "), String::from("chocolat")])), Some(vec![String::from("lait")]));
    assert_eq!(allergens_update(Some(vec![])), Some(vec![]));
    assert_eq!(product_producer(Some(4), Lookup::Found(4)).ok(), Some(4));
    let e = product_producer(None, Lookup::Missing).unwrap_err();
    assert_eq!((e.status, e.error.as_str()), (400, "Aucun producteur trouvé"));
    let e = check_ingredient_link(BATCH, Lookup::Found(1), Lookup::Missing).unwrap_err();
    assert_eq!(detail(&e), Some(("details", "ingredient_id 12345678-9abc-def0-1122-334455667788 n'existe pas")));
    assert!(check_ingredient_link(BATCH, Lookup::Found(1), Lookup::Found(2)).is_ok());
}

#[test]
fn catalog_categories_are_normalized() {
    assert_eq!(catalog_category("  Legumes ").ok(), Some(String::from("legumes")));
    let e = catalog_category("   ").unwrap_err();
    assert_eq!((e.status, e.error.as_str()), (400, "Categorie invalide"));
}

#[test]
fn public_producers_are_listed_once_by_identifier() {
    let producer = |id: u128, name: &str| PublicProducerInfo {
        producer_id: id,
        producer_name: String::from(name),
        producer_city: String::from("Agen"),
        producer_email: String::from("p@example.test"),
        producer_phone: None,
    };
    let listed = dedupe_public_producers(&[producer(9, "B"), producer(2, "A"), producer(9, "B bis")]);
    assert_eq!(listed.len(), 2);
    assert_eq!(listed[0].producer_id, 2);
    assert_eq!(listed[1].producer_name, "B");
}

#[test]
fn reference_lists_must_hold_distinct_values() {
    assert_eq!(validate_unique_values("units", &[]).unwrap_err().message, "units ne peut pas être vide");
    let e = validate_unique_values("units", &[String::from("g"), String::from("g")]).unwrap_err();
    assert_eq!(e.message, "units contient une valeur vide ou dupliquée");
    assert!(validate_unique_values("units", &[String::from("g"), String::from("kg")]).is_ok());
}

#[test]
fn rejected_requests_get_their_status() {
    let r = rejection_reply(RejectionKind::AuthenticationRequired);
    assert_eq!((r.status, r.message, r.bearer_challenge), (401, "Authentication required", true));
    let r = rejection_reply(RejectionKind::PayloadTooLarge);
    assert_eq!((r.status, r.bearer_challenge), (413, false));
}

#[test]
fn traceability_pages_escape_stored_text() {
    let page = TraceabilityPage {
        product_name: String::from("Pâté <b>maison</b>"),
        category: String::from("conserve"),
        image_url: Some(String::from("javascript:alert(1)")),
        nutriscore: Some(String::from("B")),
        description: None,
        labels: vec![String::from("Bio")],
        usage_advice: None,
        allergens: vec![],
        nutrition_rows: vec![(String::from("Énergie"), String::from("250 kcal"))],
        macro_rows: vec![],
        ingredients: vec![IngredientLine {
            ingredient_name: String::from("Porc"),
            ingredient_category: None,
            producer_name: String::from("Ferme & Fils"),
            producer_city: String::from("Agen"),
            producer_email: String::from("f@example.test"),
            producer_phone: Some(String::from("05")),
        }],
        lot_code: String::from("CASS-2026-04-19-A"),
        production_date: 1_776_587_400,
        best_before: 1_776_587_400,
        quantity_produced: 120,
        production_site: String::from("Atelier"),
        notes: None,
        scanned_at: 1_776_587_400,
    };
    let html = generate_traceability_html(Some(&page));
    assert!(html.contains("Pâté &lt;b&gt;maison&lt;/b&gt;"));
    assert!(!html.contains("<b>maison</b>"));
    assert!(html.contains("Visuel produit non renseigné"));
    assert!(html.contains("Nutriscore B"));
    assert!(html.contains("Ferme &amp; Fils"));
    assert!(html.contains("catégorie non renseignée"));
    assert!(html.contains("Aucun allergène déclaré"));
    assert!(html.contains("19/04/2026 à 08:30"));
    assert!(html.contains("120 unités"));
    assert!(html.contains("<span class=\"label\">Énergie :</span><span class=\"value\">250 kcal</span>"));
    assert_eq!(generate_traceability_html(None), generate_error_html("inconnu"));
    assert!(product_image_markup(Some("https://img.test/a.png"), "A\"B").contains("alt=\"A&quot;B\""));
}

#[test]
fn client_networks_keep_their_address_and_prefix() {
    assert_eq!(parse_ip_network(Some("192.168.1.10")), Some(IpNet { v6: false, address: 0xC0A8_010A, prefix: 32 }));
    assert_eq!(parse_ip_network(Some("10.0.0.0/24")), Some(IpNet { v6: false, address: 0x0A00_0000, prefix: 24 }));
    assert_eq!(parse_ip_network(Some("2001:db8::1")), Some(IpNet { v6: true, address: 0x2001_0db8_0000_0000_0000_0000_0000_0001, prefix: 128 }));
    assert_eq!(parse_ip_network(Some("10.0.0.0/33")), None);
}
