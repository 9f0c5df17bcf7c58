use code_terroir::auth::{hash_password, login_attempt_key, verify_password};
use code_terroir::batch::{generate_lot_code, BatchState};
use code_terroir::boxes::IndividualBox;
use code_terroir::catalog::{build_catalog_payload, CatalogIngredientRow};
use code_terroir::html::{escape_html, generate_error_html};
use code_terroir::network::parse_ip_network;
use code_terroir::product::{normalize_allergens, normalize_nutriscore};
use code_terroir::qr::{generate_qr_placeholders, generate_slug, generate_unique_slug, QRFormat, SLUG_CHARS};
use code_terroir::quality::QACheckType;
use code_terroir::reference_data::{AllergenDefinition, ReferenceData};
use code_terroir::roles::{is_allowed, normalize_role, Action, UserRole};

const EU_ALLERGENS: [&str; 14] = [
    "gluten",
    "crustaces",
    "oeufs",
    "poissons",
    "arachides",
    "soja",
    "lait",
    "fruits-a-coque",
    "celeri",
    "moutarde",
    "sesame",
    "sulfites",
    "lupin",
    "mollusques",
];

fn strings(values: &[&str]) -> Vec<String> {
    values.iter().map(|v| v.to_string()).collect()
}

fn reference_data() -> ReferenceData {
    ReferenceData {
        regulatory_profile: String::from("eu-1169-2011"),
        allergens: EU_ALLERGENS
            .iter()
            .map(|id| AllergenDefinition { id: id.to_string(), label: id.to_uppercase() })
            .collect(),
        product_categories: strings(&["conserve", "confiture", "sauce", "autre"]),
        ingredient_categories: strings(&["legumes", "fruits", "assaisonnement"]),
        units: strings(&["g", "kg", "ml", "l", "piece"]),
    }
}

#[test]
fn normalize_role_falls_back_to_atelier() {
    assert_eq!(normalize_role("ADMIN"), "admin");
    assert_eq!(normalize_role("nimportequoi"), "atelier");
}

#[test]
fn auth_password_hash_roundtrip_works() {
    let hash = hash_password("secret123").expect("hash password");
    verify_password("secret123", &hash).expect("verify password");
    assert!(verify_password("bad", &hash).is_err());
}

#[test]
fn password_password_hash_roundtrip_works() {
    let hash = hash_password("secret123").expect("hash password");
    verify_password("secret123", &hash).expect("verify password");
    assert!(verify_password("bad", &hash).is_err());
}

#[test]
fn login_attempt_keys_are_normalized_and_do_not_expose_email_addresses() {
    let lower = login_attempt_key("admin@example.test");
    let mixed = login_attempt_key("  Admin@Example.Test ");
    assert_eq!(lower, mixed);
    assert!(!lower.contains("admin@example.test"));
}

#[test]
fn permissions_follow_the_declared_role_matrix() {
    let cases = [
        (UserRole::Admin, [true, true, true, true, true, true, true]),
        (UserRole::Quality, [false, false, true, true, true, false, false]),
        (UserRole::Atelier, [true, true, false, true, false, true, false]),
        (UserRole::Logistics, [false, false, false, false, false, false, false]),
        (UserRole::ReadOnly, [false, false, false, false, false, false, false]),
    ];
    let actions = [
        Action::ManageCatalog,
        Action::ManageBatches,
        Action::RecallBatches,
        Action::CreateQualityCheck,
        Action::UpdateQualityCheck,
        Action::ManageQrTags,
        Action::ManageProducer,
    ];

    for (role, expected) in cases {
        for (index, action) in actions.iter().copied().enumerate() {
            assert_eq!(
                is_allowed(&role, action),
                expected[index],
                "unexpected permission for role {} and action {:?}",
                role.as_str(),
                action
            );
        }
    }
}

#[test]
fn build_catalog_payload_deduplicates_producers() {
    let producer_id: u128 = 0x5f0e_2c1a_9b7d_4e3f_8a21_c0ffee_000001;
    let rows = vec![
        CatalogIngredientRow {
            ingredient_id: 0x1111_2222_3333_4444_5555_6666_7777_8888,
            ingredient_name: String::from("Carotte"),
            ingredient_category: Some(String::from("legumes")),
            ingredient_allergens: vec![],
            producer_id,
            producer_name: String::from("Apothicaire Culinaire"),
            producer_category: Some(String::from("legumes")),
            producer_city: String::from("Agen"),
            producer_email: String::from("contact@example.com"),
            producer_phone: None,
        },
        CatalogIngredientRow {
            ingredient_id: 0x9999_aaaa_bbbb_cccc_dddd_eeee_ffff_0000,
            ingredient_name: String::from("Poivre"),
            ingredient_category: Some(String::from("assaisonnement")),
            ingredient_allergens: vec![String::from("moutarde")],
            producer_id,
            producer_name: String::from("Apothicaire Culinaire"),
            producer_category: Some(String::from("assaisonnement")),
            producer_city: String::from("Agen"),
            producer_email: String::from("contact@example.com"),
            producer_phone: Some(String::from("+33 5 12 34 56 78")),
        },
    ];

    let (ingredients, producers) = build_catalog_payload(rows);

    assert_eq!(ingredients.len(), 2);
    assert_eq!(producers.len(), 1);
    assert_eq!(producers[0].producer_name, "Apothicaire Culinaire");
}

#[test]
fn html_escaping_neutralizes_markup_and_attributes() {
    assert_eq!(
        escape_html("<script>alert('xss') & \"more\"</script>"),
        "&lt;script&gt;alert(&#x27;xss&#x27;) &amp; &quot;more&quot;&lt;/script&gt;"
    );
    assert!(!generate_error_html("<img src=x onerror=alert(1)>")
        .contains("<img src=x onerror=alert(1)>"));
}

#[test]
fn generate_error_html_includes_slug() {
    let html = generate_error_html("abc123");
    assert!(html.contains("abc123"));
    assert!(html.contains("Code non trouvé"));
}

#[test]
fn generate_qr_placeholders_respects_requested_format() {
    let (svg, png) = generate_qr_placeholders("https://ct.local/t/demo", &QRFormat::Both);
    assert!(svg.as_ref().is_some_and(|value| value.contains("QR CODE ERROR")));
    assert_eq!(png, Some(vec![0x89, 0x50, 0x4E, 0x47, 0x0D, 0x0A, 0x1A, 0x0A]));

    let (svg_only, png_only) = generate_qr_placeholders("https://ct.local/t/demo", &QRFormat::Svg);
    assert!(svg_only.is_some());
    assert!(png_only.is_none());
}

#[test]
fn embedded_reference_data_is_valid_and_complete() {
    let data = reference_data();
    data.validate().expect("valid embedded reference data");
    for allergen in EU_ALLERGENS {
        assert!(data.contains_allergen(allergen));
    }
}

#[test]
fn european_profile_rejects_a_missing_required_allergen() {
    let mut data = reference_data();
    data.validate().expect("valid embedded reference data");
    data.allergens.retain(|allergen| allergen.id != "lait");
    assert!(data.validate().is_err());
}

#[test]
fn batch_state_roundtrips() {
    assert_eq!("draft".parse::<BatchState>(), Ok(BatchState::Draft));
    assert_eq!(BatchState::Published.to_string(), "published");
}

#[test]
fn generate_lot_code_uses_product_code_and_date() {
    // 2026-04-19 08:30:00 UTC
    let date: i64 = 1_776_587_400;
    assert_eq!(generate_lot_code("CASS", date), "CASS-2026-04-19-A");
}

#[test]
fn test_serial_number_formatting() {
    assert_eq!(IndividualBox::format_serial_number(1, 240, "{numero:04}/{total:04}"), "0001/0240");
    assert_eq!(IndividualBox::format_serial_number(42, 100, "N°{numero} sur {total}"), "N°42 sur 100");
}

#[test]
fn normalize_nutriscore_accepts_letters_a_to_e() {
    assert_eq!(normalize_nutriscore(Some(" b ")), Some(String::from("B")));
    assert_eq!(normalize_nutriscore(Some("F")), None);
    assert_eq!(normalize_nutriscore(Some("")), None);
}

#[test]
fn normalize_allergens_deduplicates_and_lowercases() {
    let allergens = normalize_allergens(Some(vec![
        String::from("Gluten"),
        String::from(" gluten "),
        String::from("Lait"),
        String::from(""),
    ]));

    assert_eq!(allergens, vec![String::from("gluten"), String::from("lait")]);
}

#[test]
fn qa_check_type_roundtrips_for_ph() {
    assert_eq!("ph".parse::<QACheckType>(), Ok(QACheckType::Ph));
    assert_eq!(QACheckType::Ph.to_string(), "pH");
}

#[test]
fn generate_slug_uses_expected_length_and_charset() {
    let slug = generate_slug(12);
    assert_eq!(slug.len(), 12);
    assert!(slug.chars().all(|ch| SLUG_CHARS.contains(ch)));
}

#[test]
fn generate_unique_slug_uses_default_length() {
    assert_eq!(generate_unique_slug().len(), 6);
}

#[test]
fn parse_ip_network_accepts_ipv4_and_ipv6_addresses() {
    assert!(matches!(parse_ip_network(Some("192.168.1.10")), Some(n) if !n.v6));
    assert!(matches!(parse_ip_network(Some("2001:db8::1")), Some(n) if n.v6));
}

#[test]
fn parse_ip_network_accepts_cidr_notation() {
    let network = parse_ip_network(Some("10.0.0.0/24"));
    assert!(matches!(network, Some(n) if !n.v6));
}

#[test]
fn qr_tags_parse_ip_network_rejects_invalid_values() {
    assert_eq!(parse_ip_network(None), None);
    assert_eq!(parse_ip_network(Some("not-an-ip")), None);
}

#[test]
fn parse_ip_network_supports_plain_addresses() {
    assert!(matches!(parse_ip_network(Some("203.0.113.10")), Some(n) if !n.v6));
    assert!(matches!(parse_ip_network(Some("2001:db8::abcd")), Some(n) if n.v6));
}

#[test]
fn public_parse_ip_network_rejects_invalid_values() {
    assert_eq!(parse_ip_network(None), None);
    assert_eq!(parse_ip_network(Some("invalid-ip")), None);
}
