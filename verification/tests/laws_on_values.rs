use code_terroir::html::escape_html;
use code_terroir::product::{normalize_allergens, normalize_nutriscore};
use code_terroir::qr::{generate_qr_placeholders, QRFormat};
use code_terroir::quality::QACheckType;
use code_terroir::reference_data::{AllergenDefinition, ReferenceData};
use code_terroir::roles::{can_create_check, can_update_check, can_write, is_allowed, normalize_role, Action, UserRole};

#[test]
fn role_names_read_back() {
    for role in [UserRole::Admin, UserRole::Quality, UserRole::Atelier, UserRole::Logistics, UserRole::ReadOnly] {
        assert_eq!(UserRole::from_name(role.as_str()), Some(role));
        assert_eq!(normalize_role(role.as_str()), role.as_str());
    }
    assert_eq!(UserRole::from_name("Admin"), None);
    let once = normalize_role("  QUALITY ");
    assert_eq!(once, "quality");
    assert_eq!(normalize_role(&once), once);
}

#[test]
fn check_helpers_follow_the_matrix() {
    for role in [UserRole::Admin, UserRole::Quality, UserRole::Atelier, UserRole::Logistics, UserRole::ReadOnly] {
        assert_eq!(can_create_check(&role), is_allowed(&role, Action::CreateQualityCheck));
        assert_eq!(can_update_check(&role), is_allowed(&role, Action::UpdateQualityCheck));
        assert_eq!(can_write(&role), is_allowed(&role, Action::ManageCatalog));
        assert!(is_allowed(&UserRole::Admin, Action::ManageProducer));
    }
    assert!(!is_allowed(&UserRole::Atelier, Action::ManageProducer));
}

#[test]
fn normalizing_twice_changes_nothing() {
    let once = normalize_allergens(Some(vec![
        String::from(" Sesame"),
        String::from("LAIT"),
        String::from("lait "),
        String::from("noix de coco"),
    ]));
    assert_eq!(once, vec![String::from("sesame"), String::from("lait")]);
    assert_eq!(normalize_allergens(Some(once.clone())), once);
    let grade = normalize_nutriscore(Some("\te\n")).expect("grade");
    assert_eq!(grade, "E");
    assert_eq!(normalize_nutriscore(Some(&grade)), Some(grade.clone()));
}

#[test]
fn check_type_texts_read_back() {
    for kind in [
        QACheckType::Ph,
        QACheckType::Temperature,
        QACheckType::Sealed,
        QACheckType::Visual,
        QACheckType::Microbiological,
        QACheckType::Weight,
    ] {
        assert_eq!(QACheckType::parse(&kind.to_string()), kind);
        assert_eq!(QACheckType::parse(&kind.to_string().to_uppercase()), kind);
    }
    let other = QACheckType::Other(String::from("odeur"));
    assert_eq!(QACheckType::parse(&other.to_string()), other);
}

#[test]
fn plain_text_is_not_escaped() {
    assert_eq!(escape_html("Confiture de figues 2026"), "Confiture de figues 2026");
    let escaped = escape_html("<a href='x'>\"&\"</a>");
    assert!(!escaped.contains('<') && !escaped.contains('>') && !escaped.contains('"') && !escaped.contains('\''));
}

#[test]
fn placeholder_images_follow_the_format() {
    let (svg, png) = generate_qr_placeholders("https://ct.local/t/x", &QRFormat::Png);
    assert!(svg.is_none());
    assert!(png.is_some());
    let (svg, png) = generate_qr_placeholders("https://ct.local/t/x", &QRFormat::Both);
    assert!(svg.is_some_and(|s| s.contains("https://ct.local/t/x")));
    assert!(png.is_some());
}

#[test]
fn reference_lists_are_searched_exactly() {
    let data = ReferenceData {
        regulatory_profile: String::from("internal"),
        allergens: vec![AllergenDefinition { id: String::from("lait"), label: String::from("Lait") }],
        product_categories: vec![String::from("confiture")],
        ingredient_categories: vec![String::from("fruits")],
        units: vec![String::from("g")],
    };
    assert!(data.validate().is_ok());
    assert!(data.contains_allergen("lait"));
    assert!(!data.contains_allergen("Lait"));
    assert!(data.contains_product_category("confiture"));
    assert!(!data.contains_product_category("fruits"));
    assert!(data.contains_ingredient_category("fruits"));
    assert!(!data.contains_ingredient_category("confiture "));
    let mut blank = data.clone();
    blank.regulatory_profile = String::from("  ");
    let refused = blank.validate().unwrap_err();
    assert_eq!(refused.message, "regulatory_profile ne peut pas être vide");
    let mut doubled = data.clone();
    doubled.allergens.push(AllergenDefinition { id: String::from("lait"), label: String::from("Lait bis") });
    assert_eq!(doubled.validate().unwrap_err().message, "identifiant d'allergène dupliqué: lait");
}
