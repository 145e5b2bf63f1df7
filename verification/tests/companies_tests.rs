use alfredodev::access::{check_company_delete, ActiveSession, RequestError};
use alfredodev::companies::{
    company_data, parse_company_form, parse_company_payload, slug_conflicts, validate_slug, Company,
    CompanyFormData, CompanyPayload,
};
use alfredodev::ids::ObjectId;
use alfredodev::models::UserRole;

#[test]
fn validate_slug_accepts_empty_or_safe_slugs() {
    assert!(validate_slug("").is_ok());
    assert!(validate_slug("acme-123").is_ok());
    assert!(validate_slug("mi-empresa").is_ok());
}

#[test]
fn validate_slug_rejects_unsafe_values() {
    assert!(validate_slug("Acme").is_err());
    assert!(validate_slug("-acme").is_err());
    assert!(validate_slug("acme-").is_err());
    assert!(validate_slug("acme_test").is_err());
    assert!(validate_slug(&"a".repeat(65)).is_err());
}

#[test]
fn validate_slug_reports_the_rule() {
    let err = validate_slug("Acme").unwrap_err();
    assert_eq!(
        err,
        "Slug inválido. Usa solo minúsculas, números y guiones, sin iniciar ni terminar con guion (máx 64 caracteres)."
    );
    assert!(validate_slug(&"a".repeat(64)).is_ok());
}

fn payload(name: &str, slug: Option<&str>) -> CompanyPayload {
    CompanyPayload {
        name: name.to_string(),
        slug: slug.map(|s| s.to_string()),
        default_currency: None,
        is_active: None,
        notes: Some("   ".to_string()),
    }
}

#[test]
fn company_payload_derives_slug_and_defaults() {
    let (name, slug, currency, active, notes) = parse_company_payload(payload("  Acme Tools  ", None)).unwrap();
    assert_eq!(name, "Acme Tools");
    assert_eq!(slug, "acme-tools");
    assert_eq!(currency, "MXN");
    assert!(active);
    assert_eq!(notes, None);
}

#[test]
fn company_payload_keeps_explicit_slug_and_currency() {
    let mut p = payload("Acme", Some(" acme-mx "));
    p.default_currency = Some(" USD ".to_string());
    p.is_active = Some(false);
    let (_, slug, currency, active, _) = parse_company_payload(p).unwrap();
    assert_eq!(slug, "acme-mx");
    assert_eq!(currency, "USD");
    assert!(!active);
}

#[test]
fn company_payload_refuses_blank_name_or_bad_slug() {
    assert_eq!(parse_company_payload(payload("   ", None)).unwrap_err(), RequestError::BadRequest);
    assert_eq!(parse_company_payload(payload("Acme", Some("Bad Slug"))).unwrap_err(), RequestError::BadRequest);
}

#[test]
fn company_form_checks_slug_before_name() {
    let form = CompanyFormData {
        name: "  ".to_string(),
        slug: Some("-x".to_string()),
        default_currency: "".to_string(),
        is_active: true,
        notes: None,
    };
    assert!(parse_company_form(&form).unwrap_err().starts_with("Slug inválido"));
    let form2 = CompanyFormData { slug: None, ..form.clone() };
    assert_eq!(parse_company_form(&form2).unwrap_err(), "El nombre es obligatorio");
    let form3 = CompanyFormData { name: "Taller Norte".to_string(), slug: None, ..form };
    let f = parse_company_form(&form3).unwrap();
    assert_eq!(f.slug, "");
    assert_eq!(f.final_slug, "taller-norte");
    assert_eq!(f.currency, "MXN");
}

#[test]
fn slug_conflicts_only_with_another_company() {
    let a = ObjectId::parse_str("65f0a1b2c3d4e5f6a7b8c9d0").unwrap();
    let b = ObjectId::parse_str("65f0a1b2c3d4e5f6a7b8c9d1").unwrap();
    assert!(!slug_conflicts(None, None));
    assert!(slug_conflicts(Some(Some(a)), None));
    assert!(!slug_conflicts(Some(Some(a)), Some(a)));
    assert!(slug_conflicts(Some(Some(a)), Some(b)));
    assert!(slug_conflicts(Some(None), Some(a)));
}

#[test]
fn company_data_marks_the_current_company() {
    let a = ObjectId::parse_str("65f0a1b2c3d4e5f6a7b8c9d0").unwrap();
    let session = ActiveSession {
        email: "ana@example.com".to_string(),
        active_company_id: a,
        active_role: UserRole::Admin,
        company_name: "Acme".to_string(),
        company_ids: vec![a],
        company_roles: vec![UserRole::Admin],
    };
    let company = Company {
        id: Some(a),
        name: "Acme".to_string(),
        slug: "acme".to_string(),
        default_currency: "MXN".to_string(),
        is_active: true,
        notes: None,
    };
    let d = company_data(&session, company.clone()).unwrap();
    assert_eq!(d.id, "65f0a1b2c3d4e5f6a7b8c9d0");
    assert!(d.is_current);
    assert!(company_data(&session, Company { id: None, ..company }).is_none());
}

#[test]
fn only_an_admin_deletes_a_company_other_than_the_active_one() {
    let a = ObjectId::parse_str("65f0a1b2c3d4e5f6a7b8c9d0").unwrap();
    let b = ObjectId::parse_str("65f0a1b2c3d4e5f6a7b8c9d1").unwrap();
    let c = ObjectId::parse_str("65f0a1b2c3d4e5f6a7b8c9d2").unwrap();
    let session = ActiveSession {
        email: "ana@example.com".to_string(),
        active_company_id: a,
        active_role: UserRole::Admin,
        company_name: "Acme".to_string(),
        company_ids: vec![a, b, c],
        company_roles: vec![UserRole::Admin, UserRole::Admin, UserRole::Staff],
    };
    assert_eq!(check_company_delete(&session, &a), Err(RequestError::Forbidden));
    assert_eq!(check_company_delete(&session, &b), Ok(()));
    assert_eq!(check_company_delete(&session, &c), Err(RequestError::Forbidden));
}
