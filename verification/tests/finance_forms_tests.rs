use alfredodev::access::RequestError;
use alfredodev::catalog::{
    account_option_label, parse_account_form, parse_category_form, parse_contact_form, record_options,
    record_options_with_none, user_options, AccountFormData, CategoryFormData, CategoryFormError, ContactFormData,
    OptionRecord, UserRecord,
};
use alfredodev::fields::{
    datetime_to_string, parse_datetime_field, parse_object_id, parse_optional_datetime_field,
    parse_optional_id_field, parse_optional_object_id, parse_optional_object_id_field,
};
use alfredodev::forecasts::{parse_forecast_form, parse_forecast_payload, ForecastFormData, ForecastPayload};
use alfredodev::forms::{flow_options, parse_account_type, parse_contact_type, parse_flow_type, planned_status_options};
use alfredodev::ids::ObjectId;
use alfredodev::models::{AccountType, ContactType, FlowType};

const ID_A: &str = "65f0a1b2c3d4e5f6a7b8c9d0";
const ID_B: &str = "65f0a1b2c3d4e5f6a7b8c9d1";

fn id(s: &str) -> ObjectId {
    ObjectId::parse_str(s).unwrap()
}

#[test]
fn enumeration_fields_parse_their_form_values() {
    assert_eq!(parse_flow_type("INCOME"), Ok(FlowType::Income));
    assert_eq!(parse_flow_type("gift"), Err("Tipo de flujo inválido".to_string()));
    assert_eq!(parse_account_type("credit_card"), Ok(AccountType::CreditCard));
    assert_eq!(parse_account_type("Bank"), Err("Tipo de cuenta inválido".to_string()));
    assert_eq!(parse_contact_type("Supplier"), Ok(ContactType::Supplier));
    assert_eq!(parse_contact_type("x"), Err("Tipo de contacto inválido".to_string()));
}

#[test]
fn select_options_mark_the_selected_value() {
    let opts = flow_options("expense");
    assert_eq!(opts.len(), 2);
    assert!(!opts[0].selected && opts[1].selected);
    assert_eq!(opts[1].label, "Gasto");
    let st = planned_status_options("overdue");
    assert_eq!(st.len(), 5);
    assert_eq!(st[3].value, "overdue");
    assert!(st[3].selected);
}

#[test]
fn identifier_fields() {
    assert_eq!(parse_object_id(ID_A, "Categoría").unwrap().to_hex(), ID_A);
    assert_eq!(parse_object_id("nope", "Categoría").unwrap_err(), "Categoría inválido");
    assert_eq!(parse_optional_id_field(Some("  ".to_string()), "Contacto"), Ok(None));
    assert_eq!(parse_optional_id_field(Some(format!(" {ID_B} ")), "Contacto"), Ok(Some(id(ID_B))));
    assert_eq!(parse_optional_id_field(Some("x".to_string()), "Contacto"), Err("Contacto inválido".to_string()));
    assert_eq!(parse_optional_object_id(Some("x".to_string())), Err(RequestError::BadRequest));
    assert_eq!(parse_optional_object_id_field(Some("x".to_string())), Err("id inválido".to_string()));
}

#[test]
fn instant_fields_read_rfc3339() {
    assert_eq!(parse_datetime_field(" 2024-01-01T00:00:00Z ", "Fecha"), Ok(1_704_067_200_000));
    assert_eq!(
        parse_datetime_field("  ", "Fecha"),
        Err("Fecha es obligatorio (usa RFC3339: 2024-01-01T00:00:00Z)".to_string())
    );
    assert_eq!(
        parse_datetime_field("2024-13-01", "Fecha"),
        Err("Formato de fecha/hora inválido para Fecha".to_string())
    );
    assert_eq!(parse_optional_datetime_field(None, "Fecha fin"), Ok(None));
    assert_eq!(parse_optional_datetime_field(Some("1970-01-01T00:00:01Z".to_string()), "Fecha fin"), Ok(Some(1000)));
    assert_eq!(datetime_to_string(1_704_067_200_000), "2024-01-01T00:00:00Z");
}

#[test]
fn account_form_defaults_currency() {
    let form = AccountFormData {
        name: " Caja chica ".to_string(),
        company_id: ID_A.to_string(),
        account_type: "cash".to_string(),
        currency: "  ".to_string(),
        is_active: true,
        notes: Some(" ".to_string()),
    };
    let f = parse_account_form(&form).unwrap();
    assert_eq!(f.name, "Caja chica");
    assert_eq!(f.currency, "MXN");
    assert_eq!(f.account_type, AccountType::Cash);
    assert_eq!(f.notes, None);
    let bad = AccountFormData { account_type: "vault".to_string(), ..form };
    assert_eq!(parse_account_form(&bad).unwrap_err(), "Tipo de cuenta inválido");
}

#[test]
fn category_form_distinguishes_its_errors() {
    let form = CategoryFormData {
        name: "Renta".to_string(),
        company_id: ID_A.to_string(),
        flow_type: "expense".to_string(),
        parent_id: Some(format!(" {ID_B}")),
    };
    let f = parse_category_form(&form).unwrap();
    assert_eq!(f.parent_id, Some(id(ID_B)));
    match parse_category_form(&CategoryFormData { parent_id: Some("bad".to_string()), ..form.clone() }) {
        Err(CategoryFormError::Parent(m)) => assert_eq!(m, "Categoría padre inválido"),
        _ => panic!("expected a parent error"),
    }
    match parse_category_form(&CategoryFormData { flow_type: "both".to_string(), ..form }) {
        Err(CategoryFormError::FlowType(m)) => assert_eq!(m, "Tipo de flujo inválido"),
        _ => panic!("expected a flow type error"),
    }
}

#[test]
fn contact_form_cleans_optional_fields() {
    let form = ContactFormData {
        name: " Ferretería ".to_string(),
        company_id: ID_A.to_string(),
        contact_type: "SUPPLIER".to_string(),
        email: Some(" ventas@ferre.mx ".to_string()),
        phone: Some("".to_string()),
        notes: None,
    };
    let f = parse_contact_form(&form).unwrap();
    assert_eq!(f.contact_type, ContactType::Supplier);
    assert_eq!(f.email.as_deref(), Some("ventas@ferre.mx"));
    assert_eq!(f.phone, None);
}

#[test]
fn record_options_keep_the_company_records() {
    let a = id(ID_A);
    let b = id(ID_B);
    let records = vec![
        OptionRecord { id: Some(a), company_id: a, label: "Renta".to_string() },
        OptionRecord { id: Some(b), company_id: b, label: "Otra empresa".to_string() },
        OptionRecord { id: None, company_id: a, label: "Sin guardar".to_string() },
        OptionRecord { id: Some(b), company_id: a, label: "Luz".to_string() },
    ];
    let opts = record_options(&records, &Some(b), &a);
    assert_eq!(opts.len(), 2);
    assert_eq!(opts[0].value, ID_A);
    assert!(!opts[0].selected);
    assert_eq!(opts[1].label, "Luz");
    assert!(opts[1].selected);
    let with_none = record_options_with_none("Sin contacto", &records, &None, &a);
    assert_eq!(with_none.len(), 3);
    assert_eq!(with_none[0].value, "");
    assert!(with_none[0].selected);
    assert_eq!(account_option_label("Banorte", "MXN"), "Banorte (MXN)");
}

#[test]
fn user_options_keep_members() {
    let a = id(ID_A);
    let b = id(ID_B);
    let users = vec![
        UserRecord { id: a, email: "ana@x.mx".to_string(), company_ids: vec![b, a] },
        UserRecord { id: b, email: "beto@x.mx".to_string(), company_ids: vec![b] },
    ];
    let opts = user_options(&users, &Some(a), &a);
    assert_eq!(opts.len(), 2);
    assert_eq!(opts[0].label, "Sin usuario");
    assert!(!opts[0].selected);
    assert_eq!(opts[1].label, "ana@x.mx");
    assert!(opts[1].selected);
}

fn forecast_form() -> ForecastFormData {
    ForecastFormData {
        company_id: ID_A.to_string(),
        currency: " MXN ".to_string(),
        projected_income_total: "10".to_string(),
        projected_expense_total: "5".to_string(),
        projected_net: "5".to_string(),
        initial_balance: None,
        final_balance: None,
        generated_at: "2024-01-01T00:00:00Z".to_string(),
        start_date: "2024-01-01T00:00:00Z".to_string(),
        end_date: "2024-02-01T00:00:00Z".to_string(),
        generated_by_user_id: Some(format!(" {ID_A}")),
        details: None,
        scenario_name: Some("  base ".to_string()),
        notes: None,
    }
}

#[test]
fn forecast_form_takes_the_user_as_given() {
    // A user identifier with surrounding spaces is not an identifier on this form.
    assert_eq!(parse_forecast_form(&forecast_form(), true).unwrap_err(), RequestError::BadRequest);
    let ok = ForecastFormData { generated_by_user_id: Some(ID_A.to_string()), ..forecast_form() };
    let f = parse_forecast_form(&ok, true).unwrap();
    assert_eq!(f.currency, "MXN");
    assert_eq!(f.generated_by_user_id, Some(id(ID_A)));
    assert_eq!(f.scenario_name.as_deref(), Some("base"));
    assert_eq!(parse_forecast_form(&ok, false).unwrap_err(), RequestError::BadRequest);
}

#[test]
fn forecast_payload_reports_the_first_problem() {
    let p = ForecastPayload {
        generated_at: "2024-01-01T00:00:00Z".to_string(),
        generated_by_user_id: Some("  ".to_string()),
        start_date: "2024-01-01T00:00:00Z".to_string(),
        end_date: "2024-02-01T00:00:00Z".to_string(),
        currency: " ".to_string(),
        details: None,
        scenario_name: None,
        notes: None,
    };
    assert_eq!(parse_forecast_payload(p.clone()).unwrap_err(), "currency is required");
    let p2 = ForecastPayload { currency: "USD".to_string(), generated_by_user_id: Some("bad".to_string()), ..p.clone() };
    assert_eq!(parse_forecast_payload(p2).unwrap_err(), "generated_by_user_id is invalid");
    let p3 = ForecastPayload { end_date: "mañana".to_string(), ..p.clone() };
    assert_eq!(parse_forecast_payload(p3).unwrap_err(), "Formato de fecha/hora inválido para end_date");
    let p4 = ForecastPayload { currency: "USD".to_string(), ..p };
    let f = parse_forecast_payload(p4).unwrap();
    assert_eq!(f.generated_by_user_id, None);
    assert_eq!(f.end_date, 1_706_745_600_000);
}
