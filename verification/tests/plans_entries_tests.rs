use alfredodev::access::{check_company_ref, RefLookup, RequestError};
use alfredodev::entries::{parse_entry_ids, safe_return_to};
use alfredodev::ids::ObjectId;
use alfredodev::models::{FlowType, PlannedStatus, TransactionType};
use alfredodev::planned::{
    check_parent_entry, check_pay_form_parent, check_payable_entries, check_payable_entry, choose_ref, join_ids, parse_paid_at,
    parse_pay_form_account, parse_payment_account, parse_planned_entry_form, parse_planned_entry_payload, EntryLookup,
    ParentEntry, PayFormData, PlannedEntryFormData, PlannedEntryPayload, RefChoice,
};
use alfredodev::plans::{
    count_plan_entries, default_active, default_version, parse_plan_references, parse_plan_values, parse_recurring_plan_payload,
    RecurringPlanFormData, RecurringPlanPayload,
};
use alfredodev::transactions::{
    default_confirmed, default_tx_page, parse_transaction_form, parse_transaction_payload, TransactionFormData,
    TransactionPayload,
};

const ID_A: &str = "65f0a1b2c3d4e5f6a7b8c9d0";
const ID_B: &str = "65f0a1b2c3d4e5f6a7b8c9d1";
const ID_C: &str = "65f0a1b2c3d4e5f6a7b8c9d2";

fn id(s: &str) -> ObjectId {
    ObjectId::parse_str(s).unwrap()
}

fn plan_form() -> RecurringPlanFormData {
    RecurringPlanFormData {
        name: "  Renta oficina ".to_string(),
        company_id: ID_A.to_string(),
        flow_type: "Expense".to_string(),
        category_id: ID_B.to_string(),
        account_expected_id: ID_C.to_string(),
        contact_id: Some("   ".to_string()),
        amount_estimated: "15000".to_string(),
        frequency: " monthly ".to_string(),
        day_of_month: Some("5".to_string()),
        start_date: "2024-01-01T00:00:00Z".to_string(),
        end_date: None,
        is_active: true,
        version: "2".to_string(),
        notes: None,
    }
}

#[test]
fn recurring_plan_form_references() {
    let r = parse_plan_references(&plan_form()).unwrap();
    assert_eq!(r.flow_type, FlowType::Expense);
    assert_eq!(r.category_id, id(ID_B));
    assert_eq!(r.contact_id, None);
    let bad = RecurringPlanFormData { flow_type: "x".to_string(), category_id: "bad".to_string(), ..plan_form() };
    assert_eq!(parse_plan_references(&bad).unwrap_err(), "Tipo de flujo inválido");
    let bad = RecurringPlanFormData { category_id: "bad".to_string(), ..plan_form() };
    assert_eq!(parse_plan_references(&bad).unwrap_err(), "Categoría inválido");
    let bad = RecurringPlanFormData { account_expected_id: "bad".to_string(), ..plan_form() };
    assert_eq!(parse_plan_references(&bad).unwrap_err(), "Cuenta esperada inválido");
    let bad = RecurringPlanFormData { contact_id: Some("zz".to_string()), ..plan_form() };
    assert_eq!(parse_plan_references(&bad).unwrap_err(), "Contacto inválido");
}

#[test]
fn recurring_plan_form_values() {
    let v = parse_plan_values(&plan_form(), true).unwrap();
    assert_eq!(v.name, "Renta oficina");
    assert_eq!(v.frequency, "monthly");
    assert_eq!(v.day_of_month, Some(5));
    assert_eq!(v.start_date, 1_704_067_200_000);
    assert_eq!(v.version, 2);
    assert_eq!(parse_plan_values(&plan_form(), false).unwrap_err(), "Monto estimado debe ser numérico");
    let bad = RecurringPlanFormData { day_of_month: Some("cinco".to_string()), ..plan_form() };
    assert_eq!(parse_plan_values(&bad, true).unwrap_err(), "Día del mes debe ser numérico");
    let bad = RecurringPlanFormData { start_date: " ".to_string(), ..plan_form() };
    assert_eq!(
        parse_plan_values(&bad, true).unwrap_err(),
        "Fecha de inicio es obligatorio (usa RFC3339: 2024-01-01T00:00:00Z)"
    );
    let bad = RecurringPlanFormData { end_date: Some("ayer".to_string()), ..plan_form() };
    assert_eq!(parse_plan_values(&bad, true).unwrap_err(), "Formato de fecha/hora inválido para Fecha fin");
    let bad = RecurringPlanFormData { version: "v2".to_string(), ..plan_form() };
    assert_eq!(parse_plan_values(&bad, true).unwrap_err(), "Versión debe ser numérico");
}

fn plan_payload() -> RecurringPlanPayload {
    RecurringPlanPayload {
        name: "Nómina".to_string(),
        flow_type: "expense".to_string(),
        category_id: ID_B.to_string(),
        account_expected_id: ID_C.to_string(),
        contact_id: None,
        frequency: " Weekly ".to_string(),
        day_of_month: None,
        start_date: "2024-01-01T00:00:00Z".to_string(),
        end_date: Some("2024-06-30T00:00:00Z".to_string()),
        is_active: default_active(),
        version: default_version(),
        notes: Some(" ".to_string()),
    }
}

#[test]
fn recurring_plan_payload_is_normalized() {
    let p = parse_recurring_plan_payload(plan_payload(), false).unwrap();
    assert_eq!(p.frequency, "weekly");
    assert!(p.is_active);
    assert_eq!(p.version, 1);
    assert_eq!(p.notes, None);
}

#[test]
fn recurring_plan_payload_refusals() {
    let bad = |p: RecurringPlanPayload, neg: bool| parse_recurring_plan_payload(p, neg).unwrap_err();
    assert_eq!(bad(plan_payload(), true), RequestError::BadRequest);
    assert_eq!(bad(RecurringPlanPayload { name: " ".to_string(), ..plan_payload() }, false), RequestError::BadRequest);
    assert_eq!(bad(RecurringPlanPayload { frequency: "daily".to_string(), ..plan_payload() }, false), RequestError::BadRequest);
    assert_eq!(bad(RecurringPlanPayload { day_of_month: Some(32), ..plan_payload() }, false), RequestError::BadRequest);
    assert_eq!(
        bad(RecurringPlanPayload { end_date: Some("2023-12-31T00:00:00Z".to_string()), ..plan_payload() }, false),
        RequestError::BadRequest
    );
    assert!(parse_recurring_plan_payload(RecurringPlanPayload { day_of_month: Some(31), ..plan_payload() }, false).is_ok());
}

fn entry_form() -> PlannedEntryFormData {
    PlannedEntryFormData {
        name: " Pago proveedor ".to_string(),
        company_id: ID_A.to_string(),
        flow_type: "expense".to_string(),
        category_id: ID_B.to_string(),
        account_expected_id: ID_C.to_string(),
        contact_id: None,
        project_id: Some(format!("  {ID_A} ")),
        amount_estimated: "1200.50".to_string(),
        due_date: "2024-03-01T00:00:00Z".to_string(),
        status: "planned".to_string(),
        recurring_plan_id: Some("".to_string()),
        recurring_plan_version: Some(" 3 ".to_string()),
        notes: Some("urgente".to_string()),
    }
}

#[test]
fn planned_entry_form() {
    let f = parse_planned_entry_form(&entry_form(), true).unwrap();
    assert_eq!(f.name, "Pago proveedor");
    assert_eq!(f.project_id, Some(id(ID_A)));
    assert_eq!(f.recurring_plan_id, None);
    assert_eq!(f.recurring_plan_version, Some(3));
    assert_eq!(f.status, PlannedStatus::Planned);
    assert_eq!(f.due_date, 1_709_251_200_000);
    let e = |f: PlannedEntryFormData| parse_planned_entry_form(&f, true).unwrap_err();
    assert_eq!(e(PlannedEntryFormData { status: "Planned".to_string(), ..entry_form() }), RequestError::BadRequest);
    assert_eq!(e(PlannedEntryFormData { project_id: Some("p1".to_string()), ..entry_form() }), RequestError::BadRequest);
    assert_eq!(parse_planned_entry_form(&entry_form(), false).unwrap_err(), RequestError::BadRequest);
}

#[test]
fn planned_entry_payload() {
    let p = PlannedEntryPayload {
        name: "Luz".to_string(),
        flow_type: "expense".to_string(),
        category_id: ID_B.to_string(),
        account_expected_id: ID_C.to_string(),
        contact_id: Some(ID_A.to_string()),
        project_id: None,
        due_date: "2024-03-01T00:00:00Z".to_string(),
        status: "overdue".to_string(),
        recurring_plan_id: None,
        recurring_plan_version: Some(4),
        notes: None,
    };
    let f = parse_planned_entry_payload(p.clone(), false).unwrap();
    assert_eq!(f.contact_id, Some(id(ID_A)));
    assert_eq!(f.status, PlannedStatus::Overdue);
    assert_eq!(f.recurring_plan_version, Some(4));
    assert_eq!(parse_planned_entry_payload(p.clone(), true).unwrap_err(), RequestError::BadRequest);
    let blank = PlannedEntryPayload { name: "  ".to_string(), ..p };
    assert_eq!(parse_planned_entry_payload(blank, false).unwrap_err(), RequestError::BadRequest);
}

#[test]
fn payments_check_their_references() {
    let a = id(ID_A);
    let b = id(ID_B);
    let c = id(ID_C);
    assert_eq!(check_payable_entry(&EntryLookup::Found(a, PlannedStatus::Planned), &a), Ok(()));
    assert_eq!(check_payable_entry(&EntryLookup::Found(a, PlannedStatus::Covered), &a), Err(RequestError::BadRequest));
    assert_eq!(check_payable_entry(&EntryLookup::Found(b, PlannedStatus::Planned), &a), Err(RequestError::Forbidden));
    assert_eq!(check_payable_entry(&EntryLookup::Missing, &a), Err(RequestError::NotFound));
    assert_eq!(check_payable_entry(&EntryLookup::Failed, &a), Err(RequestError::Internal));
    assert_eq!(check_company_ref(&RefLookup::Missing, &a), Err(RequestError::BadRequest));
    assert_eq!(check_company_ref(&RefLookup::Found(b), &a), Err(RequestError::Forbidden));

    let parent = ParentEntry { id: Some(b), company_id: a, project_id: Some(c), has_cfdi: false };
    assert_eq!(check_parent_entry(&b, &parent, &a, &Some(c), &Some(a)), Ok(()));
    assert_eq!(check_parent_entry(&b, &parent, &a, &Some(a), &None), Err(RequestError::BadRequest));
    assert_eq!(check_parent_entry(&b, &parent, &a, &None, &Some(b)), Err(RequestError::BadRequest));
    let with_cfdi = ParentEntry { has_cfdi: true, ..parent };
    assert_eq!(check_parent_entry(&b, &with_cfdi, &a, &None, &None), Err(RequestError::BadRequest));

    assert_eq!(check_pay_form_parent(&parent, &a, &b, &None).unwrap_err(), "Selecciona un compromiso estimado válido");
    assert_eq!(
        check_pay_form_parent(&parent, &a, &c, &Some(a)).unwrap_err(),
        "El compromiso estimado debe pertenecer al proyecto seleccionado"
    );
    assert!(check_pay_form_parent(&parent, &a, &c, &Some(c)).is_ok());
}

#[test]
fn payment_fields() {
    let form = PayFormData {
        paid_at: "2024-03-02".to_string(),
        amount: "100".to_string(),
        account_id: "bad".to_string(),
        project_id: None,
        parent_planned_entry_id: None,
        notes: None,
        return_to: Some("/tiempo".to_string()),
    };
    assert_eq!(parse_pay_form_account(&form, true).unwrap_err(), "Selecciona una cuenta válida");
    let form = PayFormData { account_id: ID_A.to_string(), ..form };
    assert_eq!(parse_pay_form_account(&form, false).unwrap_err(), "Captura un monto válido");
    assert_eq!(parse_pay_form_account(&form, true), Ok(id(ID_A)));
    assert_eq!(safe_return_to(form.return_to.as_deref()), Some("/tiempo"));
    assert_eq!(safe_return_to(Some("https://evil.example")), None);

    match choose_ref(Some("  ".to_string()), Some(id(ID_B))) {
        Some(RefChoice::Keep(k)) => assert_eq!(k, Some(id(ID_B))),
        _ => panic!("a blank field keeps the entry's reference"),
    }
    match choose_ref(Some(ID_C.to_string()), None) {
        Some(RefChoice::Check(k)) => assert_eq!(k, id(ID_C)),
        _ => panic!("an identifier is looked up"),
    }
    assert!(choose_ref(Some("x".to_string()), None).is_none());

    assert_eq!(parse_payment_account(ID_A, true), Err(RequestError::BadRequest));
    assert_eq!(parse_payment_account(ID_A, false), Ok(id(ID_A)));
    assert_eq!(parse_paid_at("2024-01-01T00:00:00Z"), Ok(1_704_067_200_000));
    assert_eq!(parse_paid_at("ayer"), Err(RequestError::BadRequest));
}

#[test]
fn bulk_payment_identifiers() {
    let joined = join_ids(&vec![ID_A.to_string(), ID_B.to_string(), ID_A.to_string()]);
    assert_eq!(joined, format!("{ID_A},{ID_B},{ID_A}"));
    let ids = parse_entry_ids(&joined).unwrap();
    assert_eq!(ids, vec![id(ID_A), id(ID_B)]);
    assert!(parse_entry_ids(" , ,").is_err());
    assert!(parse_entry_ids(&format!("{ID_A},nope")).is_err());
    assert_eq!(join_ids(&vec![]), "");
}

fn tx_form() -> TransactionFormData {
    TransactionFormData {
        company_id: ID_A.to_string(),
        date: "2024-01-01T00:00:00Z".to_string(),
        description: "  Pago luz ".to_string(),
        transaction_type: "expense".to_string(),
        category_id: ID_B.to_string(),
        account_from_id: Some(ID_C.to_string()),
        account_to_id: Some(" ".to_string()),
        amount: "350".to_string(),
        planned_entry_id: None,
        is_confirmed: false,
        notes: None,
    }
}

#[test]
fn transaction_form_and_payload() {
    let f = parse_transaction_form(&tx_form(), true).unwrap();
    assert_eq!(f.description, "Pago luz");
    assert_eq!(f.transaction_type, TransactionType::Expense);
    assert_eq!(f.account_from_id, Some(id(ID_C)));
    assert_eq!(f.account_to_id, None);
    assert!(!f.is_confirmed);
    let bad = TransactionFormData { transaction_type: "Expense".to_string(), ..tx_form() };
    assert_eq!(parse_transaction_form(&bad, true).unwrap_err(), RequestError::BadRequest);
    assert_eq!(parse_transaction_form(&tx_form(), false).unwrap_err(), RequestError::BadRequest);

    let p = TransactionPayload {
        date: "2024-01-01T00:00:00Z".to_string(),
        description: "  ".to_string(),
        transaction_type: "transfer".to_string(),
        category_id: ID_B.to_string(),
        account_from_id: None,
        account_to_id: None,
        planned_entry_id: None,
        is_confirmed: default_confirmed(),
        notes: None,
    };
    assert_eq!(parse_transaction_payload(p.clone(), false).unwrap_err(), RequestError::BadRequest);
    let p = TransactionPayload { description: "Traspaso".to_string(), ..p };
    let f = parse_transaction_payload(p.clone(), false).unwrap();
    assert!(f.is_confirmed);
    assert_eq!(parse_transaction_payload(p, true).unwrap_err(), RequestError::BadRequest);
    assert_eq!(default_tx_page(), 1);
}

#[test]
fn plan_entries_are_counted_by_their_plan() {
    let plans = vec![Some(id(ID_A)), None, Some(id(ID_B)), Some(id(ID_A))];
    assert_eq!(count_plan_entries(&plans, &id(ID_A)), 2);
    assert_eq!(count_plan_entries(&plans, &id(ID_B)), 1);
    assert_eq!(count_plan_entries(&Vec::new(), &id(ID_A)), 0);
}

#[test]
fn bulk_payment_checks_every_entry_first() {
    let c = id(ID_A);
    let ok = EntryLookup::Found(c, PlannedStatus::Planned);
    let covered = EntryLookup::Found(c, PlannedStatus::Covered);
    let foreign = EntryLookup::Found(id(ID_B), PlannedStatus::Planned);
    assert_eq!(check_payable_entries(&vec![ok, ok], &c), Ok(()));
    assert_eq!(check_payable_entries(&Vec::new(), &c), Ok(()));
    assert_eq!(check_payable_entries(&vec![ok, covered, foreign], &c), Err(RequestError::BadRequest));
    assert_eq!(check_payable_entries(&vec![ok, foreign, EntryLookup::Missing], &c), Err(RequestError::Forbidden));
    assert_eq!(check_payable_entries(&vec![EntryLookup::Failed, covered], &c), Err(RequestError::Internal));
}
