use alfredodev::catalog::{account_rows, category_rows, contact_rows, AccountRecord, CategoryRecord, ContactRecord};
use alfredodev::ids::ObjectId;
use alfredodev::lookup::build_lookup_map;
use alfredodev::forecasts::{forecast_detail, forecast_rows, ForecastRecord};
use alfredodev::models::{AccountType, ContactType, FlowType, OrderStatus, TransactionType};
use alfredodev::orders::{order_day, order_rows, OrderRecord};
use alfredodev::plans::{recurring_plan_data, recurring_plans_data, RecurringPlanRecord};
use alfredodev::transactions::{transaction_data, tx_list_row, tx_list_rows, TransactionRecord};

const ID_TX: &str = "65f0a1b2c3d4e5f6a7b8c9d0";
const ID_COMPANY: &str = "65f0a1b2c3d4e5f6a7b8c9d1";
const ID_CATEGORY: &str = "65f0a1b2c3d4e5f6a7b8c9d2";
const ID_ACCOUNT: &str = "65f0a1b2c3d4e5f6a7b8c9d3";
const ID_CONTACT: &str = "65f0a1b2c3d4e5f6a7b8c9d4";
const ID_OTHER: &str = "65f0a1b2c3d4e5f6a7b8c9d5";

fn id(s: &str) -> ObjectId {
    ObjectId::parse_str(s).unwrap()
}

fn record() -> TransactionRecord {
    TransactionRecord {
        id: Some(id(ID_TX)),
        company_id: id(ID_COMPANY),
        date: 1_704_153_599_000,
        description: "Renta".to_string(),
        transaction_type: TransactionType::Expense,
        category_id: id(ID_CATEGORY),
        account_from_id: Some(id(ID_ACCOUNT)),
        account_to_id: Some(id(ID_OTHER)),
        planned_entry_id: None,
        project_id: Some(id(ID_OTHER)),
        is_confirmed: true,
        contact_id: Some(id(ID_CONTACT)),
        cfdi_uuid: None,
        currency: None,
        cfdi_folio: Some("A-17".to_string()),
        notes: None,
    }
}

#[test]
fn listing_rows_name_what_a_transaction_points_at() {
    let accounts = build_lookup_map(vec![(id(ID_ACCOUNT), "Banco".to_string())]);
    let categories = build_lookup_map(vec![(id(ID_CATEGORY), "Oficina".to_string())]);
    let contacts = build_lookup_map(vec![(id(ID_CONTACT), "Casero".to_string())]);
    let row = tx_list_row(&record(), &accounts, &categories, &contacts).unwrap();
    assert_eq!(row.id, ID_TX);
    assert_eq!(row.date, "2024-01-01");
    assert_eq!(row.description, "Renta");
    assert_eq!(row.tx_type, "expense");
    assert_eq!(row.category, "Oficina");
    assert_eq!(row.account_from, "Banco");
    assert_eq!(row.account_to, "");
    assert_eq!(row.contact, "Casero");
    assert!(row.is_confirmed);
    assert_eq!(row.cfdi_folio, "A-17");
    assert_eq!(row.currency, "MXN");
    assert_eq!(row.notes, "");
}

#[test]
fn listing_skips_unsaved_transactions() {
    let none = build_lookup_map(Vec::new());
    let mut unsaved = record();
    unsaved.id = None;
    assert!(tx_list_row(&unsaved, &none, &none, &none).is_none());
    let mut usd = record();
    usd.currency = Some("USD".to_string());
    let rows = tx_list_rows(&vec![unsaved, record(), usd], &none, &none, &none);
    assert_eq!(rows.len(), 2);
    assert_eq!(rows[0].currency, "MXN");
    assert_eq!(rows[1].currency, "USD");
    assert_eq!(rows[0].category, "");
}

#[test]
fn transaction_detail_writes_identifiers_as_hex() {
    let d = transaction_data(&record(), "Acme".to_string()).unwrap();
    assert_eq!(d.id, ID_TX);
    assert_eq!(d.company_id, ID_COMPANY);
    assert_eq!(d.company, "Acme");
    assert_eq!(d.date, "2024-01-01T23:59:59Z");
    assert_eq!(d.transaction_type, "expense");
    assert_eq!(d.category_id, ID_CATEGORY);
    assert_eq!(d.account_from_id.as_deref(), Some(ID_ACCOUNT));
    assert_eq!(d.planned_entry_id, None);
    assert_eq!(d.project_id.as_deref(), Some(ID_OTHER));
    assert_eq!(d.currency, None);
    assert_eq!(d.cfdi_folio.as_deref(), Some("A-17"));
    let mut unsaved = record();
    unsaved.id = None;
    assert!(transaction_data(&unsaved, "Acme".to_string()).is_none());
}

fn plan(id_text: Option<&str>, company: &str) -> RecurringPlanRecord {
    RecurringPlanRecord {
        id: id_text.map(id),
        company_id: id(company),
        name: "Renta".to_string(),
        flow_type: FlowType::Expense,
        category_id: id(ID_CATEGORY),
        account_expected_id: id(ID_ACCOUNT),
        contact_id: None,
        frequency: "monthly".to_string(),
        day_of_month: Some(5),
        start_date: 1_704_067_200_000,
        end_date: None,
        is_active: true,
        version: 2,
        notes: Some("local".to_string()),
    }
}

#[test]
fn recurring_plan_data_and_company_listing() {
    let d = recurring_plan_data(&plan(Some(ID_TX), ID_COMPANY), "Acme").unwrap();
    assert_eq!(d.id, ID_TX);
    assert_eq!(d.company, "Acme");
    assert_eq!(d.flow_type, "expense");
    assert_eq!(d.account_expected_id, ID_ACCOUNT);
    assert_eq!(d.contact_id, None);
    assert_eq!(d.start_date, "2024-01-01T00:00:00Z");
    assert_eq!(d.end_date, None);
    assert_eq!(d.day_of_month, Some(5));
    assert_eq!(d.version, 2);
    assert!(recurring_plan_data(&plan(None, ID_COMPANY), "Acme").is_none());
    let plans = vec![plan(Some(ID_TX), ID_COMPANY), plan(Some(ID_CONTACT), ID_OTHER), plan(None, ID_COMPANY)];
    let listed = recurring_plans_data(&plans, &id(ID_COMPANY), "Acme");
    assert_eq!(listed.len(), 1);
    assert_eq!(listed[0].id, ID_TX);
}

fn forecast(id_text: Option<&str>, company: &str) -> ForecastRecord {
    ForecastRecord {
        id: id_text.map(id),
        company_id: id(company),
        generated_at: 1_704_067_200_000,
        generated_by_user_id: Some(id(ID_CONTACT)),
        start_date: 1_704_067_200_000,
        end_date: 1_704_153_599_000,
        currency: "MXN".to_string(),
        details: None,
        scenario_name: Some("base".to_string()),
        notes: None,
    }
}

#[test]
fn forecast_listing_and_detail() {
    let fs = vec![forecast(Some(ID_TX), ID_COMPANY), forecast(Some(ID_ACCOUNT), ID_OTHER), forecast(None, ID_COMPANY)];
    let rows = forecast_rows(&fs, &id(ID_COMPANY), "Acme");
    assert_eq!(rows.len(), 1);
    assert_eq!(rows[0].id, ID_TX);
    assert_eq!(rows[0].company, "Acme");
    assert_eq!(rows[0].end_date, "2024-01-01T23:59:59Z");
    assert_eq!(rows[0].scenario_name.as_deref(), Some("base"));
    let d = forecast_detail(ID_TX.to_string(), &fs[0], "Acme".to_string());
    assert_eq!(d.id, ID_TX);
    assert_eq!(d.company_id, ID_COMPANY);
    assert_eq!(d.generated_by_user_id.as_deref(), Some(ID_CONTACT));
    assert_eq!(d.generated_at, "2024-01-01T00:00:00Z");
    assert_eq!(d.currency, "MXN");
}

#[test]
fn order_days_and_listing() {
    assert_eq!(order_day(1_704_067_200_000, true), "01/01/2024");
    assert_eq!(order_day(1_704_067_200_000, false), "2024-01-01");
    assert_eq!(order_day(-1_500, true), "31/12/1969");
    assert_eq!(order_day(i64::MAX, true), "01/01/1970");
    assert_eq!(order_day(i64::MIN, false), "1970-01-01");
    let contacts = build_lookup_map(vec![(id(ID_CONTACT), "Cliente SA".to_string())]);
    let orders = vec![
        OrderRecord {
            id: Some(id(ID_TX)),
            contact_id: Some(id(ID_CONTACT)),
            title: "Instalación".to_string(),
            status: OrderStatus::InProgress,
            scheduled_at: Some(1_704_153_599_000),
            transaction_id: None,
        },
        OrderRecord {
            id: None,
            contact_id: Some(id(ID_OTHER)),
            title: "Borrador".to_string(),
            status: OrderStatus::Completed,
            scheduled_at: None,
            transaction_id: Some(id(ID_OTHER)),
        },
    ];
    let rows = order_rows(&orders, &contacts);
    assert_eq!(rows.len(), 2);
    assert_eq!(rows[0].id, ID_TX);
    assert_eq!(rows[0].contact_name, "Cliente SA");
    assert_eq!(rows[0].status, "in_progress");
    assert_eq!(rows[0].status_label, "En proceso");
    assert_eq!(rows[0].scheduled_at, "01/01/2024");
    assert!(!rows[0].has_transaction);
    assert_eq!(rows[1].id, "");
    assert_eq!(rows[1].contact_name, "");
    assert_eq!(rows[1].scheduled_at, "");
    assert!(rows[1].has_transaction);
}

#[test]
fn category_listing_names_parents_of_the_same_company() {
    let cats = vec![
        CategoryRecord { id: Some(id(ID_CATEGORY)), company_id: id(ID_COMPANY), name: "Gastos".to_string(), flow_type: FlowType::Expense, parent_id: None },
        CategoryRecord { id: Some(id(ID_TX)), company_id: id(ID_COMPANY), name: "Renta".to_string(), flow_type: FlowType::Expense, parent_id: Some(id(ID_CATEGORY)) },
        CategoryRecord { id: Some(id(ID_OTHER)), company_id: id(ID_OTHER), name: "Ajena".to_string(), flow_type: FlowType::Income, parent_id: None },
        CategoryRecord { id: Some(id(ID_ACCOUNT)), company_id: id(ID_COMPANY), name: "Luz".to_string(), flow_type: FlowType::Expense, parent_id: Some(id(ID_OTHER)) },
        CategoryRecord { id: None, company_id: id(ID_COMPANY), name: "Nueva".to_string(), flow_type: FlowType::Income, parent_id: None },
    ];
    let rows = category_rows(&cats, &id(ID_COMPANY), "Acme");
    assert_eq!(rows.len(), 3);
    assert_eq!(rows[0].parent, "-");
    assert_eq!(rows[1].name, "Renta");
    assert_eq!(rows[1].parent, "Gastos");
    assert_eq!(rows[1].flow_type, "expense");
    assert_eq!(rows[1].company, "Acme");
    assert_eq!(rows[2].parent, "-");
}

#[test]
fn account_and_contact_listings() {
    let accs = vec![
        AccountRecord { id: Some(id(ID_ACCOUNT)), company_id: id(ID_COMPANY), name: "Banco".to_string(), account_type: AccountType::CreditCard, currency: "USD".to_string(), is_active: false },
        AccountRecord { id: Some(id(ID_OTHER)), company_id: id(ID_OTHER), name: "Otra".to_string(), account_type: AccountType::Cash, currency: "MXN".to_string(), is_active: true },
    ];
    let rows = account_rows(&accs, &id(ID_COMPANY), "Acme");
    assert_eq!(rows.len(), 1);
    assert_eq!(rows[0].id, ID_ACCOUNT);
    assert_eq!(rows[0].account_type, "credit_card");
    assert_eq!(rows[0].currency, "USD");
    assert!(!rows[0].is_active);
    let contacts = vec![
        ContactRecord { id: Some(id(ID_CONTACT)), company_id: id(ID_COMPANY), name: "Casero".to_string(), contact_type: ContactType::Supplier, email: None },
        ContactRecord { id: Some(id(ID_TX)), company_id: id(ID_COMPANY), name: "Cliente".to_string(), contact_type: ContactType::Customer, email: Some("c@x.mx".to_string()) },
    ];
    let rows = contact_rows(&contacts, &id(ID_COMPANY), "Acme");
    assert_eq!(rows.len(), 2);
    assert_eq!(rows[0].email, "-");
    assert_eq!(rows[0].kind, "supplier");
    assert_eq!(rows[1].email, "c@x.mx");
}
