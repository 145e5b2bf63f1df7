use alfredodev::ids::ObjectId;
use alfredodev::lookup::{build_lookup_map, select_from_map, NameLookup};
use alfredodev::models::{OrderStatus, UserRole};
use alfredodev::orders::{default_pending, parse_order_form, parse_scheduled_at, parse_status, status_options, OrderFormData};
use alfredodev::paging::{cfdi_page, default_page, page_window, transaction_page, PageQuery, PER_PAGE};
use alfredodev::profile::{account_data, check_profile, company_roles, saved_message};

const ID_A: &str = "65f0a1b2c3d4e5f6a7b8c9d0";
const ID_B: &str = "65f0a1b2c3d4e5f6a7b8c9d1";

fn id(s: &str) -> ObjectId {
    ObjectId::parse_str(s).unwrap()
}

#[test]
fn page_windows() {
    let w = page_window(120, 9, 50);
    assert_eq!((w.page, w.total_pages, w.start, w.end), (3, 3, 100, 120));
    let w = page_window(0, 4, 50);
    assert_eq!((w.page, w.total_pages, w.start, w.end), (1, 0, 0, 0));
    let w = cfdi_page(51, PageQuery { page: default_page() });
    assert_eq!((w.page, w.total_pages, w.start, w.end), (1, 2, 0, 50));
    let w = transaction_page(101, 0);
    assert_eq!((w.page, w.total_pages, w.start), (1, 3, 0));
    assert_eq!(PER_PAGE, 50);
    // every row is on exactly one page
    for row in 0..120u64 {
        let on: Vec<u64> = (1..=3).filter(|p| {
            let w = page_window(120, *p, 50);
            w.start <= row && row < w.end
        }).collect();
        assert_eq!(on, vec![row / 50 + 1]);
    }
}

#[test]
fn order_status_values() {
    assert_eq!(parse_status("in_progress"), OrderStatus::InProgress);
    assert_eq!(parse_status("IN_PROGRESS"), OrderStatus::Pending);
    for s in [OrderStatus::Pending, OrderStatus::Confirmed, OrderStatus::InProgress, OrderStatus::Completed, OrderStatus::Cancelled] {
        assert_eq!(parse_status(s.as_str()), s);
    }
    let opts = status_options();
    assert_eq!(opts[2], ("in_progress".to_string(), "En proceso".to_string()));
    assert_eq!(default_pending(), "pending");
}

#[test]
fn order_form_drops_what_it_cannot_read() {
    assert_eq!(parse_scheduled_at(" 2024-03-15 "), Some(1_710_460_800_000));
    assert_eq!(parse_scheduled_at("15/03/2024"), None);
    assert_eq!(parse_scheduled_at("1969-12-31"), Some(-86_400_000));
    assert_eq!(parse_scheduled_at("2000-02-29"), Some(951_782_400_000));
    assert_eq!(parse_scheduled_at("0001-01-01"), Some(-62_135_596_800_000));
    assert_eq!(parse_scheduled_at("  "), None);
    let form = OrderFormData {
        title: "  Mantenimiento ".to_string(),
        contact_id: Some(format!(" {ID_A}")),
        status: "confirmed".to_string(),
        amount: "1500".to_string(),
        scheduled_at: Some("2024-03-15".to_string()),
        notes: Some("  traer refacciones ".to_string()),
        items_json: None,
    };
    let f = parse_order_form(&form);
    assert_eq!(f.title, "Mantenimiento");
    assert_eq!(f.contact_id, None);
    assert_eq!(f.status, OrderStatus::Confirmed);
    assert_eq!(f.scheduled_at, Some(1_710_460_800_000));
    assert_eq!(f.notes.as_deref(), Some("  traer refacciones "));
    let form = OrderFormData { contact_id: Some(ID_A.to_string()), notes: Some(" ".to_string()), ..form };
    let f = parse_order_form(&form);
    assert_eq!(f.contact_id, Some(id(ID_A)));
    assert_eq!(f.notes, None);
}

#[test]
fn lookups_keep_the_latest_name() {
    let map = build_lookup_map(vec![
        (id(ID_A), "Renta".to_string()),
        (id(ID_B), "Luz".to_string()),
        (id(ID_A), "Renta oficina".to_string()),
    ]);
    assert_eq!(map.get(&id(ID_A)).map(|s| s.as_str()), Some("Renta oficina"));
    assert_eq!(map.name_or_empty(&None), "");
    let opts = select_from_map(&map, &Some(id(ID_B)));
    assert_eq!(opts.len(), 2);
    assert_eq!(opts[0].label, "Luz");
    assert!(opts[0].selected);
    assert_eq!(opts[1].label, "Renta oficina");
    let mut m = NameLookup::new();
    m.insert(id(ID_B), "Agua".to_string());
    assert_eq!(m.name_or_empty(&Some(id(ID_B))), "Agua");
    assert_eq!(m.name_or_empty(&Some(id(ID_A))), "");
}

#[test]
fn profile_rules() {
    assert_eq!(
        check_profile(" ana@acme.mx ", " s3cret "),
        Ok(("ana@acme.mx".to_string(), "s3cret".to_string()))
    );
    assert_eq!(check_profile("ana@acme.mx", "  "), Err("Email y secreto son obligatorios".to_string()));
    assert_eq!(saved_message(Some(true)).as_deref(), Some("Tu información se guardó correctamente"));
    assert_eq!(saved_message(Some(false)), None);
    let d = account_data(&id(ID_A), "ana@acme.mx".to_string());
    assert_eq!(d.id, ID_A);
    let roles = company_roles(&vec![id(ID_A), id(ID_B)], &vec![UserRole::Admin]);
    assert_eq!(roles, vec![(id(ID_A), UserRole::Admin)]);
}
