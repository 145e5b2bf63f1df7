use alfredodev::calendar::{CivilDate, CivilDateTime};
use alfredodev::cfdi::{read_cfdi_xml, ImportedCfdi};
use alfredodev::cfdi_download::{
    default_both, download_types_for, mexico_city_now, month_name_es, monthly_chunks, monthly_chunks_at, plan_month_chunks,
    should_retry, CfdiJobStatus, DownloadType,
};
use alfredodev::cfdi_jobs::{
    booking_actions, check_job_access, company_job_order, JobListing, check_sat_config, commitment_for, decide_cfdi, is_commitment_kind, CfdiStep, parse_cfdi_date, parse_download_ids,
    problem_message, CfdiDownloadForm, ConfigLookup, JobProblem, JobTally,
};
use alfredodev::access::RequestError;
use alfredodev::ids::ObjectId;
use alfredodev::models::{ContactType, FlowType};

const XML: &str = r#"<?xml version="1.0" encoding="UTF-8"?>
<cfdi:Comprobante xmlns:cfdi="http://www.sat.gob.mx/cfd/4" xmlns:tfd="http://www.sat.gob.mx/TimbreFiscalDigital" Version="4.0" Fecha="2024-05-01T10:00:00" Total="1160.00" TipoDeComprobante="I" Moneda="MXN">
  <cfdi:Emisor Rfc="AAA010101AAA" Nombre="Emisor SA"/>
  <cfdi:Receptor Rfc="BBB010101BBB" Nombre="Cliente SA"/>
  <cfdi:Complemento>
    <tfd:TimbreFiscalDigital Version="1.1" UUID="ABCDEF12-3456-7890-ABCD-EF1234567890"/>
  </cfdi:Complemento>
</cfdi:Comprobante>"#;

#[test]
fn cfdi_summary_is_read_from_the_xml() {
    let (nodes, c) = read_cfdi_xml(XML).unwrap();
    assert!(!nodes.is_empty());
    assert_eq!(c.uuid, "abcdef12-3456-7890-abcd-ef1234567890");
    assert_eq!(c.tipo_de_comprobante, "I");
    assert_eq!(c.total, "1160.00");
    assert_eq!(c.fecha, "2024-05-01T10:00:00");
    assert_eq!(c.emisor_rfc, "AAA010101AAA");
    assert_eq!(c.receptor_nombre, "Cliente SA");
}

#[test]
fn cfdi_summary_defaults_and_bom() {
    let xml = "\u{FEFF}<Comprobante><Complemento><TimbreFiscalDigital UUID=\"X1\"/></Complemento></Comprobante>";
    let (_, c) = read_cfdi_xml(xml).unwrap();
    assert_eq!(c.uuid, "x1");
    assert_eq!(c.total, "0");
    assert_eq!(c.tipo_de_comprobante, "");
    assert_eq!(c.emisor_rfc, "");
}

#[test]
fn cfdi_refusals() {
    assert_eq!(read_cfdi_xml("<a>").unwrap_err(), "Parsing CFDI XML");
    assert_eq!(read_cfdi_xml("<Factura/>").unwrap_err(), "Root element is not cfdi:Comprobante");
    assert_eq!(
        read_cfdi_xml("<Comprobante/>").unwrap_err(),
        "TimbreFiscalDigital not found — maybe not a timbrado CFDI"
    );
    assert_eq!(
        read_cfdi_xml("<Comprobante><TimbreFiscalDigital/></Comprobante>").unwrap_err(),
        "UUID missing in TimbreFiscalDigital"
    );
}

fn date(year: i32, month: u32, day: u32) -> CivilDate {
    CivilDate { year, month, day }
}

#[test]
fn month_chunks_cover_the_range() {
    let chunks = plan_month_chunks(date(2024, 1, 15), date(2024, 3, 10));
    assert_eq!(chunks.len(), 3);
    assert_eq!(chunks[0].from, date(2024, 1, 15));
    assert_eq!(chunks[0].to, date(2024, 1, 31));
    assert_eq!(chunks[1].from, date(2024, 2, 1));
    assert_eq!(chunks[1].to, date(2024, 2, 29));
    assert_eq!(chunks[2].to, date(2024, 3, 10));
    assert!(plan_month_chunks(date(2024, 3, 1), date(2024, 2, 1)).is_empty());
}

#[test]
fn monthly_jobs_as_of_a_given_time() {
    let now = CivilDateTime { date: date(2024, 2, 10), hour: 8, minute: 5, second: 9 };
    let jobs = monthly_chunks_at("2024-01-20T00:00:00", "2024-03-31", now);
    assert_eq!(jobs.len(), 2);
    assert_eq!(jobs[0], ("Ene 2024".to_string(), "2024-01-20T00:00:00".to_string(), "2024-01-31T23:59:59".to_string()));
    assert_eq!(jobs[1], ("Feb 2024".to_string(), "2024-02-01T00:00:00".to_string(), "2024-02-10T08:05:09".to_string()));
    let fallback = monthly_chunks_at("soon", "2024-03-31", now);
    assert_eq!(fallback, vec![("Descarga".to_string(), "soon".to_string(), "2024-03-31".to_string())]);
    assert!(monthly_chunks_at("2024-03-01", "2024-01-01", now).is_empty());
    assert_eq!(month_name_es(12), "Dic");
    assert_eq!(month_name_es(13), "???");
    assert!(monthly_chunks("2000-01-01", "2000-01-02").len() >= 1);
}

#[test]
fn download_request_handling() {
    assert_eq!(download_types_for("received"), vec![DownloadType::Received]);
    assert_eq!(download_types_for(&default_both()), vec![DownloadType::Issued, DownloadType::Received]);
    assert_eq!(download_types_for("issued"), vec![DownloadType::Issued]);
    let form = CfdiDownloadForm {
        sat_config_id: "bad".to_string(),
        start: "2024-01-01".to_string(),
        end: "2024-01-31".to_string(),
        download_type: default_both(),
        auto_create_payments: false,
    };
    let e = parse_download_ids("65f0a1b2c3d4e5f6a7b8c9d0", &form).unwrap_err();
    assert_eq!(e.status, RequestError::BadRequest);
    assert_eq!(e.message, "sat_config_id inválido");
    let e = parse_download_ids("x", &form).unwrap_err();
    assert_eq!(e.message, "company_id inválido");
    let a = ObjectId::parse_str("65f0a1b2c3d4e5f6a7b8c9d0").unwrap();
    let b = ObjectId::parse_str("65f0a1b2c3d4e5f6a7b8c9d1").unwrap();
    assert!(check_sat_config(&ConfigLookup::Found(a), &a).is_ok());
    assert_eq!(check_sat_config(&ConfigLookup::Found(b), &a).unwrap_err().0, RequestError::Forbidden);
    let (s, m) = check_sat_config(&ConfigLookup::Missing, &a).unwrap_err();
    assert_eq!((s, m.as_deref()), (RequestError::NotFound, Some("Configuración SAT no encontrada")));
    assert_eq!(check_job_access(Some("c1"), "c1"), Ok(()));
    assert_eq!(check_job_access(Some("c2"), "c1"), Err(RequestError::Forbidden));
    assert_eq!(check_job_access(None, "c1"), Err(RequestError::NotFound));
}

fn imported() -> ImportedCfdi {
    ImportedCfdi {
        uuid: "u-1".to_string(),
        tipo_de_comprobante: "E".to_string(),
        total: "100".to_string(),
        fecha: "2024-05-01T10:00:00".to_string(),
        emisor_rfc: "AAA".to_string(),
        emisor_nombre: "Proveedor".to_string(),
        receptor_rfc: "BBB".to_string(),
        receptor_nombre: "Cliente".to_string(),
    }
}

#[test]
fn imported_cfdis_become_commitments() {
    assert!(is_commitment_kind("I") && is_commitment_kind("E"));
    assert!(!is_commitment_kind("P") && !is_commitment_kind("i"));
    let issued = commitment_for(DownloadType::Issued, &imported());
    assert_eq!(issued.flow_type, FlowType::Income);
    assert_eq!(issued.contact_type, ContactType::Customer);
    assert_eq!(issued.contact_rfc, "BBB");
    assert_eq!(issued.description, "Cliente — u-1");
    let received = commitment_for(DownloadType::Received, &imported());
    assert_eq!(received.flow_type, FlowType::Expense);
    assert_eq!(received.description, "Proveedor — u-1");
    assert_eq!(parse_cfdi_date("2024-05-01T10:00:00"), 1_714_557_600_000);
}

#[test]
fn job_tally_counts_every_cfdi_once() {
    let mut t = JobTally::new();
    t.skip();
    t.record(true);
    t.record(false);
    t.record(true);
    t.note(problem_message(JobProblem::Commitment, "u-1", "boom"));
    t.note(problem_message(JobProblem::SatAccount, "ignored", "sin cuenta"));
    assert_eq!(t.created + t.updated + t.skipped, 4);
    let status = t.finish(4);
    match &status {
        CfdiJobStatus::Done { imported, transactions_created, transactions_updated, transactions_skipped, errors } => {
            assert_eq!((*imported, *transactions_created, *transactions_updated, *transactions_skipped), (4, 2, 1, 1));
            assert_eq!(errors[0], "Error compromiso CFDI u-1: boom");
            assert_eq!(errors[1], "Error cuenta SAT: sin cuenta");
        }
        _ => panic!("a finished job is done"),
    }
    assert!(!should_retry(&status));
    assert!(should_retry(&CfdiJobStatus::Done {
        imported: 0,
        transactions_created: 0,
        transactions_updated: 0,
        transactions_skipped: 0,
        errors: vec!["x".to_string()],
    }));
    assert!(should_retry(&CfdiJobStatus::Failed { error: "x".to_string() }));
    assert!(!should_retry(&CfdiJobStatus::Queued));
}

#[test]
fn each_imported_cfdi_is_decided_and_settled_once() {
    let cat = ObjectId::parse_str("65f0a1b2c3d4e5f6a7b8c9d0").unwrap();
    let sat = ObjectId::parse_str("65f0a1b2c3d4e5f6a7b8c9d1").unwrap();
    let ok_cat: Result<ObjectId, String> = Ok(cat);
    let bad_cat: Result<ObjectId, String> = Err("sin categoría".to_string());
    let ok_sat: Result<ObjectId, String> = Ok(sat);
    let bad_sat: Result<ObjectId, String> = Err("sin cuenta".to_string());
    let mut pago = imported();
    pago.tipo_de_comprobante = "P".to_string();
    assert!(matches!(decide_cfdi(DownloadType::Received, &pago, &bad_cat, &bad_cat, &bad_sat, true), CfdiStep::Skip));
    match decide_cfdi(DownloadType::Received, &imported(), &ok_cat, &bad_cat, &ok_sat, false) {
        CfdiStep::SkipWithProblem(m) => assert_eq!(m, "Error categoría para u-1: sin categoría"),
        _ => panic!("the expense category is missing"),
    }
    match decide_cfdi(DownloadType::Issued, &imported(), &ok_cat, &bad_cat, &bad_sat, false) {
        CfdiStep::SkipWithProblem(m) => assert_eq!(m, "Error cuenta SAT: sin cuenta"),
        _ => panic!("the SAT account is missing"),
    }
    assert!(matches!(decide_cfdi(DownloadType::Issued, &imported(), &ok_cat, &bad_cat, &ok_sat, true), CfdiStep::Skip));
    let booked = decide_cfdi(DownloadType::Issued, &imported(), &ok_cat, &bad_cat, &ok_sat, false);
    match &booked {
        CfdiStep::Book { category_id, sat_account_id, plan } => {
            assert_eq!(*category_id, cat);
            assert_eq!(*sat_account_id, sat);
            assert_eq!(plan.flow_type, FlowType::Income);
            assert_eq!(plan.description, "Cliente — u-1");
        }
        _ => panic!("an issued income CFDI is booked"),
    }
    let mut t = JobTally::new();
    t.settle(&CfdiStep::Skip);
    t.settle(&CfdiStep::SkipWithProblem("Error cuenta SAT: sin cuenta".to_string()));
    t.settle_booking("u-1", Ok(true));
    t.settle_booking("u-2", Ok(false));
    t.settle_booking("u-3", Err("duplicado".to_string()));
    assert_eq!((t.created, t.updated, t.skipped), (1, 1, 3));
    assert_eq!(t.errors, vec!["Error cuenta SAT: sin cuenta".to_string(), "Error compromiso CFDI u-3: duplicado".to_string()]);
    match t.finish(5) {
        CfdiJobStatus::Done { imported, transactions_skipped, .. } => assert_eq!((imported, transactions_skipped), (5, 3)),
        _ => panic!("a finished job is done"),
    }
}

#[test]
fn mexico_city_time_is_six_hours_behind_utc() {
    let t = mexico_city_now(1_714_557_600).unwrap();
    assert_eq!((t.date.year, t.date.month, t.date.day, t.hour, t.minute, t.second), (2024, 5, 1, 4, 0, 0));
    let t = mexico_city_now(0).unwrap();
    assert_eq!((t.date.year, t.date.month, t.date.day, t.hour), (1969, 12, 31, 18));
    assert!(mexico_city_now(i64::MIN).is_none());
    assert!(mexico_city_now(i64::MAX).is_none());
}

#[test]
fn booking_looks_up_named_contacts_and_pays_when_asked() {
    let mut plan = commitment_for(DownloadType::Issued, &imported());
    let a = booking_actions(&plan, true);
    assert!(a.look_up_contact && a.pay);
    plan.contact_rfc = String::new();
    let a = booking_actions(&plan, false);
    assert!(!a.look_up_contact && !a.pay);
}

#[test]
fn a_company_lists_its_jobs_by_month() {
    let job = |c: &str, start: &str| JobListing { company_id: c.to_string(), chunk_start: start.to_string() };
    let jobs = vec![
        job("c1", "2024-03-01T00:00:00"),
        job("c2", "2024-01-01T00:00:00"),
        job("c1", "2024-01-15T00:00:00"),
        job("c1", "2023-12-01T00:00:00"),
        job("c1", "2024-01-15T00:00:00"),
    ];
    assert_eq!(company_job_order(&jobs, "c1"), vec![3, 2, 4, 0]);
    assert_eq!(company_job_order(&jobs, "c2"), vec![1]);
    assert!(company_job_order(&jobs, "c3").is_empty());
}
