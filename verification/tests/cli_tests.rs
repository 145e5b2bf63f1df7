use alfredodev::cli::{
    base_host, classify_error, derive_tenant_host, endpoint, exit_code, extract_session_cookie, normalize_base_url,
    parse_u16, request_base_url, request_host, session_cookie_header, validate_flow_type, validate_frequency,
    validate_non_empty, validate_object_id, validate_optional_object_id, validate_planned_status,
    validate_timeline_mode, validate_transaction_type, CredentialState,
};
use alfredodev::cli_payloads::{
    check_bulk_pay_args, check_delete, check_forecast_args, check_pay_args, check_planned_entry_args,
    check_project_concept_args, check_project_status_args, check_recurring_plan_args, check_transaction_args,
    check_usage_times, normalize_timeline_bound, split_allocation, timeline_path, validate_rfc3339, ForecastArgs,
    PlannedEntryArgs, RecurringPlanArgs, TransactionArgs,
};
use alfredodev::cli_replies::{
    check_login_status, check_logout_status, check_pdf_reply, check_reply_status, check_reset_auth, check_typst_source,
    shows_status_field,
    created_summary, decode_pdf, needs_relogin, preview_summary, record_login, reply_summary, ReplyShape,
};
use alfredodev::cli_state::{
    clear_session, company_marker, find_company, same_ignoring_ascii_case, selected_company_id, use_company,
    CompanySummary,
};

const ID_A: &str = "65f0a1b2c3d4e5f6a7b8c9d0";

fn state() -> CredentialState {
    CredentialState {
        base_url: "https://app.alfredo.dev".to_string(),
        email: "ana@alfredo.dev".to_string(),
        totp_secret: "JBSWY3DPEHPK3PXPJBSWY3DPEHPK3PXP".to_string(),
        session_cookie: Some("tok".to_string()),
        company_slug: None,
        tenant_host: None,
        last_login_at: None,
    }
}

#[test]
fn argument_validators() {
    assert_eq!(validate_non_empty("  ", "name"), Err("name is required".to_string()));
    assert_eq!(validate_object_id("123", "id"), Err("id must be a 24-character ObjectId".to_string()));
    assert!(validate_object_id(ID_A, "id").is_ok());
    assert!(validate_optional_object_id(None, "contact-id").is_ok());
    assert!(validate_transaction_type("transfer").is_ok());
    assert!(validate_flow_type("Income").is_err());
    assert!(validate_frequency("weekly").is_ok());
    assert!(validate_planned_status("partially_covered").is_ok());
    assert_eq!(validate_timeline_mode("hour"), Err("mode must be one of: day, week, month, year".to_string()));
}

#[test]
fn errors_classify_into_exit_codes() {
    let cases = [
        ("credential file not found at /x; run spcli login", "not_authenticated", 3),
        ("login failed", "invalid_credentials", 3),
        ("request failed with status 401 Unauthorized: {}", "unauthorized", 3),
        ("request failed with status 403 Forbidden: {}", "forbidden", 4),
        ("request failed with status 404 Not Found: {}", "not_found", 5),
        ("request failed with status 409 Conflict: {}", "conflict", 6),
        ("account delete is destructive; rerun with --yes to confirm", "confirmation_required", 2),
        ("name is required", "validation_error", 2),
        ("request failed", "network_error", 7),
        ("request failed with status 502 Bad Gateway: x", "network_error", 7),
        ("something odd", "spcli_error", 1),
    ];
    for (message, class, code) in cases {
        assert_eq!(classify_error(message), class, "{message}");
        assert_eq!(exit_code(class), code, "{class}");
    }
}

#[test]
fn base_urls_and_hosts() {
    assert_eq!(normalize_base_url(" https://app.alfredo.dev/ "), Ok("https://app.alfredo.dev".to_string()));
    assert!(normalize_base_url("not a url").is_err());
    assert_eq!(endpoint("https://x.mx", "/login"), Ok("https://x.mx/login".to_string()));
    assert_eq!(base_host("http://localhost:3000"), Ok("localhost:3000".to_string()));
    assert_eq!(derive_tenant_host("https://app.alfredo.dev", "acme"), Ok("acme.alfredo.dev".to_string()));
    assert_eq!(derive_tenant_host("http://localhost:3000", "acme"), Ok("acme.localhost:3000".to_string()));
    assert_eq!(parse_u16("8080"), Some(8080));
    assert_eq!(parse_u16("70000"), None);
    let mut s = state();
    assert_eq!(request_host(&s), Some("app.alfredo.dev".to_string()));
    s.tenant_host = Some("acme.alfredo.dev".to_string());
    assert_eq!(request_base_url(&s), Ok("https://acme.alfredo.dev".to_string()));
    assert_eq!(session_cookie_header(&s), Ok("session=tok".to_string()));
    s.session_cookie = None;
    assert_eq!(session_cookie_header(&s), Err("missing session cookie".to_string()));
}

#[test]
fn session_cookie_is_taken_from_set_cookie() {
    let headers = vec![
        Some("theme=dark".to_string()),
        Some("session=; Path=/".to_string()),
        Some("session= abc123 ; HttpOnly".to_string()),
    ];
    assert_eq!(extract_session_cookie(&headers), Ok("abc123".to_string()));
    assert!(extract_session_cookie(&vec![Some("theme=dark".to_string())]).is_err());
    assert_eq!(extract_session_cookie(&vec![None]), Err("invalid Set-Cookie header".to_string()));
}

#[test]
fn instants_and_timeline_bounds() {
    assert_eq!(validate_rfc3339("2024-01-01T00:00:00-06:00", "date"), Ok("2024-01-01T00:00:00-06:00".to_string()));
    assert_eq!(validate_rfc3339("2024-01-01", "date"), Err("date must be RFC3339".to_string()));
    assert_eq!(normalize_timeline_bound("2024-02-29", "from"), Ok("2024-02-29T00:00:00Z".to_string()));
    assert_eq!(normalize_timeline_bound("2024-02-30", "from"), Err("from must be YYYY-MM-DD or RFC3339".to_string()));
    assert_eq!(
        timeline_path("week", "2024-01-01", "2024-01-31T00:00:00Z"),
        Ok("/api/tiempo?mode=week&from=2024-01-01T00:00:00Z&to=2024-01-31T00:00:00Z".to_string())
    );
}

#[test]
fn command_arguments_report_the_first_problem() {
    let plan = RecurringPlanArgs {
        name: "Renta".to_string(),
        flow_type: "expense".to_string(),
        category_id: ID_A.to_string(),
        account_expected_id: ID_A.to_string(),
        contact_id: None,
        frequency: "monthly".to_string(),
        day_of_month: Some(0),
        start_date: "2024-01-01T00:00:00Z".to_string(),
        end_date: None,
    };
    assert_eq!(check_recurring_plan_args(&plan, false), Err("day-of-month must be between 1 and 31".to_string()));
    assert_eq!(
        check_recurring_plan_args(&plan, true),
        Err("amount-estimated must be greater than or equal to zero".to_string())
    );
    let plan = RecurringPlanArgs { day_of_month: Some(31), ..plan };
    assert_eq!(check_recurring_plan_args(&plan, false), Ok(()));

    let entry = PlannedEntryArgs {
        name: "Luz".to_string(),
        flow_type: "expense".to_string(),
        category_id: ID_A.to_string(),
        account_expected_id: ID_A.to_string(),
        contact_id: None,
        project_id: Some("p".to_string()),
        due_date: "2024-01-01T00:00:00Z".to_string(),
        status: "planned".to_string(),
        recurring_plan_id: None,
    };
    assert_eq!(check_planned_entry_args(&entry, false), Err("project-id must be a 24-character ObjectId".to_string()));

    let tx = TransactionArgs {
        date: "ayer".to_string(),
        description: "Luz".to_string(),
        transaction_type: "expense".to_string(),
        category_id: ID_A.to_string(),
        account_from_id: None,
        account_to_id: None,
        planned_entry_id: None,
    };
    assert_eq!(check_transaction_args(&tx, false), Err("date must be RFC3339".to_string()));

    let f = ForecastArgs {
        currency: "MXN".to_string(),
        generated_at: "2024-01-01".to_string(),
        start_date: "2024-01-01".to_string(),
        end_date: "2024-12-31T00:00:00Z".to_string(),
        generated_by_user_id: None,
    };
    let (g, s, e) = check_forecast_args(&f).unwrap();
    assert_eq!((g.as_str(), s.as_str(), e.as_str()), ("2024-01-01T00:00:00Z", "2024-01-01T00:00:00Z", "2024-12-31T00:00:00Z"));

    assert_eq!(check_project_status_args(" "), Err("name is required".to_string()));
    assert_eq!(
        check_project_concept_args("Corte", false, &None),
        Err("quantity must be greater than zero".to_string())
    );
    assert_eq!(
        check_pay_args(ID_A, ID_A, &None, &None, false, "2024-01-01T00:00:00Z"),
        Ok("2024-01-01T00:00:00Z".to_string())
    );
    assert_eq!(
        check_bulk_pay_args(&vec![ID_A.to_string(), "x".to_string()], ID_A, &None, &None, "2024-01-01T00:00:00Z"),
        Err("entry-id must be a 24-character ObjectId".to_string())
    );
    assert_eq!(
        check_usage_times(false, "2024-01-01T08:00:00Z", &Some("tarde".to_string())),
        Err("ended-at must be RFC3339".to_string())
    );
    assert_eq!(
        check_delete(false, ID_A, "transaction"),
        Err("transaction delete is destructive; rerun with --yes to confirm".to_string())
    );
    assert_eq!(check_delete(true, ID_A, "transaction"), Ok(()));
}

#[test]
fn allocations_split_at_the_first_two_colons() {
    assert_eq!(
        split_allocation(&format!("{ID_A}:0.5:turno: noche")),
        Ok((ID_A.to_string(), "0.5".to_string(), Some("turno: noche".to_string())))
    );
    assert_eq!(split_allocation(&format!("{ID_A}:1")), Ok((ID_A.to_string(), "1".to_string(), None)));
    assert_eq!(split_allocation(ID_A), Err("allocation must be concept_id:ratio[:notes]".to_string()));
    assert_eq!(
        split_allocation("abc:1"),
        Err("allocation concept-id must be a 24-character ObjectId".to_string())
    );
}

#[test]
fn company_selection() {
    let companies = vec![
        CompanySummary { id: ID_A.to_string(), slug: "acme".to_string(), name: "Acme".to_string() },
        CompanySummary { id: "nope".to_string(), slug: "Norte".to_string(), name: "Norte".to_string() },
    ];
    assert!(same_ignoring_ascii_case("ACME", "acme"));
    assert!(!same_ignoring_ascii_case("acmé", "ACMÉ"));
    assert_eq!(find_company(&companies, "norte"), Some(1));
    let mut s = state();
    assert_eq!(
        use_company(&mut s, &companies, "sur"),
        Err("company 'sur' is not available to this user".to_string())
    );
    assert_eq!(s.company_slug, None);
    assert_eq!(use_company(&mut s, &companies, "ACME"), Ok(0));
    assert_eq!(s.company_slug.as_deref(), Some("acme"));
    assert_eq!(s.tenant_host.as_deref(), Some("acme.alfredo.dev"));
    assert_eq!(selected_company_id(&s, &companies), Ok(ID_A.to_string()));
    assert_eq!(company_marker("acme", &s.company_slug), "*");
    assert_eq!(company_marker("norte", &s.company_slug), " ");
    s.company_slug = Some("Norte".to_string());
    assert_eq!(
        selected_company_id(&s, &companies),
        Err("selected company id must be a 24-character ObjectId".to_string())
    );
    s.company_slug = None;
    assert_eq!(
        selected_company_id(&s, &companies),
        Err("company selection is required; run spcli company use <slug>".to_string())
    );
    clear_session(&mut s);
    assert_eq!(s.session_cookie, None);
    assert_eq!(s.email, "ana@alfredo.dev");
}

#[test]
fn replies_of_the_server() {
    assert!(needs_relogin(401) && !needs_relogin(403));
    assert_eq!(check_login_status(401, "401 Unauthorized"), Err("login failed".to_string()));
    assert_eq!(
        check_login_status(500, "500 Internal Server Error"),
        Err("login failed with status 500 Internal Server Error".to_string())
    );
    assert_eq!(check_login_status(200, "200 OK"), Ok(()));
    assert_eq!(check_logout_status(401, "401 Unauthorized"), Ok(()));
    assert!(check_logout_status(500, "500 Internal Server Error").is_err());
    assert_eq!(
        check_reply_status(404, "404 Not Found", "{}"),
        Err("request failed with status 404 Not Found: {}".to_string())
    );
    let mut s = state();
    assert_eq!(record_login(&mut s, false, "x".to_string(), "now".to_string()), Err("login failed".to_string()));
    assert_eq!(s.session_cookie.as_deref(), Some("tok"));
    assert_eq!(record_login(&mut s, true, "new".to_string(), "2024-01-01T00:00:00+00:00".to_string()), Ok(()));
    assert_eq!(s.session_cookie.as_deref(), Some("new"));
    assert_eq!(reply_summary("accounts", ReplyShape::List(3)), "accounts: 3");
    assert_eq!(reply_summary("account", ReplyShape::Fields(7)), "account fields: 7");
    assert_eq!(reply_summary("x", ReplyShape::Scalar), "x returned.");
    assert_eq!(created_summary("contact", None), "Created contact unknown");
    assert_eq!(
        check_typst_source(" \n".to_string()),
        Err("Typst source is required via --source, --input, or stdin".to_string())
    );
    assert_eq!(check_pdf_reply(Some(false), None, None), Err("PDF preview failed: unknown error".to_string()));
    assert_eq!(check_pdf_reply(Some(true), None, Some("QUJD")), Ok("QUJD".to_string()));
    assert_eq!(decode_pdf("QUJD"), Ok(b"ABC".to_vec()));
    assert!(decode_pdf("***").is_err());
    assert_eq!(preview_summary(4), "PDF preview succeeded (4 base64 bytes).");
}

#[test]
fn reset_auth_needs_confirmation_and_status_hides_the_otpauth_url() {
    assert_eq!(check_reset_auth(true), Ok(()));
    assert_eq!(
        check_reset_auth(false),
        Err("reset-auth removes stored credentials; rerun with --yes to confirm".to_string())
    );
    assert!(!shows_status_field("otpauth_url"));
    assert!(shows_status_field("email"));
    assert!(shows_status_field("otpauth"));
}
