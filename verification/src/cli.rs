//! Rules of the `spcli` command-line client: argument validation, error
//! classes and exit statuses, session cookies and tenant hosts.

use vstd::prelude::*;
use vstd::string::StrSliceExecFns;
use vstd::string::StringExecFns;
use crate::ids::{ObjectId, is_object_id_text, is_hex_char};
use crate::numbers::{nat_text, parse_i32, parse_i32_spec, push_nat};
use crate::text::{
    after_char, before_char, contains, contains_text, first_index_of, same_text, strip_prefix,
    to_lowercase, trim, trim_end_char, trim_end_char_spec, trim_spec, lowercase_text,
};

verus! {

/// A required argument must hold something besides whitespace.
pub fn validate_non_empty(value: &str, name: &str) -> (r: Result<(), String>)
    ensures
        r is Ok <==> trim_spec(value@).len() > 0,
        r matches Err(m) ==> m@ == name@ + " is required"@,
{
    if trim(value).unicode_len() == 0 {
        Err(String::from_str(name).concat(" is required"))
    } else {
        Ok(())
    }
}

/// An identifier argument must be 24 hex digits.
pub fn validate_object_id(value: &str, name: &str) -> (r: Result<(), String>)
    ensures
        r is Ok <==> is_object_id_text(value@),
        r matches Err(m) ==> m@ == name@ + " must be a 24-character ObjectId"@,
{
    let n = value.unicode_len();
    let mut ok = n == 24;
    if ok {
        let mut i: usize = 0;
        while i < 24
            invariant
                i <= 24,
                n == 24,
                n == value@.len(),
                ok == (forall|j: int| 0 <= j < i ==> is_hex_char(#[trigger] value@[j])),
            decreases 24 - i,
        {
            let c = value.get_char(i);
            if !(('0' <= c && c <= '9') || ('a' <= c && c <= 'f') || ('A' <= c && c <= 'F')) {
                ok = false;
            }
            i = i + 1;
        }
    }
    if ok {
        Ok(())
    } else {
        Err(String::from_str(name).concat(" must be a 24-character ObjectId"))
    }
}

/// An optional identifier argument, when given, must be 24 hex digits.
pub fn validate_optional_object_id(value: Option<&str>, name: &str) -> (r: Result<(), String>)
    ensures
        r is Ok <==> (value matches Some(v) ==> is_object_id_text(v@)),
        r matches Err(m) ==> m@ == name@ + " must be a 24-character ObjectId"@,
{
    if let Some(v) = value {
        validate_object_id(v, name)?;
    }
    Ok(())
}

pub fn validate_transaction_type(value: &str) -> (r: Result<(), String>)
    ensures
        r is Ok <==> (value@ == "income"@ || value@ == "expense"@ || value@ == "transfer"@),
        r matches Err(m) ==> m@ == "transaction-type must be one of: income, expense, transfer"@,
{
    if same_text(value, "income") || same_text(value, "expense") || same_text(value, "transfer") {
        Ok(())
    } else {
        Err(String::from_str("transaction-type must be one of: income, expense, transfer"))
    }
}

pub fn validate_flow_type(value: &str) -> (r: Result<(), String>)
    ensures
        r is Ok <==> (value@ == "income"@ || value@ == "expense"@),
        r matches Err(m) ==> m@ == "flow-type must be one of: income, expense"@,
{
    if same_text(value, "income") || same_text(value, "expense") {
        Ok(())
    } else {
        Err(String::from_str("flow-type must be one of: income, expense"))
    }
}

pub fn validate_frequency(value: &str) -> (r: Result<(), String>)
    ensures
        r is Ok <==> (value@ == "monthly"@ || value@ == "weekly"@),
        r matches Err(m) ==> m@ == "frequency must be one of: monthly, weekly"@,
{
    if same_text(value, "monthly") || same_text(value, "weekly") {
        Ok(())
    } else {
        Err(String::from_str("frequency must be one of: monthly, weekly"))
    }
}

pub fn validate_planned_status(value: &str) -> (r: Result<(), String>)
    ensures
        r is Ok <==> (value@ == "planned"@ || value@ == "partially_covered"@ || value@
            == "covered"@ || value@ == "overdue"@ || value@ == "cancelled"@),
        r matches Err(m) ==> m@
            == "status must be one of: planned, partially_covered, covered, overdue, cancelled"@,
{
    if same_text(value, "planned") || same_text(value, "partially_covered") || same_text(
        value,
        "covered",
    ) || same_text(value, "overdue") || same_text(value, "cancelled") {
        Ok(())
    } else {
        Err(
            String::from_str(
                "status must be one of: planned, partially_covered, covered, overdue, cancelled",
            ),
        )
    }
}

pub fn validate_timeline_mode(value: &str) -> (r: Result<(), String>)
    ensures
        r is Ok <==> (value@ == "day"@ || value@ == "week"@ || value@ == "month"@ || value@
            == "year"@),
        r matches Err(m) ==> m@ == "mode must be one of: day, week, month, year"@,
{
    if same_text(value, "day") || same_text(value, "week") || same_text(value, "month")
        || same_text(value, "year") {
        Ok(())
    } else {
        Err(String::from_str("mode must be one of: day, week, month, year"))
    }
}

/// Error class of a lower-cased error message, decided by the phrases it contains.
pub open spec fn classify_spec(m: Seq<char>) -> Seq<char> {
    if contains_text(m, "credential file not found"@) || contains_text(m, "missing session cookie"@) {
        "not_authenticated"@
    } else if contains_text(m, "login failed"@) {
        "invalid_credentials"@
    } else if contains_text(m, "unauthorized"@) || contains_text(m, "status 401"@) {
        "unauthorized"@
    } else if contains_text(m, "forbidden"@) || contains_text(m, "status 403"@) {
        "forbidden"@
    } else if contains_text(m, "not found"@) || contains_text(m, "status 404"@) {
        "not_found"@
    } else if contains_text(m, "conflict"@) || contains_text(m, "status 409"@) {
        "conflict"@
    } else if contains_text(m, "--yes"@) || contains_text(m, "confirm"@) {
        "confirmation_required"@
    } else if contains_text(m, "must be"@) || contains_text(m, "invalid"@) || contains_text(m, "required"@) || contains_text(m, "unsupported"@) {
        "validation_error"@
    } else if contains_text(m, "request failed"@) || contains_text(m, "network"@) {
        "network_error"@
    } else if contains_text(m, "status 5"@) || contains_text(m, "server"@) {
        "server_error"@
    } else {
        "spcli_error"@
    }
}

/// Classifies an already lower-cased message.
pub fn classify_lowered(m: &str) -> (code: &'static str)
    ensures
        code@ == classify_spec(m@),
{
    if contains(m, "credential file not found") || contains(m, "missing session cookie") {
        "not_authenticated"
    } else if contains(m, "login failed") {
        "invalid_credentials"
    } else if contains(m, "unauthorized") || contains(m, "status 401") {
        "unauthorized"
    } else if contains(m, "forbidden") || contains(m, "status 403") {
        "forbidden"
    } else if contains(m, "not found") || contains(m, "status 404") {
        "not_found"
    } else if contains(m, "conflict") || contains(m, "status 409") {
        "conflict"
    } else if contains(m, "--yes") || contains(m, "confirm") {
        "confirmation_required"
    } else if contains(m, "must be") || contains(m, "invalid") || contains(m, "required") || contains(m, "unsupported") {
        "validation_error"
    } else if contains(m, "request failed") || contains(m, "network") {
        "network_error"
    } else if contains(m, "status 5") || contains(m, "server") {
        "server_error"
    } else {
        "spcli_error"
    }
}

pub open spec fn exit_code_spec(code: Seq<char>) -> u8 {
    if code == "validation_error"@ || code == "confirmation_required"@ {
        2
    } else if code == "not_authenticated"@ || code == "unauthorized"@ || code == "invalid_credentials"@ {
        3
    } else if code == "forbidden"@ {
        4
    } else if code == "not_found"@ {
        5
    } else if code == "conflict"@ {
        6
    } else if code == "network_error"@ || code == "server_error"@ {
        7
    } else {
        1
    }
}

/// Process exit status for an error code.
pub fn exit_code(code: &str) -> (r: u8)
    ensures
        r == exit_code_spec(code@),
{
    if same_text(code, "validation_error") || same_text(code, "confirmation_required") {
        2
    } else if same_text(code, "not_authenticated") || same_text(code, "unauthorized") || same_text(code, "invalid_credentials") {
        3
    } else if same_text(code, "forbidden") {
        4
    } else if same_text(code, "not_found") {
        5
    } else if same_text(code, "conflict") {
        6
    } else if same_text(code, "network_error") || same_text(code, "server_error") {
        7
    } else {
        1
    }
}

/// Every error class has its own exit status, and only the catch-all class
/// exits with the generic status 1.
pub proof fn lemma_error_classes_exit_codes(m: Seq<char>)
    ensures
        exit_code_spec(classify_spec(m)) >= 1,
        exit_code_spec(classify_spec(m)) == 1 <==> classify_spec(m) == "spcli_error"@,
{
    reveal_strlit("not_authenticated");
    reveal_strlit("invalid_credentials");
    reveal_strlit("unauthorized");
    reveal_strlit("forbidden");
    reveal_strlit("not_found");
    reveal_strlit("conflict");
    reveal_strlit("confirmation_required");
    reveal_strlit("validation_error");
    reveal_strlit("network_error");
    reveal_strlit("server_error");
    reveal_strlit("spcli_error");
    assert("not_authenticated"@.len() != "invalid_credentials"@.len());
    assert("not_authenticated"@.len() != "unauthorized"@.len());
    assert("not_authenticated"@.len() != "forbidden"@.len());
    assert("not_authenticated"@.len() != "not_found"@.len());
    assert("not_authenticated"@.len() != "conflict"@.len());
    assert("not_authenticated"@.len() != "confirmation_required"@.len());
    assert("not_authenticated"@.len() != "validation_error"@.len());
    assert("not_authenticated"@.len() != "network_error"@.len());
    assert("not_authenticated"@.len() != "server_error"@.len());
    assert("not_authenticated"@.len() != "spcli_error"@.len());
    assert("invalid_credentials"@.len() != "unauthorized"@.len());
    assert("invalid_credentials"@.len() != "forbidden"@.len());
    assert("invalid_credentials"@.len() != "not_found"@.len());
    assert("invalid_credentials"@.len() != "conflict"@.len());
    assert("invalid_credentials"@.len() != "confirmation_required"@.len());
    assert("invalid_credentials"@.len() != "validation_error"@.len());
    assert("invalid_credentials"@.len() != "network_error"@.len());
    assert("invalid_credentials"@.len() != "server_error"@.len());
    assert("invalid_credentials"@.len() != "spcli_error"@.len());
    assert("unauthorized"@.len() != "forbidden"@.len());
    assert("unauthorized"@.len() != "not_found"@.len());
    assert("unauthorized"@.len() != "conflict"@.len());
    assert("unauthorized"@.len() != "confirmation_required"@.len());
    assert("unauthorized"@.len() != "validation_error"@.len());
    assert("unauthorized"@.len() != "network_error"@.len());
    assert("unauthorized"@[0] != "server_error"@[0]);
    assert("unauthorized"@.len() != "spcli_error"@.len());
    assert("forbidden"@[0] != "not_found"@[0]);
    assert("forbidden"@.len() != "conflict"@.len());
    assert("forbidden"@.len() != "confirmation_required"@.len());
    assert("forbidden"@.len() != "validation_error"@.len());
    assert("forbidden"@.len() != "network_error"@.len());
    assert("forbidden"@.len() != "server_error"@.len());
    assert("forbidden"@.len() != "spcli_error"@.len());
    assert("not_found"@.len() != "conflict"@.len());
    assert("not_found"@.len() != "confirmation_required"@.len());
    assert("not_found"@.len() != "validation_error"@.len());
    assert("not_found"@.len() != "network_error"@.len());
    assert("not_found"@.len() != "server_error"@.len());
    assert("not_found"@.len() != "spcli_error"@.len());
    assert("conflict"@.len() != "confirmation_required"@.len());
    assert("conflict"@.len() != "validation_error"@.len());
    assert("conflict"@.len() != "network_error"@.len());
    assert("conflict"@.len() != "server_error"@.len());
    assert("conflict"@.len() != "spcli_error"@.len());
    assert("confirmation_required"@.len() != "validation_error"@.len());
    assert("confirmation_required"@.len() != "network_error"@.len());
    assert("confirmation_required"@.len() != "server_error"@.len());
    assert("confirmation_required"@.len() != "spcli_error"@.len());
    assert("validation_error"@.len() != "network_error"@.len());
    assert("validation_error"@.len() != "server_error"@.len());
    assert("validation_error"@.len() != "spcli_error"@.len());
    assert("network_error"@.len() != "server_error"@.len());
    assert("network_error"@.len() != "spcli_error"@.len());
    assert("server_error"@.len() != "spcli_error"@.len());
}

/// How a lower-cased error message is classified, phrase by phrase, and the
/// exit status of each class: "credential file not found" or "missing session
/// cookie" is `not_authenticated` (3); "login failed" is `invalid_credentials`
/// (3); "unauthorized" or "status 401" is `unauthorized` (3); "forbidden" or
/// "status 403" is `forbidden` (4); "not found" or "status 404" is `not_found`
/// (5); "conflict" or "status 409" is `conflict` (6); "--yes" or "confirm" is
/// `confirmation_required` (2); "must be", "invalid", "required" or
/// "unsupported" is `validation_error` (2); "request failed" or "network" is
/// `network_error` (7); "status 5" or "server" is `server_error` (7); anything
/// else is `spcli_error` (1). A phrase of an earlier class wins.
pub proof fn lemma_error_class_by_phrase(m: Seq<char>)
    ensures
        ((contains_text(m, "credential file not found"@) || contains_text(m, "missing session cookie"@)))
            ==> classify_spec(m) == "not_authenticated"@ && exit_code_spec(classify_spec(m)) == 3,
        (!contains_text(m, "credential file not found"@)
            && !contains_text(m, "missing session cookie"@)
            && (contains_text(m, "login failed"@)))
            ==> classify_spec(m) == "invalid_credentials"@ && exit_code_spec(classify_spec(m)) == 3,
        (!contains_text(m, "credential file not found"@)
            && !contains_text(m, "missing session cookie"@)
            && !contains_text(m, "login failed"@)
            && (contains_text(m, "unauthorized"@) || contains_text(m, "status 401"@)))
            ==> classify_spec(m) == "unauthorized"@ && exit_code_spec(classify_spec(m)) == 3,
        (!contains_text(m, "credential file not found"@)
            && !contains_text(m, "missing session cookie"@)
            && !contains_text(m, "login failed"@)
            && !contains_text(m, "unauthorized"@)
            && !contains_text(m, "status 401"@)
            && (contains_text(m, "forbidden"@) || contains_text(m, "status 403"@)))
            ==> classify_spec(m) == "forbidden"@ && exit_code_spec(classify_spec(m)) == 4,
        (!contains_text(m, "credential file not found"@)
            && !contains_text(m, "missing session cookie"@)
            && !contains_text(m, "login failed"@)
            && !contains_text(m, "unauthorized"@)
            && !contains_text(m, "status 401"@)
            && !contains_text(m, "forbidden"@)
            && !contains_text(m, "status 403"@)
            && (contains_text(m, "not found"@) || contains_text(m, "status 404"@)))
            ==> classify_spec(m) == "not_found"@ && exit_code_spec(classify_spec(m)) == 5,
        (!contains_text(m, "credential file not found"@)
            && !contains_text(m, "missing session cookie"@)
            && !contains_text(m, "login failed"@)
            && !contains_text(m, "unauthorized"@)
            && !contains_text(m, "status 401"@)
            && !contains_text(m, "forbidden"@)
            && !contains_text(m, "status 403"@)
            && !contains_text(m, "not found"@)
            && !contains_text(m, "status 404"@)
            && (contains_text(m, "conflict"@) || contains_text(m, "status 409"@)))
            ==> classify_spec(m) == "conflict"@ && exit_code_spec(classify_spec(m)) == 6,
        (!contains_text(m, "credential file not found"@)
            && !contains_text(m, "missing session cookie"@)
            && !contains_text(m, "login failed"@)
            && !contains_text(m, "unauthorized"@)
            && !contains_text(m, "status 401"@)
            && !contains_text(m, "forbidden"@)
            && !contains_text(m, "status 403"@)
            && !contains_text(m, "not found"@)
            && !contains_text(m, "status 404"@)
            && !contains_text(m, "conflict"@)
            && !contains_text(m, "status 409"@)
            && (contains_text(m, "--yes"@) || contains_text(m, "confirm"@)))
            ==> classify_spec(m) == "confirmation_required"@ && exit_code_spec(classify_spec(m)) == 2,
        (!contains_text(m, "credential file not found"@)
            && !contains_text(m, "missing session cookie"@)
            && !contains_text(m, "login failed"@)
            && !contains_text(m, "unauthorized"@)
            && !contains_text(m, "status 401"@)
            && !contains_text(m, "forbidden"@)
            && !contains_text(m, "status 403"@)
            && !contains_text(m, "not found"@)
            && !contains_text(m, "status 404"@)
            && !contains_text(m, "conflict"@)
            && !contains_text(m, "status 409"@)
            && !contains_text(m, "--yes"@)
            && !contains_text(m, "confirm"@)
            && (contains_text(m, "must be"@) || contains_text(m, "invalid"@) || contains_text(m, "required"@) || contains_text(m, "unsupported"@)))
            ==> classify_spec(m) == "validation_error"@ && exit_code_spec(classify_spec(m)) == 2,
        (!contains_text(m, "credential file not found"@)
            && !contains_text(m, "missing session cookie"@)
            && !contains_text(m, "login failed"@)
            && !contains_text(m, "unauthorized"@)
            && !contains_text(m, "status 401"@)
            && !contains_text(m, "forbidden"@)
            && !contains_text(m, "status 403"@)
            && !contains_text(m, "not found"@)
            && !contains_text(m, "status 404"@)
            && !contains_text(m, "conflict"@)
            && !contains_text(m, "status 409"@)
            && !contains_text(m, "--yes"@)
            && !contains_text(m, "confirm"@)
            && !contains_text(m, "must be"@)
            && !contains_text(m, "invalid"@)
            && !contains_text(m, "required"@)
            && !contains_text(m, "unsupported"@)
            && (contains_text(m, "request failed"@) || contains_text(m, "network"@)))
            ==> classify_spec(m) == "network_error"@ && exit_code_spec(classify_spec(m)) == 7,
        (!contains_text(m, "credential file not found"@)
            && !contains_text(m, "missing session cookie"@)
            && !contains_text(m, "login failed"@)
            && !contains_text(m, "unauthorized"@)
            && !contains_text(m, "status 401"@)
            && !contains_text(m, "forbidden"@)
            && !contains_text(m, "status 403"@)
            && !contains_text(m, "not found"@)
            && !contains_text(m, "status 404"@)
            && !contains_text(m, "conflict"@)
            && !contains_text(m, "status 409"@)
            && !contains_text(m, "--yes"@)
            && !contains_text(m, "confirm"@)
            && !contains_text(m, "must be"@)
            && !contains_text(m, "invalid"@)
            && !contains_text(m, "required"@)
            && !contains_text(m, "unsupported"@)
            && !contains_text(m, "request failed"@)
            && !contains_text(m, "network"@)
            && (contains_text(m, "status 5"@) || contains_text(m, "server"@)))
            ==> classify_spec(m) == "server_error"@ && exit_code_spec(classify_spec(m)) == 7,
        (!contains_text(m, "credential file not found"@) && !contains_text(m, "missing session cookie"@) && !contains_text(m, "login failed"@) && !contains_text(m, "unauthorized"@) && !contains_text(m, "status 401"@) && !contains_text(m, "forbidden"@) && !contains_text(m, "status 403"@) && !contains_text(m, "not found"@) && !contains_text(m, "status 404"@) && !contains_text(m, "conflict"@) && !contains_text(m, "status 409"@) && !contains_text(m, "--yes"@) && !contains_text(m, "confirm"@) && !contains_text(m, "must be"@) && !contains_text(m, "invalid"@) && !contains_text(m, "required"@) && !contains_text(m, "unsupported"@) && !contains_text(m, "request failed"@) && !contains_text(m, "network"@) && !contains_text(m, "status 5"@) && !contains_text(m, "server"@))
            ==> classify_spec(m) == "spcli_error"@ && exit_code_spec(classify_spec(m)) == 1,
{
    lemma_error_classes_exit_codes(m);
    reveal_strlit("not_authenticated");
    reveal_strlit("invalid_credentials");
    reveal_strlit("unauthorized");
    reveal_strlit("forbidden");
    reveal_strlit("not_found");
    reveal_strlit("conflict");
    reveal_strlit("confirmation_required");
    reveal_strlit("validation_error");
    reveal_strlit("network_error");
    reveal_strlit("server_error");
    reveal_strlit("spcli_error");
    assert("not_authenticated"@.len() != "validation_error"@.len());
    assert("not_authenticated"@.len() != "confirmation_required"@.len());
    assert("invalid_credentials"@.len() != "validation_error"@.len());
    assert("invalid_credentials"@.len() != "confirmation_required"@.len());
    assert("invalid_credentials"@.len() != "not_authenticated"@.len());
    assert("invalid_credentials"@.len() != "unauthorized"@.len());
    assert("unauthorized"@.len() != "validation_error"@.len());
    assert("unauthorized"@.len() != "confirmation_required"@.len());
    assert("unauthorized"@.len() != "not_authenticated"@.len());
    assert("forbidden"@.len() != "validation_error"@.len());
    assert("forbidden"@.len() != "confirmation_required"@.len());
    assert("forbidden"@.len() != "not_authenticated"@.len());
    assert("forbidden"@.len() != "unauthorized"@.len());
    assert("forbidden"@.len() != "invalid_credentials"@.len());
    assert("not_found"@.len() != "validation_error"@.len());
    assert("not_found"@.len() != "confirmation_required"@.len());
    assert("not_found"@.len() != "not_authenticated"@.len());
    assert("not_found"@.len() != "unauthorized"@.len());
    assert("not_found"@.len() != "invalid_credentials"@.len());
    assert("not_found"@[0] != "forbidden"@[0]);
    assert("conflict"@.len() != "validation_error"@.len());
    assert("conflict"@.len() != "confirmation_required"@.len());
    assert("conflict"@.len() != "not_authenticated"@.len());
    assert("conflict"@.len() != "unauthorized"@.len());
    assert("conflict"@.len() != "invalid_credentials"@.len());
    assert("conflict"@.len() != "forbidden"@.len());
    assert("conflict"@.len() != "not_found"@.len());
    assert("network_error"@.len() != "validation_error"@.len());
    assert("network_error"@.len() != "confirmation_required"@.len());
    assert("network_error"@.len() != "not_authenticated"@.len());
    assert("network_error"@.len() != "unauthorized"@.len());
    assert("network_error"@.len() != "invalid_credentials"@.len());
    assert("network_error"@.len() != "forbidden"@.len());
    assert("network_error"@.len() != "not_found"@.len());
    assert("network_error"@.len() != "conflict"@.len());
    assert("server_error"@.len() != "validation_error"@.len());
    assert("server_error"@.len() != "confirmation_required"@.len());
    assert("server_error"@.len() != "not_authenticated"@.len());
    assert("server_error"@[0] != "unauthorized"@[0]);
    assert("server_error"@.len() != "invalid_credentials"@.len());
    assert("server_error"@.len() != "forbidden"@.len());
    assert("server_error"@.len() != "not_found"@.len());
    assert("server_error"@.len() != "conflict"@.len());
}

/// Error class of an error message: the message is lower-cased first.
pub fn classify_error(message: &str) -> (code: &'static str)
    ensures
        code@ == classify_spec(lowercase_text(message@)),
{
    let lowered = to_lowercase(message);
    classify_lowered(lowered.as_str())
}

/// The client's stored session and login data.
#[derive(Debug, Clone)]
pub struct CredentialState {
    pub base_url: String,
    pub email: String,
    pub totp_secret: String,
    pub session_cookie: Option<String>,
    pub company_slug: Option<String>,
    pub tenant_host: Option<String>,
    pub last_login_at: Option<String>,
}

/// The `Cookie` header value that carries the stored session.
pub fn session_cookie_header(state: &CredentialState) -> (r: Result<String, String>)
    ensures
        state.session_cookie is None ==> (r matches Err(m) && m@ == "missing session cookie"@),
        state.session_cookie matches Some(c) ==> (r matches Ok(h) && h@ == "session="@ + c@),
{
    match &state.session_cookie {
        Some(c) => Ok(String::from_str("session=").concat(c.as_str())),
        None => Err(String::from_str("missing session cookie")),
    }
}

/// The session token of a login response: the first `Set-Cookie` value that
/// starts with `session=` and has a non-blank token before any `;`. A value
/// that is not visible ASCII text (`None`) stops the search with an error.
pub open spec fn session_cookie_spec(values: Seq<Option<Seq<char>>>) -> Result<Seq<char>, Seq<char>>
    decreases values.len(),
{
    if values.len() == 0 {
        Err("login response did not include a session cookie"@)
    } else {
        match values[0] {
            None => Err("invalid Set-Cookie header"@),
            Some(v) => {
                let p = "session="@;
                if p.is_prefix_of(v) {
                    let rest = v.subrange(p.len() as int, v.len() as int);
                    let token = trim_spec(rest.subrange(0, first_index_of(rest, ';')));
                    if token.len() > 0 {
                        Ok(token)
                    } else {
                        session_cookie_spec(values.drop_first())
                    }
                } else {
                    session_cookie_spec(values.drop_first())
                }
            },
        }
    }
}

pub open spec fn opt_str_view(o: Option<String>) -> Option<Seq<char>> {
    match o {
        Some(s) => Some(s@),
        None => None,
    }
}

pub open spec fn result_view(r: Result<String, String>) -> Result<Seq<char>, Seq<char>> {
    match r {
        Ok(s) => Ok(s@),
        Err(e) => Err(e@),
    }
}

/// Finds the session token among the `Set-Cookie` values of a login response.
pub fn extract_session_cookie(values: &Vec<Option<String>>) -> (r: Result<String, String>)
    ensures
        result_view(r) == session_cookie_spec(values@.map_values(|o: Option<String>| opt_str_view(o))),
{
    let ghost all = values@.map_values(|o: Option<String>| opt_str_view(o));
    assert(all.subrange(0, all.len() as int) =~= all);
    let mut i: usize = 0;
    while i < values.len()
        invariant
            i <= values@.len(),
            all == values@.map_values(|o: Option<String>| opt_str_view(o)),
            session_cookie_spec(all) == session_cookie_spec(all.subrange(i as int, all.len() as int)),
        decreases values.len() - i,
    {
        let ghost rest = all.subrange(i as int, all.len() as int);
        proof {
            assert(rest[0] == opt_str_view(values@[i as int]));
            assert(rest.drop_first() =~= all.subrange(i + 1, all.len() as int));
            reveal_strlit("session=");
        }
        match &values[i] {
            None => {
                return Err(String::from_str("invalid Set-Cookie header"));
            },
            Some(cookie) => {
                if let Some(rest_str) = strip_prefix(cookie.as_str(), "session=") {
                    let token = trim(before_char(rest_str, ';'));
                    if token.unicode_len() > 0 {
                        return Ok(String::from_str(token));
                    }
                }
            },
        }
        i = i + 1;
    }
    proof {
        assert(all.subrange(i as int, all.len() as int) =~= Seq::<Option<Seq<char>>>::empty());
    }
    Err(String::from_str("login response did not include a session cookie"))
}

/// Parts of a URL the client reads: scheme, host (if any) and explicit
/// non-default port (if any).
#[derive(Debug, Clone)]
pub struct UrlParts {
    pub scheme: String,
    pub host: Option<String>,
    pub port: Option<u16>,
}

/// What the URL parser reads from a text, as (scheme, host, port).
pub uninterp spec fn url_parts_of(s: Seq<char>) -> Option<(Seq<char>, Option<Seq<char>>, Option<u16>)>;

pub open spec fn url_parts_view(p: UrlParts) -> (Seq<char>, Option<Seq<char>>, Option<u16>) {
    (p.scheme@, opt_str_view(p.host), p.port)
}

/// Calls `reqwest::Url::parse` and reads `scheme()`, `host_str()` and
/// `port()`. What the WHATWG URL parser accepts and returns is named.
#[verifier::external_body]
fn parse_url(s: &str) -> (r: Option<UrlParts>)
    ensures
        match url_parts_of(s@) {
            Some(v) => (r matches Some(p) && url_parts_view(p) == v),
            None => r is None,
        },
{
    let url = reqwest::Url::parse(s).ok()?;
    Some(
        UrlParts {
            scheme: url.scheme().to_string(),
            host: url.host_str().map(|h| h.to_string()),
            port: url.port(),
        },
    )
}

/// The base URL as stored: trimmed and without trailing slashes.
pub open spec fn trimmed_base(base_url: Seq<char>) -> Seq<char> {
    trim_end_char_spec(trim_spec(base_url), '/')
}

/// A base URL is accepted when it is not empty, parses, and uses http or https.
pub open spec fn normalize_base_url_spec(base_url: Seq<char>) -> Result<Seq<char>, Seq<char>> {
    let t = trimmed_base(base_url);
    if t.len() == 0 {
        Err("base URL cannot be empty"@)
    } else {
        match url_parts_of(t) {
            None => Err("base URL is invalid"@),
            Some(p) => if p.0 == "http"@ || p.0 == "https"@ {
                Ok(t)
            } else {
                Err("unsupported URL scheme '"@ + p.0 + "'"@)
            },
        }
    }
}

pub fn normalize_base_url(base_url: &str) -> (r: Result<String, String>)
    ensures
        result_view(r) == normalize_base_url_spec(base_url@),
        r is Ok <==> trimmed_base(base_url@).len() > 0 && url_parts_of(trimmed_base(base_url@)) is Some
            && ((url_parts_of(trimmed_base(base_url@))->0).0 == "http"@ || (url_parts_of(trimmed_base(base_url@))->0).0 == "https"@),
        r matches Ok(b) ==> b@ == trim_end_char_spec(trim_spec(base_url@), '/'),
        trimmed_base(base_url@).len() == 0 ==> (r matches Err(m) && m@ == "base URL cannot be empty"@),
{
    let trimmed = trim_end_char(trim(base_url), '/');
    if trimmed.unicode_len() == 0 {
        return Err(String::from_str("base URL cannot be empty"));
    }
    match parse_url(trimmed) {
        None => Err(String::from_str("base URL is invalid")),
        Some(url) => {
            if same_text(url.scheme.as_str(), "http") || same_text(url.scheme.as_str(), "https") {
                Ok(String::from_str(trimmed))
            } else {
                let mut m = String::from_str("unsupported URL scheme '");
                m.append(url.scheme.as_str());
                m.append("'");
                Err(m)
            }
        },
    }
}

/// Full URL of an API path under a base URL.
pub fn endpoint(base_url: &str, path: &str) -> (r: Result<String, String>)
    ensures
        match normalize_base_url_spec(base_url@) {
            Ok(b) => (r matches Ok(u) && u@ == b + path@),
            Err(e) => (r matches Err(m) && m@ == e),
        },
{
    let base = normalize_base_url(base_url)?;
    Ok(base.concat(path))
}

/// `host` or `host:port` text.
pub open spec fn host_port_text(host: Seq<char>, port: Option<u16>) -> Seq<char> {
    match port {
        Some(p) => host + ":"@ + nat_text(p as nat),
        None => host,
    }
}

/// The `Host` header a base URL is reached with.
pub open spec fn base_host_spec(base_url: Seq<char>) -> Result<Seq<char>, Seq<char>> {
    match url_parts_of(base_url) {
        None => Err("base URL is invalid"@),
        Some(p) => match p.1 {
            None => Err("base URL has no host"@),
            Some(h) => Ok(host_port_text(h, p.2)),
        },
    }
}

fn push_port(out: &mut String, port: Option<u16>, ghost_host: Ghost<Seq<char>>)
    requires
        old(out)@ == ghost_host@,
    ensures
        final(out)@ == host_port_text(ghost_host@, port),
{
    if let Some(p) = port {
        out.append(":");
        push_nat(out, p as u64);
    }
}

pub fn base_host(base_url: &str) -> (r: Result<String, String>)
    ensures
        result_view(r) == base_host_spec(base_url@),
{
    let url = match parse_url(base_url) {
        Some(u) => u,
        None => return Err(String::from_str("base URL is invalid")),
    };
    let host = match &url.host {
        Some(h) => h,
        None => return Err(String::from_str("base URL has no host")),
    };
    let mut out = String::from_str(host.as_str());
    push_port(&mut out, url.port, Ghost(host@));
    Ok(out)
}

/// The host of a company's own subdomain: the company slug in front of the
/// base host, with a leading `app.` of the base host dropped.
pub open spec fn tenant_host_spec(base_url: Seq<char>, slug: Seq<char>) -> Result<Seq<char>, Seq<char>> {
    match url_parts_of(base_url) {
        None => Err("base URL is invalid"@),
        Some(p) => match p.1 {
            None => Err("base URL has no host"@),
            Some(h) => {
                let root = if "app."@.is_prefix_of(h) {
                    h.subrange(4, h.len() as int)
                } else {
                    h
                };
                Ok(host_port_text(slug + "."@ + root, p.2))
            },
        },
    }
}

pub fn derive_tenant_host(base_url: &str, slug: &str) -> (r: Result<String, String>)
    ensures
        result_view(r) == tenant_host_spec(base_url@, slug@),
        r is Ok <==> url_parts_of(base_url@) is Some && (url_parts_of(base_url@)->0).1 is Some,
        r matches Ok(t) ==> (slug@ + "."@).is_prefix_of(t@),
        url_parts_of(base_url@) matches Some(p) ==> (p.1 matches Some(h) ==> (p.2 is None ==> !"app."@.is_prefix_of(h)
            ==> (r matches Ok(t) && t@ == slug@ + "."@ + h))),
        url_parts_of(base_url@) matches Some(p) ==> (p.1 matches Some(h) ==> (p.2 is None ==> "app."@.is_prefix_of(h)
            ==> (r matches Ok(t) && t@ == slug@ + "."@ + h.subrange(4, h.len() as int)))),
{
    let url = match parse_url(base_url) {
        Some(u) => u,
        None => return Err(String::from_str("base URL is invalid")),
    };
    let host = match &url.host {
        Some(h) => h,
        None => return Err(String::from_str("base URL has no host")),
    };
    proof {
        reveal_strlit("app.");
    }
    let root = match strip_prefix(host.as_str(), "app.") {
        Some(r) => r,
        None => host.as_str(),
    };
    let mut tenant = String::from_str(slug);
    tenant.append(".");
    tenant.append(root);
    let ghost t = tenant@;
    push_port(&mut tenant, url.port, Ghost(t));
    Ok(tenant)
}

/// The host requests go to: the selected company's host, else the base host.
pub fn request_host(state: &CredentialState) -> (r: Option<String>)
    ensures
        state.tenant_host matches Some(t) ==> (r matches Some(h) && h@ == t@),
        state.tenant_host is None ==> match base_host_spec(state.base_url@) {
            Ok(h) => (r matches Some(x) && x@ == h),
            Err(_) => r is None,
        },
{
    match &state.tenant_host {
        Some(t) => Some(t.clone()),
        None => match base_host(state.base_url.as_str()) {
            Ok(h) => Some(h),
            Err(_) => None,
        },
    }
}

/// The port of a `host:port` text under the `u16` grammar: optional `+`, digits, at most 65535.
pub open spec fn parse_u16_spec(s: Seq<char>) -> Option<u16> {
    if s.len() > 0 && s[0] == '-' {
        None
    } else {
        match parse_i32_spec(s) {
            Some(v) => if 0 <= v && v <= 65535 {
                Some(v as u16)
            } else {
                None
            },
            None => None,
        }
    }
}

pub fn parse_u16(s: &str) -> (r: Option<u16>)
    ensures
        r == parse_u16_spec(s@),
{
    if s.unicode_len() > 0 && s.get_char(0) == '-' {
        return None;
    }
    match parse_i32(s) {
        Some(v) => if 0 <= v && v <= 65535 {
            Some(v as u16)
        } else {
            None
        },
        None => None,
    }
}

/// How the URL library rebuilds a base URL with another host and port.
pub uninterp spec fn url_with_host_port(base: Seq<char>, host: Seq<char>, port: Option<u16>) -> Result<Seq<char>, u8>;

/// Calls `reqwest::Url::parse(base)`, then `set_host(Some(host))` and
/// `set_port(port)`, and returns `as_str()`; the error tells the failing step
/// (0: parse, 1: host, 2: port). The result is named.
#[verifier::external_body]
fn rebase_url(base: &str, host: &str, port: Option<u16>) -> (r: Result<String, u8>)
    ensures
        match url_with_host_port(base@, host@, port) {
            Ok(s) => (r matches Ok(x) && x@ == s),
            Err(e) => r == Err::<String, u8>(e),
        },
{
    let mut url = reqwest::Url::parse(base).map_err(|_| 0u8)?;
    url.set_host(Some(host)).map_err(|_| 1u8)?;
    url.set_port(port).map_err(|_| 2u8)?;
    Ok(url.as_str().to_string())
}

/// The base URL requests are sent to: the stored base URL with the request
/// host (and its port, if it names one) swapped in, without a trailing slash.
pub fn request_base_url(state: &CredentialState) -> (r: Result<String, String>)
    ensures
        result_view(r) == request_base_url_spec(state),
{
    let host = match request_host(state) {
        Some(h) => h,
        None => return Err(String::from_str("request host is unavailable")),
    };
    let (host_no_port, port) = match after_char(host.as_str(), ':') {
        Some(p) => (before_char(host.as_str(), ':'), parse_u16(p)),
        None => {
            assert(host@.subrange(0, first_index_of(host@, ':')) =~= host@);
            (host.as_str(), None)
        },
    };
    match rebase_url(state.base_url.as_str(), host_no_port, port) {
        Ok(u) => Ok(String::from_str(trim_end_char(u.as_str(), '/'))),
        Err(0) => Err(String::from_str("base URL is invalid")),
        Err(1) => Err(String::from_str("failed to set request host")),
        Err(_) => Err(String::from_str("failed to set request port")),
    }
}

/// The host requests go to, as a spec.
pub open spec fn request_host_spec(state: &CredentialState) -> Option<Seq<char>> {
    match state.tenant_host {
        Some(t) => Some(t@),
        None => match base_host_spec(state.base_url@) {
            Ok(h) => Some(h),
            Err(_) => None,
        },
    }
}

pub open spec fn request_base_url_spec(state: &CredentialState) -> Result<Seq<char>, Seq<char>> {
    match request_host_spec(state) {
        None => Err("request host is unavailable"@),
        Some(h) => {
            let k = first_index_of(h, ':');
            let host_no_port = h.subrange(0, k);
            let port = if k < h.len() {
                parse_u16_spec(h.subrange(k + 1, h.len() as int))
            } else {
                None
            };
            match url_with_host_port(state.base_url@, host_no_port, port) {
                Ok(u) => Ok(trim_end_char_spec(u, '/')),
                Err(e) => if e == 0 {
                    Err("base URL is invalid"@)
                } else if e == 1 {
                    Err("failed to set request host"@)
                } else {
                    Err("failed to set request port"@)
                },
            }
        },
    }
}

} // verus!
