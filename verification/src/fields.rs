//! Field parsers shared by the finance forms and JSON endpoints: record
//! identifiers and RFC 3339 instants (kept as milliseconds since the epoch).

use vstd::prelude::*;
use vstd::string::StrSliceExecFns;
use vstd::string::StringExecFns;
use crate::access::RequestError;
use crate::ids::{ObjectId, is_object_id_text, object_id_bytes, hex_text};
use crate::text::{trim, trim_spec, clean_opt, clean_opt_spec, opt_view, err_view, lemma_trim_idempotent};

verus! {

/// What a required identifier field yields: its 12 bytes, or `{label} inválido`.
pub open spec fn id_field_spec(value: Seq<char>, label: Seq<char>) -> Result<Seq<u8>, Seq<char>> {
    if is_object_id_text(value) {
        Ok(object_id_bytes(value))
    } else {
        Err(label + " inválido"@)
    }
}

/// What an optional identifier field yields: blank is absent.
pub open spec fn opt_id_field_spec(value: Option<Seq<char>>, label: Seq<char>) -> Result<Option<Seq<u8>>, Seq<char>> {
    match clean_opt_spec(value) {
        None => Ok(None),
        Some(t) => if is_object_id_text(t) {
            Ok(Some(object_id_bytes(t)))
        } else {
            Err(label + " inválido"@)
        },
    }
}

pub open spec fn id_result_view(r: Result<ObjectId, String>) -> Result<Seq<u8>, Seq<char>> {
    match r {
        Ok(id) => Ok(id.bytes@),
        Err(m) => Err(m@),
    }
}

pub open spec fn opt_id_result_view(r: Result<Option<ObjectId>, String>) -> Result<Option<Seq<u8>>, Seq<char>> {
    match r {
        Ok(o) => Ok(opt_id_view(o)),
        Err(m) => Err(m@),
    }
}

/// A required identifier field.
pub fn parse_object_id(value: &str, label: &str) -> (r: Result<ObjectId, String>)
    ensures
        id_result_view(r) == id_field_spec(value@, label@),
        is_object_id_text(value@) ==> (r matches Ok(id) && id.bytes@ == object_id_bytes(value@)),
        !is_object_id_text(value@) ==> (r matches Err(m) && m@ == label@ + " inválido"@),
{
    match ObjectId::parse_str(value) {
        Some(id) => Ok(id),
        None => Err(String::from_str(label).concat(" inválido")),
    }
}

pub open spec fn opt_id_view(o: Option<ObjectId>) -> Option<Seq<u8>> {
    match o {
        Some(id) => Some(id.bytes@),
        None => None,
    }
}

/// An optional identifier: blank means absent; anything else must be an identifier.
pub open spec fn optional_id_spec(value: Option<Seq<char>>) -> Option<Option<Seq<u8>>> {
    match clean_opt_spec(value) {
        None => Some(None),
        Some(t) => if is_object_id_text(t) {
            Some(Some(object_id_bytes(t)))
        } else {
            None
        },
    }
}

/// Optional identifier of the planned-entry and recurring-plan endpoints.
pub fn parse_optional_object_id(value: Option<String>) -> (r: Result<Option<ObjectId>, RequestError>)
    ensures
        match optional_id_spec(opt_view(value)) {
            Some(o) => (r matches Ok(x) && opt_id_view(x) == o),
            None => r == Err::<Option<ObjectId>, RequestError>(RequestError::BadRequest),
        },
{
    match clean_opt(value) {
        Some(v) => match ObjectId::parse_str(v.as_str()) {
            Some(id) => Ok(Some(id)),
            None => Err(RequestError::BadRequest),
        },
        None => Ok(None),
    }
}

/// An optional identifier field: blank is absent, anything else must be an identifier.
pub fn parse_optional_id_field(value: Option<String>, label: &str) -> (r: Result<Option<ObjectId>, String>)
    ensures
        opt_id_result_view(r) == opt_id_field_spec(opt_view(value), label@),
{
    let ghost orig = opt_view(value);
    match clean_opt(value) {
        Some(v) => match parse_object_id(v.as_str(), label) {
            Ok(id) => Ok(Some(id)),
            Err(m) => Err(m),
        },
        None => Ok(None),
    }
}

/// Optional identifier of the transaction endpoints, reported as `id inválido`.
pub fn parse_optional_object_id_field(value: Option<String>) -> (r: Result<Option<ObjectId>, String>)
    ensures
        match optional_id_spec(opt_view(value)) {
            Some(o) => (r matches Ok(x) && opt_id_view(x) == o),
            None => (r matches Err(m) && m@ == "id inválido"@),
        },
{
    match clean_opt(value) {
        Some(v) => match parse_object_id(v.as_str(), "id") {
            Ok(id) => Ok(Some(id)),
            Err(m) => {
                proof {
                    reveal_strlit("id");
                    reveal_strlit(" inválido");
                    reveal_strlit("id inválido");
                    assert(m@ =~= "id inválido"@);
                }
                Err(m)
            },
        },
        None => Ok(None),
    }
}

/// Hex text of an optional identifier.
pub fn opt_to_string(opt: &Option<ObjectId>) -> (r: Option<String>)
    ensures
        opt matches Some(id) ==> (r matches Some(s) && s@ == hex_text(id.bytes@)),
        opt is None ==> r is None,
{
    match opt {
        Some(o) => Some(o.to_hex()),
        None => None,
    }
}

/// Milliseconds since the epoch of an RFC 3339 instant, as the database driver reads it.
pub uninterp spec fn rfc3339_millis_of(s: Seq<char>) -> Option<i64>;

/// Calls `bson::DateTime::parse_rfc3339_str` and reads `timestamp_millis()`.
/// What is accepted, and the instant, are named.
#[verifier::external_body]
fn bson_parse_rfc3339(s: &str) -> (r: Option<i64>)
    ensures
        r == rfc3339_millis_of(s@),
{
    bson::DateTime::parse_rfc3339_str(s).ok().map(|d| d.timestamp_millis())
}

/// What a required instant field yields.
pub open spec fn datetime_field_spec(value: Seq<char>, label: Seq<char>) -> Result<i64, Seq<char>> {
    if trim_spec(value).len() == 0 {
        Err(label + " es obligatorio (usa RFC3339: 2024-01-01T00:00:00Z)"@)
    } else {
        match rfc3339_millis_of(trim_spec(value)) {
            Some(ms) => Ok(ms),
            None => Err("Formato de fecha/hora inválido para "@ + label),
        }
    }
}

/// What an optional instant field yields: blank is absent.
pub open spec fn opt_datetime_field_spec(value: Option<Seq<char>>, label: Seq<char>) -> Result<Option<i64>, Seq<char>> {
    match clean_opt_spec(value) {
        None => Ok(None),
        Some(t) => match rfc3339_millis_of(t) {
            Some(ms) => Ok(Some(ms)),
            None => Err("Formato de fecha/hora inválido para "@ + label),
        },
    }
}

/// A required instant field (RFC 3339), read after trimming.
pub fn parse_datetime_field(value: &str, label: &str) -> (r: Result<i64, String>)
    ensures
        err_view(r) == datetime_field_spec(value@, label@),
        trim_spec(value@).len() == 0 ==> (r matches Err(m) && m@ == label@
            + " es obligatorio (usa RFC3339: 2024-01-01T00:00:00Z)"@),
        trim_spec(value@).len() > 0 ==> match rfc3339_millis_of(trim_spec(value@)) {
            Some(ms) => r == Ok::<i64, String>(ms),
            None => (r matches Err(m) && m@ == "Formato de fecha/hora inválido para "@ + label@),
        },
{
    let trimmed = trim(value);
    if trimmed.unicode_len() == 0 {
        return Err(String::from_str(label).concat(" es obligatorio (usa RFC3339: 2024-01-01T00:00:00Z)"));
    }
    match bson_parse_rfc3339(trimmed) {
        Some(ms) => Ok(ms),
        None => Err(String::from_str("Formato de fecha/hora inválido para ").concat(label)),
    }
}

/// An optional instant field: blank means absent.
pub fn parse_optional_datetime_field(value: Option<String>, label: &str) -> (r: Result<Option<i64>, String>)
    ensures
        err_view(r) == opt_datetime_field_spec(opt_view(value), label@),
        clean_opt_spec(opt_view(value)) is None ==> r == Ok::<Option<i64>, String>(None),
        clean_opt_spec(opt_view(value)) matches Some(t) ==> match rfc3339_millis_of(t) {
            Some(ms) => r == Ok::<Option<i64>, String>(Some(ms)),
            None => (r matches Err(m) && m@ == "Formato de fecha/hora inválido para "@ + label@),
        },
{
    let ghost orig = opt_view(value);
    match clean_opt(value) {
        Some(v) => {
            proof {
                lemma_trim_idempotent(orig->0);
            }
            match parse_datetime_field(v.as_str(), label) {
                Ok(ms) => Ok(Some(ms)),
                Err(m) => Err(m),
            }
        },
        None => Ok(None),
    }
}

/// RFC 3339 text of an instant as the database driver writes it (or its
/// fallback text when the instant cannot be written that way).
pub uninterp spec fn datetime_text_of(millis: i64) -> Seq<char>;

/// Calls `bson::DateTime::try_to_rfc3339_string` on the instant, falling back
/// to its `Display` text when formatting fails. The text is named.
#[verifier::external_body]
fn bson_datetime_text(millis: i64) -> (r: String)
    ensures
        r@ == datetime_text_of(millis),
{
    let dt = bson::DateTime::from_millis(millis);
    dt.try_to_rfc3339_string().unwrap_or_else(|_| dt.to_string())
}

/// Text of a stored instant as the JSON endpoints report it.
pub fn datetime_to_string(millis: i64) -> (r: String)
    ensures
        r@ == datetime_text_of(millis),
{
    bson_datetime_text(millis)
}

} // verus!
