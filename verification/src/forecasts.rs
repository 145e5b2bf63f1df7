//! Cash-flow forecasts: the admin form, the JSON payload, and what the
//! endpoints show of a stored forecast.

use vstd::prelude::*;
use vstd::string::StrSliceExecFns;
use vstd::string::StringExecFns;
use crate::access::RequestError;
use crate::fields::{datetime_field_spec, datetime_text_of, datetime_to_string, opt_id_view, opt_to_string, parse_datetime_field};
use crate::ids::{ObjectId, hex_text, is_object_id_text, object_id_bytes};
use crate::transactions::opt_hex;
use crate::text::{clean_opt, clean_opt_spec, opt_view, trim, trim_spec};

verus! {

/// A forecast as the admin form submits it.
#[derive(Debug, Clone)]
pub struct ForecastFormData {
    pub company_id: String,
    pub currency: String,
    pub projected_income_total: String,
    pub projected_expense_total: String,
    pub projected_net: String,
    pub initial_balance: Option<String>,
    pub final_balance: Option<String>,
    pub generated_at: String,
    pub start_date: String,
    pub end_date: String,
    pub generated_by_user_id: Option<String>,
    pub details: Option<String>,
    pub scenario_name: Option<String>,
    pub notes: Option<String>,
}

/// A forecast as the JSON endpoints receive it. Its totals and balances are
/// floats and are carried past the checks unread, so they are not held here.
#[derive(Debug, Clone)]
pub struct ForecastPayload {
    pub generated_at: String,
    pub generated_by_user_id: Option<String>,
    pub start_date: String,
    pub end_date: String,
    pub currency: String,
    pub details: Option<String>,
    pub scenario_name: Option<String>,
    pub notes: Option<String>,
}

/// The checked fields of a forecast besides its totals (the user still to be looked up).
#[derive(Debug, Clone)]
pub struct ForecastFields {
    pub generated_at: i64,
    pub generated_by_user_id: Option<ObjectId>,
    pub start_date: i64,
    pub end_date: i64,
    pub currency: String,
    pub details: Option<String>,
    pub scenario_name: Option<String>,
    pub notes: Option<String>,
}

/// The user field of the form: blank is none; otherwise the text as given
/// (not trimmed) must be an identifier.
pub open spec fn form_user_spec(value: Option<Seq<char>>) -> Option<Option<Seq<u8>>> {
    match value {
        None => Some(None),
        Some(v) => if trim_spec(v).len() == 0 {
            Some(None)
        } else if is_object_id_text(v) {
            Some(Some(object_id_bytes(v)))
        } else {
            None
        },
    }
}

/// When the admin form of a forecast is accepted (every refusal is a bad
/// request). `numbers_ok` tells whether the totals and the balances given
/// read as numbers.
pub open spec fn forecast_form_accepted(form: ForecastFormData, numbers_ok: bool) -> bool {
    &&& numbers_ok
    &&& datetime_field_spec(form.generated_at@, ""@) is Ok
    &&& datetime_field_spec(form.start_date@, ""@) is Ok
    &&& datetime_field_spec(form.end_date@, ""@) is Ok
    &&& form_user_spec(opt_view(form.generated_by_user_id)) is Some
}

/// Checks the admin form of a forecast, for creating and for editing.
pub fn parse_forecast_form(form: &ForecastFormData, numbers_ok: bool) -> (r: Result<ForecastFields, RequestError>)
    ensures
        r is Ok <==> forecast_form_accepted(*form, numbers_ok),
        r is Err ==> r == Err::<ForecastFields, RequestError>(RequestError::BadRequest),
        r matches Ok(v) ==> {
            &&& datetime_field_spec(form.generated_at@, ""@) == Ok::<i64, Seq<char>>(v.generated_at)
            &&& datetime_field_spec(form.start_date@, ""@) == Ok::<i64, Seq<char>>(v.start_date)
            &&& datetime_field_spec(form.end_date@, ""@) == Ok::<i64, Seq<char>>(v.end_date)
            &&& form_user_spec(opt_view(form.generated_by_user_id)) == Some(opt_id_view(v.generated_by_user_id))
            &&& v.currency@ == trim_spec(form.currency@)
            &&& opt_view(v.details) == clean_opt_spec(opt_view(form.details))
            &&& opt_view(v.scenario_name) == clean_opt_spec(opt_view(form.scenario_name))
            &&& opt_view(v.notes) == clean_opt_spec(opt_view(form.notes))
        },
{
    if !numbers_ok {
        return Err(RequestError::BadRequest);
    }
    let generated_at = match parse_datetime_field(form.generated_at.as_str(), "Fecha de generación") {
        Ok(d) => d,
        Err(_) => return Err(RequestError::BadRequest),
    };
    let start_date = match parse_datetime_field(form.start_date.as_str(), "Fecha inicio") {
        Ok(d) => d,
        Err(_) => return Err(RequestError::BadRequest),
    };
    let end_date = match parse_datetime_field(form.end_date.as_str(), "Fecha fin") {
        Ok(d) => d,
        Err(_) => return Err(RequestError::BadRequest),
    };
    let generated_by_user_id = match &form.generated_by_user_id {
        None => None,
        Some(v) => if trim(v.as_str()).unicode_len() == 0 {
            None
        } else {
            match ObjectId::parse_str(v.as_str()) {
                Some(id) => Some(id),
                None => return Err(RequestError::BadRequest),
            }
        },
    };
    Ok(ForecastFields {
        generated_at,
        generated_by_user_id,
        start_date,
        end_date,
        currency: String::from_str(trim(form.currency.as_str())),
        details: clean_opt(form.details.clone()),
        scenario_name: clean_opt(form.scenario_name.clone()),
        notes: clean_opt(form.notes.clone()),
    })
}

/// What the JSON endpoints make of a forecast: its fields, or the message of
/// the first problem (the three dates, the currency, then the user).
pub open spec fn forecast_payload_spec(p: ForecastPayload) -> Result<(i64, i64, i64, Seq<char>, Option<Seq<u8>>), Seq<char>> {
    match datetime_field_spec(p.generated_at@, "generated_at"@) {
        Err(m) => Err(m),
        Ok(g) => match datetime_field_spec(p.start_date@, "start_date"@) {
            Err(m) => Err(m),
            Ok(s) => match datetime_field_spec(p.end_date@, "end_date"@) {
                Err(m) => Err(m),
                Ok(e) => if trim_spec(p.currency@).len() == 0 {
                    Err("currency is required"@)
                } else {
                    match clean_opt_spec(opt_view(p.generated_by_user_id)) {
                        None => Ok((g, s, e, trim_spec(p.currency@), None)),
                        Some(t) => if is_object_id_text(t) {
                            Ok((g, s, e, trim_spec(p.currency@), Some(object_id_bytes(t))))
                        } else {
                            Err("generated_by_user_id is invalid"@)
                        },
                    }
                },
            },
        },
    }
}

pub open spec fn forecast_fields_view(r: Result<ForecastFields, String>) -> Result<(i64, i64, i64, Seq<char>, Option<Seq<u8>>), Seq<char>> {
    match r {
        Ok(v) => Ok((v.generated_at, v.start_date, v.end_date, v.currency@, opt_id_view(v.generated_by_user_id))),
        Err(m) => Err(m@),
    }
}

/// Checks a forecast received as JSON; a refusal carries the message the
/// endpoint answers with.
pub fn parse_forecast_payload(payload: ForecastPayload) -> (r: Result<ForecastFields, String>)
    ensures
        forecast_fields_view(r) == forecast_payload_spec(payload),
        r matches Ok(v) ==> {
            &&& Ok::<i64, Seq<char>>(v.generated_at) == datetime_field_spec(payload.generated_at@, "generated_at"@)
            &&& Ok::<i64, Seq<char>>(v.start_date) == datetime_field_spec(payload.start_date@, "start_date"@)
            &&& Ok::<i64, Seq<char>>(v.end_date) == datetime_field_spec(payload.end_date@, "end_date"@)
            &&& v.currency@ == trim_spec(payload.currency@) && v.currency@.len() > 0
            &&& opt_id_view(v.generated_by_user_id) == (match clean_opt_spec(opt_view(payload.generated_by_user_id)) {
                Some(t) => Some(object_id_bytes(t)),
                None => None,
            })
            &&& opt_view(v.details) == clean_opt_spec(opt_view(payload.details))
            &&& opt_view(v.scenario_name) == clean_opt_spec(opt_view(payload.scenario_name))
            &&& opt_view(v.notes) == clean_opt_spec(opt_view(payload.notes))
        },
{
    let generated_at = parse_datetime_field(payload.generated_at.as_str(), "generated_at")?;
    let start_date = parse_datetime_field(payload.start_date.as_str(), "start_date")?;
    let end_date = parse_datetime_field(payload.end_date.as_str(), "end_date")?;
    let currency = String::from_str(trim(payload.currency.as_str()));
    if currency.unicode_len() == 0 {
        return Err(String::from_str("currency is required"));
    }
    let generated_by_user_id = match clean_opt(payload.generated_by_user_id) {
        None => None,
        Some(v) => match ObjectId::parse_str(v.as_str()) {
            Some(id) => Some(id),
            None => return Err(String::from_str("generated_by_user_id is invalid")),
        },
    };
    Ok(ForecastFields {
        generated_at,
        generated_by_user_id,
        start_date,
        end_date,
        currency,
        details: clean_opt(payload.details),
        scenario_name: clean_opt(payload.scenario_name),
        notes: clean_opt(payload.notes),
    })
}

/// What the endpoints read of a stored forecast; its totals and balances,
/// floats, are carried beside it.
#[derive(Debug, Clone)]
pub struct ForecastRecord {
    pub id: Option<ObjectId>,
    pub company_id: ObjectId,
    /// Milliseconds since the epoch, as are the other instants.
    pub generated_at: i64,
    pub generated_by_user_id: Option<ObjectId>,
    pub start_date: i64,
    pub end_date: i64,
    pub currency: String,
    pub details: Option<String>,
    pub scenario_name: Option<String>,
    pub notes: Option<String>,
}

/// One line of the forecast listing.
#[derive(Debug, Clone)]
pub struct ForecastRow {
    pub id: String,
    pub company: String,
    pub currency: String,
    pub start_date: String,
    pub end_date: String,
    pub scenario_name: Option<String>,
}

/// The listing line of a stored forecast under the name of its company.
pub open spec fn forecast_row_matches(r: ForecastRow, f: ForecastRecord, company: Seq<char>) -> bool {
    &&& f.id matches Some(id) && r.id@ == hex_text(id.bytes@)
    &&& r.company@ == company
    &&& r.currency@ == f.currency@
    &&& r.start_date@ == datetime_text_of(f.start_date)
    &&& r.end_date@ == datetime_text_of(f.end_date)
    &&& opt_view(r.scenario_name) == opt_view(f.scenario_name)
}

/// The stored forecasts a company's listing shows: those of the company that
/// have an identifier, in order.
pub open spec fn listed_forecasts(fs: Seq<ForecastRecord>, company: ObjectId) -> Seq<ForecastRecord>
    decreases fs.len(),
{
    if fs.len() == 0 {
        Seq::empty()
    } else if fs.last().company_id.bytes@ == company.bytes@ && fs.last().id is Some {
        listed_forecasts(fs.drop_last(), company).push(fs.last())
    } else {
        listed_forecasts(fs.drop_last(), company)
    }
}

/// The forecast listing of the active company, under its name.
pub fn forecast_rows(forecasts: &Vec<ForecastRecord>, active_company: &ObjectId, company_name: &str) -> (r: Vec<ForecastRow>)
    ensures
        r@.len() == listed_forecasts(forecasts@, *active_company).len(),
        forall|i: int| 0 <= i < r@.len() ==> #[trigger] forecast_row_matches(r@[i], listed_forecasts(forecasts@, *active_company)[i], company_name@),
{
    let mut out: Vec<ForecastRow> = Vec::new();
    let mut i: usize = 0;
    while i < forecasts.len()
        invariant
            i <= forecasts@.len(),
            out@.len() == listed_forecasts(forecasts@.take(i as int), *active_company).len(),
            forall|j: int| 0 <= j < out@.len() ==> #[trigger] forecast_row_matches(out@[j],
                listed_forecasts(forecasts@.take(i as int), *active_company)[j], company_name@),
        decreases forecasts.len() - i,
    {
        assert(forecasts@.take(i + 1).drop_last() =~= forecasts@.take(i as int));
        assert(forecasts@.take(i + 1).last() == forecasts@[i as int]);
        let f = &forecasts[i];
        if f.company_id.same_as(active_company) {
            match &f.id {
                Some(id) => {
                    out.push(ForecastRow {
                        id: id.to_hex(),
                        company: String::from_str(company_name),
                        currency: f.currency.clone(),
                        start_date: datetime_to_string(f.start_date),
                        end_date: datetime_to_string(f.end_date),
                        scenario_name: f.scenario_name.clone(),
                    });
                },
                None => {},
            }
        }
        i = i + 1;
    }
    assert(forecasts@.take(forecasts@.len() as int) =~= forecasts@);
    out
}

/// What the detail endpoint shows of a stored forecast.
#[derive(Debug, Clone)]
pub struct ForecastDetail {
    pub id: String,
    pub company_id: String,
    pub company: String,
    pub generated_at: String,
    pub generated_by_user_id: Option<String>,
    pub start_date: String,
    pub end_date: String,
    pub currency: String,
    pub details: Option<String>,
    pub scenario_name: Option<String>,
    pub notes: Option<String>,
}

/// The detail of a stored forecast, under the identifier it was asked by and
/// the name of its company: identifiers as hex text, instants as the
/// endpoints write them, the rest as stored.
pub fn forecast_detail(id: String, f: &ForecastRecord, company: String) -> (r: ForecastDetail)
    ensures
        r.id@ == id@,
        r.company_id@ == hex_text(f.company_id.bytes@),
        r.company@ == company@,
        r.generated_at@ == datetime_text_of(f.generated_at),
        opt_view(r.generated_by_user_id) == opt_hex(f.generated_by_user_id),
        r.start_date@ == datetime_text_of(f.start_date),
        r.end_date@ == datetime_text_of(f.end_date),
        r.currency@ == f.currency@,
        opt_view(r.details) == opt_view(f.details),
        opt_view(r.scenario_name) == opt_view(f.scenario_name),
        opt_view(r.notes) == opt_view(f.notes),
{
    ForecastDetail {
        id,
        company_id: f.company_id.to_hex(),
        company,
        generated_at: datetime_to_string(f.generated_at),
        generated_by_user_id: opt_to_string(&f.generated_by_user_id),
        start_date: datetime_to_string(f.start_date),
        end_date: datetime_to_string(f.end_date),
        currency: f.currency.clone(),
        details: f.details.clone(),
        scenario_name: f.scenario_name.clone(),
        notes: f.notes.clone(),
    }
}

} // verus!
