//! Recurring plans: the admin form and the JSON payload, checked field by
//! field in the order the screens report problems, and what the endpoints
//! show of a stored plan.

use vstd::prelude::*;
use vstd::string::StrSliceExecFns;
use vstd::string::StringExecFns;
use crate::access::RequestError;
use crate::fields::{
    datetime_field_spec, id_field_spec, opt_datetime_field_spec, opt_id_field_spec, opt_id_view,
    parse_datetime_field, parse_object_id, parse_optional_datetime_field, parse_optional_id_field,
    datetime_text_of, datetime_to_string, opt_to_string,
};
use crate::forms::{flow_type_from_text, flow_type_value, parse_flow_type};
use crate::ids::{ObjectId, hex_text};
use crate::models::{FlowType, flow_type_text};
use crate::numbers::{i32_field_spec, opt_i32_field_spec, parse_i32_field, parse_optional_i32_field};
use crate::transactions::opt_hex;
use crate::text::{clean_opt, clean_opt_spec, opt_view, same_text, to_lowercase, trim, trim_spec, lowercase_text};

verus! {

/// A recurring plan as the admin form submits it.
#[derive(Debug, Clone)]
pub struct RecurringPlanFormData {
    pub name: String,
    pub company_id: String,
    pub flow_type: String,
    pub category_id: String,
    pub account_expected_id: String,
    pub contact_id: Option<String>,
    pub amount_estimated: String,
    pub frequency: String,
    pub day_of_month: Option<String>,
    pub start_date: String,
    pub end_date: Option<String>,
    pub is_active: bool,
    pub version: String,
    pub notes: Option<String>,
}

/// A plan read from JSON is active unless it says otherwise.
pub fn default_active() -> (b: bool)
    ensures
        b,
{
    true
}

/// A plan read from JSON is at version 1 unless it says otherwise.
pub fn default_version() -> (v: i32)
    ensures
        v == 1,
{
    1
}

/// The records a recurring plan points at.
#[derive(Debug, Clone)]
pub struct PlanReferences {
    pub flow_type: FlowType,
    pub category_id: ObjectId,
    pub account_expected_id: ObjectId,
    pub contact_id: Option<ObjectId>,
}

pub open spec fn plan_references_view(r: Result<PlanReferences, String>) -> Result<
    (FlowType, Seq<u8>, Seq<u8>, Option<Seq<u8>>),
    Seq<char>,
> {
    match r {
        Ok(p) => Ok((p.flow_type, p.category_id.bytes@, p.account_expected_id.bytes@, opt_id_view(p.contact_id))),
        Err(m) => Err(m@),
    }
}

/// The references of the form, or the message of the first one that is wrong:
/// flow type, category, expected account, then contact (blank is no contact).
pub open spec fn plan_references_spec(form: RecurringPlanFormData) -> Result<
    (FlowType, Seq<u8>, Seq<u8>, Option<Seq<u8>>),
    Seq<char>,
> {
    match flow_type_from_text(lowercase_text(form.flow_type@)) {
        None => Err("Tipo de flujo inválido"@),
        Some(ft) => match id_field_spec(form.category_id@, "Categoría"@) {
            Err(m) => Err(m),
            Ok(cat) => match id_field_spec(form.account_expected_id@, "Cuenta esperada"@) {
                Err(m) => Err(m),
                Ok(acc) => match opt_id_field_spec(opt_view(form.contact_id), "Contacto"@) {
                    Err(m) => Err(m),
                    Ok(contact) => Ok((ft, cat, acc, contact)),
                },
            },
        },
    }
}

/// First stage of saving the form: the references, before they are looked up.
pub fn parse_plan_references(form: &RecurringPlanFormData) -> (r: Result<PlanReferences, String>)
    ensures
        plan_references_view(r) == plan_references_spec(*form),
        r matches Ok(v) ==> {
            &&& Some(v.flow_type) == flow_type_from_text(lowercase_text(form.flow_type@))
            &&& Ok::<Seq<u8>, Seq<char>>(v.category_id.bytes@) == id_field_spec(form.category_id@, "Categoría"@)
            &&& Ok::<Seq<u8>, Seq<char>>(v.account_expected_id.bytes@) == id_field_spec(form.account_expected_id@, "Cuenta esperada"@)
            &&& Ok::<Option<Seq<u8>>, Seq<char>>(opt_id_view(v.contact_id)) == opt_id_field_spec(opt_view(form.contact_id), "Contacto"@)
        },
{
    let flow_type = parse_flow_type(form.flow_type.as_str())?;
    let category_id = parse_object_id(form.category_id.as_str(), "Categoría")?;
    let account_expected_id = parse_object_id(form.account_expected_id.as_str(), "Cuenta esperada")?;
    let contact_id = parse_optional_id_field(form.contact_id.clone(), "Contacto")?;
    Ok(PlanReferences { flow_type, category_id, account_expected_id, contact_id })
}

/// The values of a recurring plan besides its references and amount.
#[derive(Debug, Clone)]
pub struct PlanValues {
    pub name: String,
    pub frequency: String,
    pub day_of_month: Option<i32>,
    pub start_date: i64,
    pub end_date: Option<i64>,
    pub version: i32,
    pub is_active: bool,
    pub notes: Option<String>,
}

pub open spec fn plan_values_view(r: Result<PlanValues, String>) -> Result<
    (Seq<char>, Seq<char>, Option<i32>, i64, Option<i64>, i32, bool, Option<Seq<char>>),
    Seq<char>,
> {
    match r {
        Ok(v) => Ok((v.name@, v.frequency@, v.day_of_month, v.start_date, v.end_date, v.version, v.is_active, opt_view(v.notes))),
        Err(m) => Err(m@),
    }
}

/// The values of the form, or the message of the first one that is wrong:
/// amount, day of month, start date, end date, then version.
pub open spec fn plan_values_spec(form: RecurringPlanFormData, amount_is_number: bool) -> Result<
    (Seq<char>, Seq<char>, Option<i32>, i64, Option<i64>, i32, bool, Option<Seq<char>>),
    Seq<char>,
> {
    if !amount_is_number {
        Err("Monto estimado debe ser numérico"@)
    } else {
        match opt_i32_field_spec(opt_view(form.day_of_month), "Día del mes"@) {
            Err(m) => Err(m),
            Ok(day) => match datetime_field_spec(form.start_date@, "Fecha de inicio"@) {
                Err(m) => Err(m),
                Ok(start) => match opt_datetime_field_spec(opt_view(form.end_date), "Fecha fin"@) {
                    Err(m) => Err(m),
                    Ok(end) => match i32_field_spec(form.version@, "Versión"@) {
                        Err(m) => Err(m),
                        Ok(version) => Ok((
                            trim_spec(form.name@),
                            trim_spec(form.frequency@),
                            day,
                            start,
                            end,
                            version,
                            form.is_active,
                            clean_opt_spec(opt_view(form.notes)),
                        )),
                    },
                },
            },
        }
    }
}

/// Second stage of saving the form, once the references are known to belong
/// to the company. `amount_is_number` tells whether the estimated amount
/// reads as a number.
pub fn parse_plan_values(form: &RecurringPlanFormData, amount_is_number: bool) -> (r: Result<PlanValues, String>)
    ensures
        plan_values_view(r) == plan_values_spec(*form, amount_is_number),
        r is Ok <==> amount_is_number
            && opt_i32_field_spec(opt_view(form.day_of_month), "Día del mes"@) is Ok
            && datetime_field_spec(form.start_date@, "Fecha de inicio"@) is Ok
            && opt_datetime_field_spec(opt_view(form.end_date), "Fecha fin"@) is Ok
            && i32_field_spec(form.version@, "Versión"@) is Ok,
        r matches Ok(v) ==> v.name@ == trim_spec(form.name@) && v.frequency@ == trim_spec(form.frequency@),
        r matches Ok(v) ==> Ok::<Option<i32>, Seq<char>>(v.day_of_month) == opt_i32_field_spec(opt_view(form.day_of_month), "Día del mes"@),
        r matches Ok(v) ==> Ok::<i64, Seq<char>>(v.start_date) == datetime_field_spec(form.start_date@, "Fecha de inicio"@),
        r matches Ok(v) ==> Ok::<Option<i64>, Seq<char>>(v.end_date) == opt_datetime_field_spec(opt_view(form.end_date), "Fecha fin"@),
        r matches Ok(v) ==> Ok::<i32, Seq<char>>(v.version) == i32_field_spec(form.version@, "Versión"@),
        r matches Ok(v) ==> v.is_active == form.is_active && opt_view(v.notes) == clean_opt_spec(opt_view(form.notes)),
{
    if !amount_is_number {
        return Err(String::from_str("Monto estimado debe ser numérico"));
    }
    let day_of_month = parse_optional_i32_field(form.day_of_month.clone(), "Día del mes")?;
    let start_date = parse_datetime_field(form.start_date.as_str(), "Fecha de inicio")?;
    let end_date = parse_optional_datetime_field(form.end_date.clone(), "Fecha fin")?;
    let version = parse_i32_field(form.version.as_str(), "Versión")?;
    Ok(PlanValues {
        name: String::from_str(trim(form.name.as_str())),
        frequency: String::from_str(trim(form.frequency.as_str())),
        day_of_month,
        start_date,
        end_date,
        version,
        is_active: form.is_active,
        notes: clean_opt(form.notes.clone()),
    })
}

/// A recurring plan as the JSON endpoints receive it. The estimated amount
/// is a float and is not held here: its sign is passed to the parser.
#[derive(Debug, Clone)]
pub struct RecurringPlanPayload {
    pub name: String,
    pub flow_type: String,
    pub category_id: String,
    pub account_expected_id: String,
    pub contact_id: Option<String>,
    pub frequency: String,
    pub day_of_month: Option<i32>,
    pub start_date: String,
    pub end_date: Option<String>,
    pub is_active: bool,
    pub version: i32,
    pub notes: Option<String>,
}

/// A checked recurring plan payload (references not yet looked up).
#[derive(Debug, Clone)]
pub struct ParsedRecurringPlan {
    pub name: String,
    pub flow_type: FlowType,
    pub category_id: ObjectId,
    pub account_expected_id: ObjectId,
    pub contact_id: Option<ObjectId>,
    pub frequency: String,
    pub day_of_month: Option<i32>,
    pub start_date: i64,
    pub end_date: Option<i64>,
    pub is_active: bool,
    pub version: i32,
    pub notes: Option<String>,
}

/// The frequencies a plan may have, after trimming and lower-casing.
pub open spec fn is_frequency(f: Seq<char>) -> bool {
    f == "monthly"@ || f == "weekly"@
}

/// When the JSON endpoints accept a recurring plan.
pub open spec fn plan_payload_accepted(p: RecurringPlanPayload, amount_negative: bool) -> bool {
    &&& trim_spec(p.name@).len() > 0
    &&& !amount_negative
    &&& is_frequency(lowercase_text(trim_spec(p.frequency@)))
    &&& (p.day_of_month matches Some(d) ==> 1 <= d <= 31)
    &&& flow_type_from_text(lowercase_text(p.flow_type@)) is Some
    &&& id_field_spec(p.category_id@, "category_id"@) is Ok
    &&& id_field_spec(p.account_expected_id@, "account_expected_id"@) is Ok
    &&& opt_id_field_spec(opt_view(p.contact_id), "id"@) is Ok
    &&& datetime_field_spec(p.start_date@, "start_date"@) is Ok
    &&& opt_datetime_field_spec(opt_view(p.end_date), "end_date"@) is Ok
    &&& (opt_datetime_field_spec(opt_view(p.end_date), "end_date"@) matches Ok(Some(e))
        ==> datetime_field_spec(p.start_date@, "start_date"@)->Ok_0 <= e)
}

/// Checks a recurring plan received as JSON. `amount_negative` tells whether
/// the estimated amount is below zero. Every refusal is a bad request.
pub fn parse_recurring_plan_payload(payload: RecurringPlanPayload, amount_negative: bool) -> (r: Result<ParsedRecurringPlan, RequestError>)
    ensures
        r is Ok <==> plan_payload_accepted(payload, amount_negative),
        r is Err ==> r == Err::<ParsedRecurringPlan, RequestError>(RequestError::BadRequest),
        r matches Ok(v) ==> {
            &&& v.name@ == trim_spec(payload.name@)
            &&& Some(v.flow_type) == flow_type_from_text(lowercase_text(payload.flow_type@))
            &&& Ok::<Seq<u8>, Seq<char>>(v.category_id.bytes@) == id_field_spec(payload.category_id@, "category_id"@)
            &&& Ok::<Seq<u8>, Seq<char>>(v.account_expected_id.bytes@) == id_field_spec(payload.account_expected_id@, "account_expected_id"@)
            &&& Ok::<Option<Seq<u8>>, Seq<char>>(opt_id_view(v.contact_id)) == opt_id_field_spec(opt_view(payload.contact_id), "id"@)
            &&& v.frequency@ == lowercase_text(trim_spec(payload.frequency@))
            &&& v.day_of_month == payload.day_of_month
            &&& Ok::<i64, Seq<char>>(v.start_date) == datetime_field_spec(payload.start_date@, "start_date"@)
            &&& Ok::<Option<i64>, Seq<char>>(v.end_date) == opt_datetime_field_spec(opt_view(payload.end_date), "end_date"@)
            &&& v.is_active == payload.is_active
            &&& v.version == payload.version
            &&& opt_view(v.notes) == clean_opt_spec(opt_view(payload.notes))
        },
{
    let name = String::from_str(trim(payload.name.as_str()));
    if name.unicode_len() == 0 || amount_negative {
        return Err(RequestError::BadRequest);
    }
    let frequency = to_lowercase(trim(payload.frequency.as_str()));
    if !(same_text(frequency.as_str(), "monthly") || same_text(frequency.as_str(), "weekly")) {
        return Err(RequestError::BadRequest);
    }
    if let Some(day) = payload.day_of_month {
        if !(1 <= day && day <= 31) {
            return Err(RequestError::BadRequest);
        }
    }
    let flow_type = match parse_flow_type(payload.flow_type.as_str()) {
        Ok(f) => f,
        Err(_) => return Err(RequestError::BadRequest),
    };
    let category_id = match parse_object_id(payload.category_id.as_str(), "category_id") {
        Ok(id) => id,
        Err(_) => return Err(RequestError::BadRequest),
    };
    let account_expected_id = match parse_object_id(payload.account_expected_id.as_str(), "account_expected_id") {
        Ok(id) => id,
        Err(_) => return Err(RequestError::BadRequest),
    };
    let contact_id = match parse_optional_id_field(payload.contact_id.clone(), "id") {
        Ok(c) => c,
        Err(_) => return Err(RequestError::BadRequest),
    };
    let start_date = match parse_datetime_field(payload.start_date.as_str(), "start_date") {
        Ok(d) => d,
        Err(_) => return Err(RequestError::BadRequest),
    };
    let end_date = match parse_optional_datetime_field(payload.end_date.clone(), "end_date") {
        Ok(d) => d,
        Err(_) => return Err(RequestError::BadRequest),
    };
    if let Some(e) = end_date {
        if e < start_date {
            return Err(RequestError::BadRequest);
        }
    }
    Ok(ParsedRecurringPlan {
        name,
        flow_type,
        category_id,
        account_expected_id,
        contact_id,
        frequency,
        day_of_month: payload.day_of_month,
        start_date,
        end_date,
        is_active: payload.is_active,
        version: payload.version,
        notes: clean_opt(payload.notes),
    })
}

/// How many of the listed plan references point at `plan`.
pub open spec fn plan_count_spec(refs: Seq<Option<ObjectId>>, plan: ObjectId) -> nat
    decreases refs.len(),
{
    if refs.len() == 0 {
        0
    } else {
        plan_count_spec(refs.drop_last(), plan) + match refs.last() {
            Some(p) => if p.bytes@ == plan.bytes@ { 1nat } else { 0nat },
            None => 0nat,
        }
    }
}

/// Counts the planned entries generated from a plan, given for each planned
/// entry the plan it came from.
pub fn count_plan_entries(entry_plans: &Vec<Option<ObjectId>>, plan_id: &ObjectId) -> (n: usize)
    ensures
        n == plan_count_spec(entry_plans@, *plan_id),
{
    let mut n: usize = 0;
    let mut i: usize = 0;
    while i < entry_plans.len()
        invariant
            i <= entry_plans@.len(),
            n <= i,
            n == plan_count_spec(entry_plans@.take(i as int), *plan_id),
        decreases entry_plans.len() - i,
    {
        assert(entry_plans@.take(i + 1).drop_last() =~= entry_plans@.take(i as int));
        match &entry_plans[i] {
            Some(p) => {
                if p.same_as(plan_id) {
                    n = n + 1;
                }
            },
            None => {},
        }
        i = i + 1;
    }
    assert(entry_plans@.take(entry_plans@.len() as int) =~= entry_plans@);
    n
}

/// What the endpoints read of a stored recurring plan; its estimated
/// amount, a float, is carried beside it.
#[derive(Debug, Clone)]
pub struct RecurringPlanRecord {
    pub id: Option<ObjectId>,
    pub company_id: ObjectId,
    pub name: String,
    pub flow_type: FlowType,
    pub category_id: ObjectId,
    pub account_expected_id: ObjectId,
    pub contact_id: Option<ObjectId>,
    pub frequency: String,
    pub day_of_month: Option<i32>,
    /// Milliseconds since the epoch.
    pub start_date: i64,
    pub end_date: Option<i64>,
    pub is_active: bool,
    pub version: i32,
    pub notes: Option<String>,
}

/// What the endpoints show of a stored recurring plan.
#[derive(Debug, Clone)]
pub struct RecurringPlanData {
    pub id: String,
    pub company_id: String,
    pub company: String,
    pub name: String,
    pub flow_type: String,
    pub category_id: String,
    pub account_expected_id: String,
    pub contact_id: Option<String>,
    pub frequency: String,
    pub day_of_month: Option<i32>,
    pub start_date: String,
    pub end_date: Option<String>,
    pub is_active: bool,
    pub version: i32,
    pub notes: Option<String>,
}

/// The data of a stored plan under the name of its company: identifiers as
/// hex text, dates as the endpoints write instants, the rest as stored.
pub open spec fn plan_data_matches(d: RecurringPlanData, plan: RecurringPlanRecord, company: Seq<char>) -> bool {
    &&& plan.id matches Some(id) && d.id@ == hex_text(id.bytes@)
    &&& d.company_id@ == hex_text(plan.company_id.bytes@)
    &&& d.company@ == company
    &&& d.name@ == plan.name@
    &&& d.flow_type@ == flow_type_text(plan.flow_type)
    &&& d.category_id@ == hex_text(plan.category_id.bytes@)
    &&& d.account_expected_id@ == hex_text(plan.account_expected_id.bytes@)
    &&& opt_view(d.contact_id) == opt_hex(plan.contact_id)
    &&& d.frequency@ == plan.frequency@
    &&& d.day_of_month == plan.day_of_month
    &&& d.start_date@ == datetime_text_of(plan.start_date)
    &&& opt_view(d.end_date) == match plan.end_date {
        Some(e) => Some(datetime_text_of(e)),
        None => None,
    }
    &&& d.is_active == plan.is_active
    &&& d.version == plan.version
    &&& opt_view(d.notes) == opt_view(plan.notes)
}

/// The data of a stored recurring plan; a plan never saved has none.
pub fn recurring_plan_data(plan: &RecurringPlanRecord, company: &str) -> (r: Option<RecurringPlanData>)
    ensures
        r is None <==> plan.id is None,
        r matches Some(d) ==> plan_data_matches(d, *plan, company@),
{
    let id = match &plan.id {
        Some(i) => i.to_hex(),
        None => return None,
    };
    let end_date = match plan.end_date {
        Some(e) => Some(datetime_to_string(e)),
        None => None,
    };
    Some(RecurringPlanData {
        id,
        company_id: plan.company_id.to_hex(),
        company: String::from_str(company),
        name: plan.name.clone(),
        flow_type: String::from_str(flow_type_value(&plan.flow_type)),
        category_id: plan.category_id.to_hex(),
        account_expected_id: plan.account_expected_id.to_hex(),
        contact_id: opt_to_string(&plan.contact_id),
        frequency: plan.frequency.clone(),
        day_of_month: plan.day_of_month,
        start_date: datetime_to_string(plan.start_date),
        end_date,
        is_active: plan.is_active,
        version: plan.version,
        notes: plan.notes.clone(),
    })
}

/// The stored plans a company's listing shows: those of the company that
/// have an identifier, in order.
pub open spec fn listed_plans(plans: Seq<RecurringPlanRecord>, company: ObjectId) -> Seq<RecurringPlanRecord>
    decreases plans.len(),
{
    if plans.len() == 0 {
        Seq::empty()
    } else if plans.last().company_id.bytes@ == company.bytes@ && plans.last().id is Some {
        listed_plans(plans.drop_last(), company).push(plans.last())
    } else {
        listed_plans(plans.drop_last(), company)
    }
}

/// The data of the recurring plans of the active company, under its name.
pub fn recurring_plans_data(plans: &Vec<RecurringPlanRecord>, active_company: &ObjectId, company_name: &str) -> (r: Vec<RecurringPlanData>)
    ensures
        r@.len() == listed_plans(plans@, *active_company).len(),
        forall|i: int| 0 <= i < r@.len() ==> #[trigger] plan_data_matches(r@[i], listed_plans(plans@, *active_company)[i], company_name@),
{
    let mut out: Vec<RecurringPlanData> = Vec::new();
    let mut i: usize = 0;
    while i < plans.len()
        invariant
            i <= plans@.len(),
            out@.len() == listed_plans(plans@.take(i as int), *active_company).len(),
            forall|j: int| 0 <= j < out@.len() ==> #[trigger] plan_data_matches(out@[j],
                listed_plans(plans@.take(i as int), *active_company)[j], company_name@),
        decreases plans.len() - i,
    {
        assert(plans@.take(i + 1).drop_last() =~= plans@.take(i as int));
        assert(plans@.take(i + 1).last() == plans@[i as int]);
        if plans[i].company_id.same_as(active_company) {
            match recurring_plan_data(&plans[i], company_name) {
                Some(d) => {
                    out.push(d);
                },
                None => {},
            }
        }
        i = i + 1;
    }
    assert(plans@.take(plans@.len() as int) =~= plans@);
    out
}

} // verus!
