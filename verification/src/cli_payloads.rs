//! Checks the command-line client makes on its arguments before it sends a
//! request: each command's arguments are checked in a fixed order, and the
//! first problem is reported.

use vstd::prelude::*;
use vstd::string::StrSliceExecFns;
use vstd::string::StringExecFns;
use crate::calendar::date_text;
use crate::cfdi_download::{chrono_parse_ymd, chrono_ymd_of, date_of_ymd};
use crate::cli::{
    validate_flow_type, validate_frequency, validate_non_empty, validate_object_id,
    validate_optional_object_id, validate_planned_status, validate_timeline_mode, validate_transaction_type,
};
use crate::calendar::date_to_string;
use crate::ids::is_object_id_text;
use crate::text::{after_char, before_char, first_index_of, trim_spec};

verus! {

/// The problem a check reports, if any.
pub open spec fn problem(r: Result<(), String>) -> Option<Seq<char>> {
    match r {
        Ok(_) => None,
        Err(m) => Some(m@),
    }
}

/// The first of two problems.
pub open spec fn first(a: Option<Seq<char>>, b: Option<Seq<char>>) -> Option<Seq<char>> {
    if a is Some { a } else { b }
}

pub open spec fn required_problem(v: Seq<char>, name: Seq<char>) -> Option<Seq<char>> {
    if trim_spec(v).len() > 0 { None } else { Some(name + " is required"@) }
}

pub open spec fn id_problem(v: Seq<char>, name: Seq<char>) -> Option<Seq<char>> {
    if is_object_id_text(v) { None } else { Some(name + " must be a 24-character ObjectId"@) }
}

pub open spec fn opt_id_problem(v: Option<Seq<char>>, name: Seq<char>) -> Option<Seq<char>> {
    match v {
        Some(t) => id_problem(t, name),
        None => None,
    }
}

pub open spec fn flow_problem(v: Seq<char>) -> Option<Seq<char>> {
    if v == "income"@ || v == "expense"@ { None } else { Some("flow-type must be one of: income, expense"@) }
}

pub open spec fn frequency_problem(v: Seq<char>) -> Option<Seq<char>> {
    if v == "monthly"@ || v == "weekly"@ { None } else { Some("frequency must be one of: monthly, weekly"@) }
}

pub open spec fn status_problem(v: Seq<char>) -> Option<Seq<char>> {
    if v == "planned"@ || v == "partially_covered"@ || v == "covered"@ || v == "overdue"@ || v == "cancelled"@ {
        None
    } else {
        Some("status must be one of: planned, partially_covered, covered, overdue, cancelled"@)
    }
}

pub open spec fn transaction_type_problem(v: Seq<char>) -> Option<Seq<char>> {
    if v == "income"@ || v == "expense"@ || v == "transfer"@ {
        None
    } else {
        Some("transaction-type must be one of: income, expense, transfer"@)
    }
}

pub open spec fn flag_problem(bad: bool, message: Seq<char>) -> Option<Seq<char>> {
    if bad { Some(message) } else { None }
}

/// Whether the calendar library reads a text as an RFC 3339 instant.
pub uninterp spec fn rfc3339_accepts(s: Seq<char>) -> bool;

/// Calls `chrono::DateTime::parse_from_rfc3339` and tells whether it succeeded.
#[verifier::external_body]
fn chrono_is_rfc3339(s: &str) -> (r: bool)
    ensures
        r == rfc3339_accepts(s@),
{
    chrono::DateTime::parse_from_rfc3339(s).is_ok()
}

pub open spec fn rfc3339_problem(v: Seq<char>, name: Seq<char>) -> Option<Seq<char>> {
    if rfc3339_accepts(v) { None } else { Some(name + " must be RFC3339"@) }
}

pub open spec fn opt_rfc3339_problem(v: Option<Seq<char>>, name: Seq<char>) -> Option<Seq<char>> {
    match v {
        Some(t) => rfc3339_problem(t, name),
        None => None,
    }
}

/// An instant argument must be RFC 3339; it is sent as given.
pub fn validate_rfc3339(value: &str, name: &str) -> (r: Result<String, String>)
    ensures
        rfc3339_accepts(value@) ==> (r matches Ok(s) && s@ == value@),
        !rfc3339_accepts(value@) ==> (r matches Err(m) && m@ == name@ + " must be RFC3339"@),
{
    if chrono_is_rfc3339(value) {
        Ok(String::from_str(value))
    } else {
        Err(String::from_str(name).concat(" must be RFC3339"))
    }
}

fn check_rfc3339(value: &str, name: &str) -> (r: Result<(), String>)
    ensures
        problem(r) == rfc3339_problem(value@, name@),
{
    match validate_rfc3339(value, name) {
        Ok(_) => Ok(()),
        Err(m) => Err(m),
    }
}

fn check_opt_rfc3339(value: &Option<String>, name: &str) -> (r: Result<(), String>)
    ensures
        problem(r) == opt_rfc3339_problem(match value { Some(v) => Some(v@), None => None }, name@),
{
    match value {
        Some(v) => check_rfc3339(v.as_str(), name),
        None => Ok(()),
    }
}

fn check_flag(bad: bool, message: &str) -> (r: Result<(), String>)
    ensures
        problem(r) == flag_problem(bad, message@),
{
    if bad {
        Err(String::from_str(message))
    } else {
        Ok(())
    }
}

fn opt_str(o: &Option<String>) -> (r: Option<&str>)
    ensures
        match o {
            Some(s) => r matches Some(t) && t@ == s@,
            None => r is None,
        },
{
    match o {
        Some(s) => Some(s.as_str()),
        None => None,
    }
}

pub open spec fn opt_seq(o: Option<String>) -> Option<Seq<char>> {
    match o {
        Some(s) => Some(s@),
        None => None,
    }
}

/// A bound of a timeline request: an RFC 3339 instant as given, or a
/// `YYYY-MM-DD` day made into midnight UTC.
pub open spec fn timeline_bound_spec(value: Seq<char>, name: Seq<char>) -> Result<Seq<char>, Seq<char>> {
    if rfc3339_accepts(value) {
        Ok(value)
    } else {
        match date_of_ymd(chrono_ymd_of(value)) {
            None => Err(name + " must be YYYY-MM-DD or RFC3339"@),
            Some(d) => Ok(date_text(d) + "T00:00:00Z"@),
        }
    }
}

/// Normalizes a bound of a timeline request.
pub fn normalize_timeline_bound(value: &str, name: &str) -> (r: Result<String, String>)
    ensures
        match timeline_bound_spec(value@, name@) {
            Ok(s) => r matches Ok(t) && t@ == s,
            Err(m) => r matches Err(e) && e@ == m,
        },
{
    if chrono_is_rfc3339(value) {
        return Ok(String::from_str(value));
    }
    match chrono_parse_ymd(value) {
        None => Err(String::from_str(name).concat(" must be YYYY-MM-DD or RFC3339")),
        Some(d) => {
            let mut s = date_to_string(&d);
            s.append("T00:00:00Z");
            Ok(s)
        },
    }
}

/// The arguments of `finance recurring-plan create/update` besides the amount.
#[derive(Debug, Clone)]
pub struct RecurringPlanArgs {
    pub name: String,
    pub flow_type: String,
    pub category_id: String,
    pub account_expected_id: String,
    pub contact_id: Option<String>,
    pub frequency: String,
    pub day_of_month: Option<i32>,
    pub start_date: String,
    pub end_date: Option<String>,
}

pub open spec fn recurring_plan_problem(a: RecurringPlanArgs, amount_negative: bool) -> Option<Seq<char>> {
    first(required_problem(a.name@, "name"@),
    first(flow_problem(a.flow_type@),
    first(frequency_problem(a.frequency@),
    first(id_problem(a.category_id@, "category-id"@),
    first(id_problem(a.account_expected_id@, "account-expected-id"@),
    first(opt_id_problem(opt_seq(a.contact_id), "contact-id"@),
    first(flag_problem(amount_negative, "amount-estimated must be greater than or equal to zero"@),
    first(flag_problem(a.day_of_month matches Some(d) && !(1 <= d <= 31), "day-of-month must be between 1 and 31"@),
    first(rfc3339_problem(a.start_date@, "start-date"@),
    opt_rfc3339_problem(opt_seq(a.end_date), "end-date"@))))))))))
}

/// Checks the arguments of a recurring plan. `amount_negative` tells whether
/// the estimated amount is below zero.
pub fn check_recurring_plan_args(a: &RecurringPlanArgs, amount_negative: bool) -> (r: Result<(), String>)
    ensures
        problem(r) == recurring_plan_problem(*a, amount_negative),
        r is Ok <==> {
            &&& trim_spec(a.name@).len() > 0
            &&& (a.flow_type@ == "income"@ || a.flow_type@ == "expense"@)
            &&& (a.frequency@ == "monthly"@ || a.frequency@ == "weekly"@)
            &&& is_object_id_text(a.category_id@)
            &&& is_object_id_text(a.account_expected_id@)
            &&& (a.contact_id matches Some(c) ==> is_object_id_text(c@))
            &&& !amount_negative
            &&& (a.day_of_month matches Some(d) ==> 1 <= d <= 31)
            &&& rfc3339_accepts(a.start_date@)
            &&& (a.end_date matches Some(e) ==> rfc3339_accepts(e@))
        },
{
    validate_non_empty(a.name.as_str(), "name")?;
    validate_flow_type(a.flow_type.as_str())?;
    validate_frequency(a.frequency.as_str())?;
    validate_object_id(a.category_id.as_str(), "category-id")?;
    validate_object_id(a.account_expected_id.as_str(), "account-expected-id")?;
    validate_optional_object_id(opt_str(&a.contact_id), "contact-id")?;
    check_flag(amount_negative, "amount-estimated must be greater than or equal to zero")?;
    let bad_day = match a.day_of_month {
        Some(d) => !(1 <= d && d <= 31),
        None => false,
    };
    check_flag(bad_day, "day-of-month must be between 1 and 31")?;
    check_rfc3339(a.start_date.as_str(), "start-date")?;
    check_opt_rfc3339(&a.end_date, "end-date")
}

/// The arguments of `finance planned-entry create/update` besides the amount.
#[derive(Debug, Clone)]
pub struct PlannedEntryArgs {
    pub name: String,
    pub flow_type: String,
    pub category_id: String,
    pub account_expected_id: String,
    pub contact_id: Option<String>,
    pub project_id: Option<String>,
    pub due_date: String,
    pub status: String,
    pub recurring_plan_id: Option<String>,
}

pub open spec fn planned_entry_problem(a: PlannedEntryArgs, amount_negative: bool) -> Option<Seq<char>> {
    first(required_problem(a.name@, "name"@),
    first(flow_problem(a.flow_type@),
    first(status_problem(a.status@),
    first(id_problem(a.category_id@, "category-id"@),
    first(id_problem(a.account_expected_id@, "account-expected-id"@),
    first(opt_id_problem(opt_seq(a.contact_id), "contact-id"@),
    first(opt_id_problem(opt_seq(a.project_id), "project-id"@),
    first(opt_id_problem(opt_seq(a.recurring_plan_id), "recurring-plan-id"@),
    first(flag_problem(amount_negative, "amount-estimated must be greater than or equal to zero"@),
    rfc3339_problem(a.due_date@, "due-date"@))))))))))
}

/// Checks the arguments of a planned entry.
pub fn check_planned_entry_args(a: &PlannedEntryArgs, amount_negative: bool) -> (r: Result<(), String>)
    ensures
        problem(r) == planned_entry_problem(*a, amount_negative),
        r is Ok <==> {
            &&& trim_spec(a.name@).len() > 0
            &&& (a.flow_type@ == "income"@ || a.flow_type@ == "expense"@)
            &&& (a.status@ == "planned"@ || a.status@ == "partially_covered"@ || a.status@ == "covered"@
                || a.status@ == "overdue"@ || a.status@ == "cancelled"@)
            &&& is_object_id_text(a.category_id@)
            &&& is_object_id_text(a.account_expected_id@)
            &&& (a.contact_id matches Some(c) ==> is_object_id_text(c@))
            &&& (a.project_id matches Some(c) ==> is_object_id_text(c@))
            &&& (a.recurring_plan_id matches Some(c) ==> is_object_id_text(c@))
            &&& !amount_negative
            &&& rfc3339_accepts(a.due_date@)
        },
{
    validate_non_empty(a.name.as_str(), "name")?;
    validate_flow_type(a.flow_type.as_str())?;
    validate_planned_status(a.status.as_str())?;
    validate_object_id(a.category_id.as_str(), "category-id")?;
    validate_object_id(a.account_expected_id.as_str(), "account-expected-id")?;
    validate_optional_object_id(opt_str(&a.contact_id), "contact-id")?;
    validate_optional_object_id(opt_str(&a.project_id), "project-id")?;
    validate_optional_object_id(opt_str(&a.recurring_plan_id), "recurring-plan-id")?;
    check_flag(amount_negative, "amount-estimated must be greater than or equal to zero")?;
    check_rfc3339(a.due_date.as_str(), "due-date")
}

/// The arguments of `finance transaction create/update` besides the amount.
#[derive(Debug, Clone)]
pub struct TransactionArgs {
    pub date: String,
    pub description: String,
    pub transaction_type: String,
    pub category_id: String,
    pub account_from_id: Option<String>,
    pub account_to_id: Option<String>,
    pub planned_entry_id: Option<String>,
}

pub open spec fn transaction_problem(a: TransactionArgs, amount_negative: bool) -> Option<Seq<char>> {
    first(required_problem(a.description@, "description"@),
    first(transaction_type_problem(a.transaction_type@),
    first(id_problem(a.category_id@, "category-id"@),
    first(opt_id_problem(opt_seq(a.account_from_id), "account-from-id"@),
    first(opt_id_problem(opt_seq(a.account_to_id), "account-to-id"@),
    first(opt_id_problem(opt_seq(a.planned_entry_id), "planned-entry-id"@),
    first(flag_problem(amount_negative, "amount must be greater than or equal to zero"@),
    rfc3339_problem(a.date@, "date"@))))))))
}

/// Checks the arguments of a transaction.
pub fn check_transaction_args(a: &TransactionArgs, amount_negative: bool) -> (r: Result<(), String>)
    ensures
        problem(r) == transaction_problem(*a, amount_negative),
        r is Ok <==> {
            &&& trim_spec(a.description@).len() > 0
            &&& (a.transaction_type@ == "income"@ || a.transaction_type@ == "expense"@ || a.transaction_type@ == "transfer"@)
            &&& is_object_id_text(a.category_id@)
            &&& (a.account_from_id matches Some(c) ==> is_object_id_text(c@))
            &&& (a.account_to_id matches Some(c) ==> is_object_id_text(c@))
            &&& (a.planned_entry_id matches Some(c) ==> is_object_id_text(c@))
            &&& !amount_negative
            &&& rfc3339_accepts(a.date@)
        },
{
    validate_non_empty(a.description.as_str(), "description")?;
    validate_transaction_type(a.transaction_type.as_str())?;
    validate_object_id(a.category_id.as_str(), "category-id")?;
    validate_optional_object_id(opt_str(&a.account_from_id), "account-from-id")?;
    validate_optional_object_id(opt_str(&a.account_to_id), "account-to-id")?;
    validate_optional_object_id(opt_str(&a.planned_entry_id), "planned-entry-id")?;
    check_flag(amount_negative, "amount must be greater than or equal to zero")?;
    check_rfc3339(a.date.as_str(), "date")
}

/// The arguments of `finance forecast create/update` that are checked.
#[derive(Debug, Clone)]
pub struct ForecastArgs {
    pub currency: String,
    pub generated_at: String,
    pub start_date: String,
    pub end_date: String,
    pub generated_by_user_id: Option<String>,
}

/// Checks the arguments of a forecast and normalizes its three dates
/// (generation, start, end).
pub fn check_forecast_args(a: &ForecastArgs) -> (r: Result<(String, String, String), String>)
    ensures
        required_problem(a.currency@, "currency"@) matches Some(m) ==> (r matches Err(e) && e@ == m),
        required_problem(a.currency@, "currency"@) is None ==> match (
            timeline_bound_spec(a.generated_at@, "generated-at"@),
            timeline_bound_spec(a.start_date@, "start-date"@),
            timeline_bound_spec(a.end_date@, "end-date"@),
        ) {
            (Err(m), _, _) => r matches Err(e) && e@ == m,
            (Ok(_), Err(m), _) => r matches Err(e) && e@ == m,
            (Ok(_), Ok(_), Err(m)) => r matches Err(e) && e@ == m,
            (Ok(g), Ok(s), Ok(t)) => match opt_id_problem(opt_seq(a.generated_by_user_id), "generated-by-user-id"@) {
                Some(m) => r matches Err(e) && e@ == m,
                None => r matches Ok(v) && v.0@ == g && v.1@ == s && v.2@ == t,
            },
        },
{
    validate_non_empty(a.currency.as_str(), "currency")?;
    let generated_at = normalize_timeline_bound(a.generated_at.as_str(), "generated-at")?;
    let start_date = normalize_timeline_bound(a.start_date.as_str(), "start-date")?;
    let end_date = normalize_timeline_bound(a.end_date.as_str(), "end-date")?;
    validate_optional_object_id(opt_str(&a.generated_by_user_id), "generated-by-user-id")?;
    Ok((generated_at, start_date, end_date))
}

/// Checks the arguments of a project status: it needs a name.
pub fn check_project_status_args(name: &str) -> (r: Result<(), String>)
    ensures
        problem(r) == required_problem(name@, "name"@),
{
    validate_non_empty(name, "name")
}

/// Checks the arguments of a project concept: a name, a quantity above zero
/// (`quantity_positive`), and a status that is an identifier when given.
pub fn check_project_concept_args(name: &str, quantity_positive: bool, status_id: &Option<String>) -> (r: Result<(), String>)
    ensures
        problem(r) == first(required_problem(name@, "name"@),
            first(flag_problem(!quantity_positive, "quantity must be greater than zero"@),
            opt_id_problem(opt_seq(*status_id), "status-id"@))),
{
    validate_non_empty(name, "name")?;
    check_flag(!quantity_positive, "quantity must be greater than zero")?;
    validate_optional_object_id(opt_str(status_id), "status-id")
}

/// Checks the arguments of paying one planned entry, then returns the payment time.
pub fn check_pay_args(id: &str, account_id: &str, project_id: &Option<String>, parent_id: &Option<String>, amount_negative: bool, paid_at: &str) -> (r: Result<String, String>)
    ensures
        match first(id_problem(id@, "id"@),
            first(id_problem(account_id@, "account-id"@),
            first(opt_id_problem(opt_seq(*project_id), "project-id"@),
            first(opt_id_problem(opt_seq(*parent_id), "parent-planned-entry-id"@),
            first(flag_problem(amount_negative, "amount must be greater than or equal to zero"@),
            rfc3339_problem(paid_at@, "paid-at"@)))))) {
            Some(m) => r matches Err(e) && e@ == m,
            None => r matches Ok(s) && s@ == paid_at@,
        },
{
    validate_object_id(id, "id")?;
    validate_object_id(account_id, "account-id")?;
    validate_optional_object_id(opt_str(project_id), "project-id")?;
    validate_optional_object_id(opt_str(parent_id), "parent-planned-entry-id")?;
    check_flag(amount_negative, "amount must be greater than or equal to zero")?;
    validate_rfc3339(paid_at, "paid-at")
}

/// Whether some entry identifier of a bulk payment is not an identifier.
pub open spec fn bad_entry_id(ids: Seq<String>) -> bool {
    exists|i: int| 0 <= i < ids.len() && !is_object_id_text(#[trigger] ids[i]@)
}

/// Checks the arguments of a bulk payment (every entry, then the account,
/// project, parent and time), then returns the payment time.
pub fn check_bulk_pay_args(entry_ids: &Vec<String>, account_id: &str, project_id: &Option<String>, parent_id: &Option<String>, paid_at: &str) -> (r: Result<String, String>)
    ensures
        bad_entry_id(entry_ids@) ==> (r matches Err(e) && e@ == "entry-id must be a 24-character ObjectId"@),
        !bad_entry_id(entry_ids@) ==> match first(id_problem(account_id@, "account-id"@),
            first(opt_id_problem(opt_seq(*project_id), "project-id"@),
            first(opt_id_problem(opt_seq(*parent_id), "parent-planned-entry-id"@),
            rfc3339_problem(paid_at@, "paid-at"@)))) {
            Some(m) => r matches Err(e) && e@ == m,
            None => r matches Ok(s) && s@ == paid_at@,
        },
{
    let mut i: usize = 0;
    while i < entry_ids.len()
        invariant
            i <= entry_ids@.len(),
            forall|j: int| 0 <= j < i ==> is_object_id_text(#[trigger] entry_ids@[j]@),
        decreases entry_ids.len() - i,
    {
        if let Err(m) = validate_object_id(entry_ids[i].as_str(), "entry-id") {
            proof {
                reveal_strlit("entry-id");
                reveal_strlit(" must be a 24-character ObjectId");
                reveal_strlit("entry-id must be a 24-character ObjectId");
                assert(m@ =~= "entry-id must be a 24-character ObjectId"@);
            }
            return Err(m);
        }
        i = i + 1;
    }
    validate_object_id(account_id, "account-id")?;
    validate_optional_object_id(opt_str(project_id), "project-id")?;
    validate_optional_object_id(opt_str(parent_id), "parent-planned-entry-id")?;
    validate_rfc3339(paid_at, "paid-at")
}

/// Checks the times of a resource usage; `cost_negative` tells whether a
/// given hourly cost is below zero (an update gives one, a creation does not).
pub fn check_usage_times(cost_negative: bool, started_at: &str, ended_at: &Option<String>) -> (r: Result<(), String>)
    ensures
        problem(r) == first(flag_problem(cost_negative, "hourly-cost-snapshot must be greater than or equal to zero"@),
            first(rfc3339_problem(started_at@, "started-at"@), opt_rfc3339_problem(opt_seq(*ended_at), "ended-at"@))),
{
    check_flag(cost_negative, "hourly-cost-snapshot must be greater than or equal to zero")?;
    check_rfc3339(started_at, "started-at")?;
    check_opt_rfc3339(ended_at, "ended-at")
}

/// A delete command needs `--yes`, then an identifier.
pub fn check_delete(yes: bool, id: &str, label: &str) -> (r: Result<(), String>)
    ensures
        !yes ==> (r matches Err(e) && e@ == label@ + " delete is destructive; rerun with --yes to confirm"@),
        yes ==> problem(r) == id_problem(id@, "id"@),
{
    if !yes {
        return Err(String::from_str(label).concat(" delete is destructive; rerun with --yes to confirm"));
    }
    validate_object_id(id, "id")
}

/// The path of a timeline request.
pub fn timeline_path(mode: &str, from: &str, to: &str) -> (r: Result<String, String>)
    ensures
        problem(match r { Ok(_) => Ok(()), Err(m) => Err(m) }) == first(
            if mode@ == "day"@ || mode@ == "week"@ || mode@ == "month"@ || mode@ == "year"@ { None } else { Some("mode must be one of: day, week, month, year"@) },
            match timeline_bound_spec(from@, "from"@) {
                Err(m) => Some(m),
                Ok(_) => match timeline_bound_spec(to@, "to"@) {
                    Err(m) => Some(m),
                    Ok(_) => None,
                },
            }),
        r matches Ok(p) ==> p@ == "/api/tiempo?mode="@ + mode@ + "&from="@ + timeline_bound_spec(from@, "from"@)->Ok_0
            + "&to="@ + timeline_bound_spec(to@, "to"@)->Ok_0,
{
    validate_timeline_mode(mode)?;
    let f = normalize_timeline_bound(from, "from")?;
    let t = normalize_timeline_bound(to, "to")?;
    let mut p = String::from_str("/api/tiempo?mode=");
    p.append(mode);
    p.append("&from=");
    p.append(f.as_str());
    p.append("&to=");
    p.append(t.as_str());
    Ok(p)
}

/// One `concept_id:ratio[:notes]` allocation of a resource usage, split at
/// its first two colons: the concept, the ratio text, and the notes if any.
pub open spec fn allocation_parts(a: Seq<char>) -> (Seq<char>, Option<Seq<char>>, Option<Seq<char>>) {
    let i = first_index_of(a, ':');
    if i >= a.len() {
        (a, None, None)
    } else {
        let rest = a.subrange(i + 1, a.len() as int);
        let j = first_index_of(rest, ':');
        if j >= rest.len() {
            (a.subrange(0, i), Some(rest), None)
        } else {
            (a.subrange(0, i), Some(rest.subrange(0, j)), Some(rest.subrange(j + 1, rest.len() as int)))
        }
    }
}

/// Splits one allocation and checks its concept; the ratio text is returned
/// for the caller to read as a number.
pub fn split_allocation(a: &str) -> (r: Result<(String, String, Option<String>), String>)
    ensures
        allocation_parts(a@).1 is None ==> (r matches Err(e) && e@ == "allocation must be concept_id:ratio[:notes]"@),
        allocation_parts(a@).1 is Some && !is_object_id_text(allocation_parts(a@).0) ==> (r matches Err(e)
            && e@ == "allocation concept-id must be a 24-character ObjectId"@),
        allocation_parts(a@).1 is Some && is_object_id_text(allocation_parts(a@).0) ==> (r matches Ok(p)
            && p.0@ == allocation_parts(a@).0 && Some(p.1@) == allocation_parts(a@).1
            && match p.2 { Some(n) => allocation_parts(a@).2 == Some(n@), None => allocation_parts(a@).2 is None }),
{
    let concept = before_char(a, ':');
    let rest = match after_char(a, ':') {
        Some(r) => r,
        None => return Err(String::from_str("allocation must be concept_id:ratio[:notes]")),
    };
    if let Err(m) = validate_object_id(concept, "allocation concept-id") {
        proof {
            reveal_strlit("allocation concept-id");
            reveal_strlit(" must be a 24-character ObjectId");
            reveal_strlit("allocation concept-id must be a 24-character ObjectId");
            assert(m@ =~= "allocation concept-id must be a 24-character ObjectId"@);
        }
        return Err(m);
    }
    let ratio = before_char(rest, ':');
    let notes = match after_char(rest, ':') {
        Some(n) => Some(String::from_str(n)),
        None => None,
    };
    Ok((String::from_str(concept), String::from_str(ratio), notes))
}

} // verus!
