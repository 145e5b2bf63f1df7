//! CFDI download jobs: the request that starts them, access to their status,
//! and how a finished download turns imported CFDIs into planned entries.

use vstd::prelude::*;
use vstd::string::StrSliceExecFns;
use vstd::string::StringExecFns;
use crate::access::RequestError;
use crate::cfdi::ImportedCfdi;
use crate::cfdi_download::{CfdiJobStatus, DownloadType};
use crate::ids::{ObjectId, is_object_id_text, object_id_bytes};
use crate::models::{ContactType, FlowType};
use crate::text::{same_text, text_le, text_le_exec, lemma_text_le_total, lemma_text_le_transitive};

verus! {

/// The form that starts a CFDI download for a company.
#[derive(Debug, Clone)]
pub struct CfdiDownloadForm {
    pub sat_config_id: String,
    pub start: String,
    pub end: String,
    pub download_type: String,
    pub auto_create_payments: bool,
}

/// A started job: its identifier and the month it covers.
#[derive(Debug, Clone)]
pub struct StartedJobInfo {
    pub job_id: String,
    pub label: String,
}

/// The jobs a download request started, one per month.
#[derive(Debug, Clone)]
pub struct StartedJobs {
    pub jobs: Vec<StartedJobInfo>,
}

/// A started job as the jobs listing reads it: its company and the first
/// instant of the month it covers.
#[derive(Debug, Clone)]
pub struct JobListing {
    pub company_id: String,
    pub chunk_start: String,
}

/// The order of a company's jobs in its listing: the positions of the jobs of
/// that company, each once, sorted by the first instant of their month in
/// character order.
pub fn company_job_order(jobs: &Vec<JobListing>, company_id: &str) -> (r: Vec<usize>)
    ensures
        r@.no_duplicates(),
        forall|k: int| 0 <= k < r@.len() ==> #[trigger] r@[k] < jobs@.len() && jobs@[r@[k] as int].company_id@ == company_id@,
        forall|j: int| 0 <= j < jobs@.len() && jobs@[j].company_id@ == company_id@ ==> r@.contains(j as usize),
        forall|a: int, b: int| 0 <= a < b < r@.len() ==> text_le(
            #[trigger] jobs@[r@[a] as int].chunk_start@, #[trigger] jobs@[r@[b] as int].chunk_start@),
{
    let mut out: Vec<usize> = Vec::new();
    let mut j: usize = 0;
    while j < jobs.len()
        invariant
            j <= jobs@.len(),
            out@.no_duplicates(),
            forall|k: int| 0 <= k < out@.len() ==> #[trigger] out@[k] < j && jobs@[out@[k] as int].company_id@ == company_id@,
            forall|q: int| 0 <= q < j && jobs@[q].company_id@ == company_id@ ==> out@.contains(q as usize),
            forall|a: int, b: int| 0 <= a < b < out@.len() ==> text_le(
                #[trigger] jobs@[out@[a] as int].chunk_start@, #[trigger] jobs@[out@[b] as int].chunk_start@),
        decreases jobs.len() - j,
    {
        if same_text(jobs[j].company_id.as_str(), company_id) {
            let ghost key = jobs@[j as int].chunk_start@;
            let mut p: usize = out.len();
            while p > 0 && !text_le_exec(jobs[out[p - 1]].chunk_start.as_str(), jobs[j].chunk_start.as_str())
                invariant
                    p <= out@.len(),
                    j < jobs@.len(),
                    key == jobs@[j as int].chunk_start@,
                    forall|k: int| 0 <= k < out@.len() ==> #[trigger] out@[k] < j,
                    forall|q: int| p <= q < out@.len() ==> !text_le(#[trigger] jobs@[out@[q] as int].chunk_start@, key),
                decreases p,
            {
                p = p - 1;
            }
            let ghost before = out@;
            out.insert(p, j);
            proof {
                before.insert_ensures(p as int, j);
                assert forall|a: int, b: int| 0 <= a < b < out@.len() implies text_le(
                    #[trigger] jobs@[out@[a] as int].chunk_start@, #[trigger] jobs@[out@[b] as int].chunk_start@) by {
                    let oa = if a < p { a } else if a == p { -1 } else { a - 1 };
                    let ob = if b < p { b } else if b == p { -1 } else { b - 1 };
                    if a == p {
                        // the new job against a later one
                        lemma_text_le_total(jobs@[before[ob] as int].chunk_start@, key);
                    } else if b == p {
                        // an earlier one against the new job
                        if oa < p - 1 {
                            lemma_text_le_transitive(
                                jobs@[before[oa] as int].chunk_start@,
                                jobs@[before[p - 1] as int].chunk_start@,
                                key,
                            );
                        }
                    } else {
                        assert(out@[a] == before[oa] && out@[b] == before[ob]);
                    }
                }
                assert forall|x: int, y: int| 0 <= x < out@.len() && 0 <= y < out@.len() && x != y implies out@[x] != out@[y] by {
                    if x != p as int && y != p as int {
                        let ox = if x < p { x } else { x - 1 };
                        let oy = if y < p { y } else { y - 1 };
                        assert(out@[x] == before[ox] && out@[y] == before[oy]);
                    } else if x == p as int {
                        let oy = if y < p { y } else { y - 1 };
                        assert(before[oy] < j);
                    } else {
                        let ox = if x < p { x } else { x - 1 };
                        assert(before[ox] < j);
                    }
                }
                assert forall|q: int| 0 <= q < j + 1 && jobs@[q].company_id@ == company_id@ implies out@.contains(q as usize) by {
                    if q == j {
                        assert(out@[p as int] == j);
                    } else {
                        assert(before.contains(q as usize));
                        let w = choose|w: int| 0 <= w < before.len() && before[w] == q as usize;
                        if w < p {
                            assert(out@[w] == q as usize);
                        } else {
                            assert(out@[w + 1] == q as usize);
                        }
                    }
                }
                assert forall|k: int| 0 <= k < out@.len() implies #[trigger] out@[k] < j + 1
                    && jobs@[out@[k] as int].company_id@ == company_id@ by {
                    if k < p {
                        assert(out@[k] == before[k]);
                    } else if k > p {
                        assert(out@[k] == before[k - 1]);
                    }
                }
            }
        }
        j = j + 1;
    }
    out
}

/// A refused download request: its status and the message of its JSON body.
#[derive(Debug, Clone)]
pub struct DownloadRefusal {
    pub status: RequestError,
    pub message: String,
}

/// Reads the company and SAT configuration identifiers of a download request.
pub fn parse_download_ids(company_id: &str, form: &CfdiDownloadForm) -> (r: Result<(ObjectId, ObjectId), DownloadRefusal>)
    ensures
        !is_object_id_text(company_id@) ==> (r matches Err(e) && e.status == RequestError::BadRequest
            && e.message@ == "company_id inválido"@),
        is_object_id_text(company_id@) && !is_object_id_text(form.sat_config_id@) ==> (r matches Err(e)
            && e.status == RequestError::BadRequest && e.message@ == "sat_config_id inválido"@),
        is_object_id_text(company_id@) && is_object_id_text(form.sat_config_id@) ==> (r matches Ok(p)
            && p.0.bytes@ == object_id_bytes(company_id@) && p.1.bytes@ == object_id_bytes(form.sat_config_id@)),
{
    let company = match ObjectId::parse_str(company_id) {
        Some(id) => id,
        None => return Err(DownloadRefusal { status: RequestError::BadRequest, message: String::from_str("company_id inválido") }),
    };
    let config = match ObjectId::parse_str(form.sat_config_id.as_str()) {
        Some(id) => id,
        None => return Err(DownloadRefusal { status: RequestError::BadRequest, message: String::from_str("sat_config_id inválido") }),
    };
    Ok((company, config))
}

/// What looking up a SAT configuration returned: the company that owns it,
/// no such configuration, or a failed lookup.
#[derive(Debug, Clone, Copy)]
pub enum ConfigLookup {
    Found(ObjectId),
    Missing,
    Failed,
}

/// The SAT configuration of a download must exist and belong to the company.
/// A refusal carries its status and the message of its JSON body (none for a
/// foreign configuration).
pub fn check_sat_config(lookup: &ConfigLookup, company: &ObjectId) -> (r: Result<(), (RequestError, Option<String>)>)
    ensures
        match *lookup {
            ConfigLookup::Found(owner) => if owner.bytes@ == company.bytes@ {
                r is Ok
            } else {
                r matches Err(e) && e.0 == RequestError::Forbidden && e.1 is None
            },
            ConfigLookup::Missing => r matches Err(e) && e.0 == RequestError::NotFound
                && (e.1 matches Some(m) && m@ == "Configuración SAT no encontrada"@),
            ConfigLookup::Failed => r matches Err(e) && e.0 == RequestError::Internal
                && (e.1 matches Some(m) && m@ == "Error de base de datos"@),
        },
{
    match lookup {
        ConfigLookup::Found(owner) => if owner.same_as(company) {
            Ok(())
        } else {
            Err((RequestError::Forbidden, None))
        },
        ConfigLookup::Missing => Err((RequestError::NotFound, Some(String::from_str("Configuración SAT no encontrada")))),
        ConfigLookup::Failed => Err((RequestError::Internal, Some(String::from_str("Error de base de datos")))),
    }
}

/// A job's status may be read from the company that started it; an unknown
/// job is not found.
pub fn check_job_access(job_company: Option<&str>, company_id: &str) -> (r: Result<(), RequestError>)
    ensures
        match job_company {
            Some(c) => if c@ == company_id@ {
                r is Ok
            } else {
                r == Err::<(), RequestError>(RequestError::Forbidden)
            },
            None => r == Err::<(), RequestError>(RequestError::NotFound),
        },
{
    match job_company {
        Some(c) => if same_text(c, company_id) {
            Ok(())
        } else {
            Err(RequestError::Forbidden)
        },
        None => Err(RequestError::NotFound),
    }
}

/// Only income ("I") and expense ("E") CFDIs become planned entries.
pub fn is_commitment_kind(tipo: &str) -> (b: bool)
    ensures
        b == (tipo@ == "I"@ || tipo@ == "E"@),
{
    same_text(tipo, "I") || same_text(tipo, "E")
}

/// How an imported CFDI is booked: its flow, the contact on the other side
/// (RFC, name, kind) and the description of the planned entry.
#[derive(Debug, Clone)]
pub struct CommitmentPlan {
    pub flow_type: FlowType,
    pub contact_rfc: String,
    pub contact_name: String,
    pub contact_type: ContactType,
    pub description: String,
}

/// An issued CFDI is income from its receiver, a customer; a received one is
/// an expense to its issuer, a supplier. The description is the other
/// party's name, a dash and the UUID.
pub fn commitment_for(dl_type: DownloadType, item: &ImportedCfdi) -> (r: CommitmentPlan)
    ensures
        dl_type == DownloadType::Issued ==> {
            &&& r.flow_type == FlowType::Income
            &&& r.contact_rfc@ == item.receptor_rfc@
            &&& r.contact_name@ == item.receptor_nombre@
            &&& r.contact_type == ContactType::Customer
            &&& r.description@ == item.receptor_nombre@ + " — "@ + item.uuid@
        },
        dl_type == DownloadType::Received ==> {
            &&& r.flow_type == FlowType::Expense
            &&& r.contact_rfc@ == item.emisor_rfc@
            &&& r.contact_name@ == item.emisor_nombre@
            &&& r.contact_type == ContactType::Supplier
            &&& r.description@ == item.emisor_nombre@ + " — "@ + item.uuid@
        },
{
    match dl_type {
        DownloadType::Issued => {
            let mut d = item.receptor_nombre.clone();
            d.append(" — ");
            d.append(item.uuid.as_str());
            CommitmentPlan {
                flow_type: FlowType::Income,
                contact_rfc: item.receptor_rfc.clone(),
                contact_name: item.receptor_nombre.clone(),
                contact_type: ContactType::Customer,
                description: d,
            }
        },
        DownloadType::Received => {
            let mut d = item.emisor_nombre.clone();
            d.append(" — ");
            d.append(item.uuid.as_str());
            CommitmentPlan {
                flow_type: FlowType::Expense,
                contact_rfc: item.emisor_rfc.clone(),
                contact_name: item.emisor_nombre.clone(),
                contact_type: ContactType::Supplier,
                description: d,
            }
        },
    }
}

/// What went wrong while a job ran, each with the text it is reported under.
#[derive(Debug, Clone, Copy, PartialEq, Eq, Structural)]
pub enum JobProblem {
    /// Reading a downloaded package from disk.
    ReadZip,
    /// Importing the CFDIs of a package.
    Import,
    /// Finding the category of a CFDI.
    Category,
    /// Finding the SAT account.
    SatAccount,
    /// Creating or updating the planned entry of a CFDI.
    Commitment,
    /// Paying the planned entry of a CFDI.
    AutoPayment,
}

pub open spec fn problem_text(p: JobProblem, subject: Seq<char>, detail: Seq<char>) -> Seq<char> {
    match p {
        JobProblem::ReadZip => "No se pudo leer ZIP "@ + subject + ": "@ + detail,
        JobProblem::Import => "Error importando "@ + subject + ": "@ + detail,
        JobProblem::Category => "Error categoría para "@ + subject + ": "@ + detail,
        JobProblem::SatAccount => "Error cuenta SAT: "@ + detail,
        JobProblem::Commitment => "Error compromiso CFDI "@ + subject + ": "@ + detail,
        JobProblem::AutoPayment => "Error pago automático "@ + subject + ": "@ + detail,
    }
}

/// The text a problem is reported under: what failed, on what (a package,
/// a path or a UUID), and the error.
pub fn problem_message(p: JobProblem, subject: &str, detail: &str) -> (r: String)
    ensures
        r@ == problem_text(p, subject@, detail@),
{
    let mut s = match p {
        JobProblem::ReadZip => String::from_str("No se pudo leer ZIP "),
        JobProblem::Import => String::from_str("Error importando "),
        JobProblem::Category => String::from_str("Error categoría para "),
        JobProblem::SatAccount => String::from_str("Error cuenta SAT: "),
        JobProblem::Commitment => String::from_str("Error compromiso CFDI "),
        JobProblem::AutoPayment => String::from_str("Error pago automático "),
    };
    if p != JobProblem::SatAccount {
        s.append(subject);
        s.append(": ");
    }
    s.append(detail);
    s
}

/// The planned entry an imported CFDI is booked as, as `commitment_for` makes it.
pub open spec fn commitment_matches(r: CommitmentPlan, dl_type: DownloadType, item: ImportedCfdi) -> bool {
    &&& dl_type == DownloadType::Issued ==> {
        &&& r.flow_type == FlowType::Income
        &&& r.contact_rfc@ == item.receptor_rfc@
        &&& r.contact_name@ == item.receptor_nombre@
        &&& r.contact_type == ContactType::Customer
        &&& r.description@ == item.receptor_nombre@ + " — "@ + item.uuid@
    }
    &&& dl_type == DownloadType::Received ==> {
        &&& r.flow_type == FlowType::Expense
        &&& r.contact_rfc@ == item.emisor_rfc@
        &&& r.contact_name@ == item.emisor_nombre@
        &&& r.contact_type == ContactType::Supplier
        &&& r.description@ == item.emisor_nombre@ + " — "@ + item.uuid@
    }
}

/// What a finished download does with one imported CFDI before anything is stored.
#[derive(Debug, Clone)]
pub enum CfdiStep {
    /// Not an income or expense voucher, or a zero total: skipped.
    Skip,
    /// A record it needs could not be had: the problem is noted and the CFDI skipped.
    SkipWithProblem(String),
    /// Booked as a planned entry in this category, against the SAT account.
    Book { category_id: ObjectId, sat_account_id: ObjectId, plan: CommitmentPlan },
}

/// Decides what happens to an imported CFDI, in the order the job checks:
/// only income and expense vouchers are booked; an issued one needs the
/// income category, a received one the expense category; then the SAT
/// account; then a total other than zero (`total_is_zero` tells whether its
/// total reads as zero). The categories and the account are what looking
/// them up answered.
pub fn decide_cfdi(
    dl_type: DownloadType,
    item: &ImportedCfdi,
    income_category: &Result<ObjectId, String>,
    expense_category: &Result<ObjectId, String>,
    sat_account: &Result<ObjectId, String>,
    total_is_zero: bool,
) -> (r: CfdiStep)
    ensures
        ({
            let category = if dl_type == DownloadType::Issued { *income_category } else { *expense_category };
            if !(item.tipo_de_comprobante@ == "I"@ || item.tipo_de_comprobante@ == "E"@) {
                r is Skip
            } else if category is Err {
                r matches CfdiStep::SkipWithProblem(m)
                    && m@ == problem_text(JobProblem::Category, item.uuid@, category->Err_0@)
            } else if sat_account is Err {
                r matches CfdiStep::SkipWithProblem(m)
                    && m@ == problem_text(JobProblem::SatAccount, item.uuid@, sat_account->Err_0@)
            } else if total_is_zero {
                r is Skip
            } else {
                r matches CfdiStep::Book { category_id, sat_account_id, plan }
                    && category_id == category->Ok_0 && sat_account_id == sat_account->Ok_0
                    && commitment_matches(plan, dl_type, *item)
            }
        }),
{
    if !is_commitment_kind(item.tipo_de_comprobante.as_str()) {
        return CfdiStep::Skip;
    }
    let category = match dl_type {
        DownloadType::Issued => income_category,
        DownloadType::Received => expense_category,
    };
    let category_id = match category {
        Ok(id) => *id,
        Err(e) => return CfdiStep::SkipWithProblem(problem_message(JobProblem::Category, item.uuid.as_str(), e.as_str())),
    };
    let sat_account_id = match sat_account {
        Ok(id) => *id,
        Err(e) => return CfdiStep::SkipWithProblem(problem_message(JobProblem::SatAccount, item.uuid.as_str(), e.as_str())),
    };
    if total_is_zero {
        return CfdiStep::Skip;
    }
    CfdiStep::Book { category_id, sat_account_id, plan: commitment_for(dl_type, item) }
}

/// What booking a CFDI involves besides its planned entry: looking up (or
/// creating) the contact, and paying the entry at once.
#[derive(Debug, Clone, Copy)]
pub struct BookingActions {
    pub look_up_contact: bool,
    pub pay: bool,
}

/// The contact is looked up only when the commitment names its RFC; the
/// entry is paid at once only when the job was asked to create payments.
pub fn booking_actions(plan: &CommitmentPlan, auto_create_payments: bool) -> (r: BookingActions)
    ensures
        r.look_up_contact == (plan.contact_rfc@.len() > 0),
        r.pay == auto_create_payments,
{
    BookingActions { look_up_contact: plan.contact_rfc.unicode_len() > 0, pay: auto_create_payments }
}

/// The running account of a job: planned entries created, updated and
/// skipped, and the problems met.
#[derive(Debug, Clone)]
pub struct JobTally {
    pub created: usize,
    pub updated: usize,
    pub skipped: usize,
    pub errors: Vec<String>,
}

impl JobTally {
    /// How many imported CFDIs the tally has accounted for.
    pub open spec fn counted(&self) -> int {
        self.created + self.updated + self.skipped
    }

    pub fn new() -> (t: JobTally)
        ensures
            t.created == 0 && t.updated == 0 && t.skipped == 0,
            t.errors@.len() == 0,
    {
        JobTally { created: 0, updated: 0, skipped: 0, errors: Vec::new() }
    }

    /// Notes a problem that does not decide the fate of a CFDI.
    pub fn note(&mut self, message: String)
        ensures
            final(self).created == old(self).created,
            final(self).updated == old(self).updated,
            final(self).skipped == old(self).skipped,
            final(self).errors@ == old(self).errors@.push(message),
    {
        self.errors.push(message);
    }

    /// A CFDI that becomes no planned entry.
    pub fn skip(&mut self)
        requires
            old(self).skipped < usize::MAX,
        ensures
            final(self).created == old(self).created,
            final(self).updated == old(self).updated,
            final(self).skipped == old(self).skipped + 1,
            final(self).errors@ == old(self).errors@,
            final(self).counted() == old(self).counted() + 1,
    {
        self.skipped = self.skipped + 1;
    }

    /// A CFDI booked as a new planned entry (`created`) or into an existing one.
    pub fn record(&mut self, created: bool)
        requires
            old(self).created < usize::MAX,
            old(self).updated < usize::MAX,
        ensures
            created ==> final(self).created == old(self).created + 1 && final(self).updated == old(self).updated,
            !created ==> final(self).updated == old(self).updated + 1 && final(self).created == old(self).created,
            final(self).skipped == old(self).skipped,
            final(self).errors@ == old(self).errors@,
            final(self).counted() == old(self).counted() + 1,
    {
        if created {
            self.created = self.created + 1;
        } else {
            self.updated = self.updated + 1;
        }
    }

    /// Accounts for a CFDI decided without storing anything: it is skipped,
    /// after its problem (if any) is noted.
    pub fn settle(&mut self, step: &CfdiStep)
        requires
            !(step is Book),
            old(self).skipped < usize::MAX,
        ensures
            final(self).created == old(self).created,
            final(self).updated == old(self).updated,
            final(self).skipped == old(self).skipped + 1,
            final(self).errors@ == match step {
                CfdiStep::SkipWithProblem(m) => old(self).errors@.push(*m),
                _ => old(self).errors@,
            },
            final(self).counted() == old(self).counted() + 1,
    {
        match step {
            CfdiStep::SkipWithProblem(m) => self.note(m.clone()),
            _ => {},
        }
        self.skip();
    }

    /// Accounts for a booked CFDI given what storing its planned entry
    /// answered: `Ok(created)`, or the store's error, which is noted and skips it.
    pub fn settle_booking(&mut self, uuid: &str, stored: Result<bool, String>)
        requires
            old(self).created < usize::MAX,
            old(self).updated < usize::MAX,
            old(self).skipped < usize::MAX,
        ensures
            final(self).counted() == old(self).counted() + 1,
            match stored {
                Ok(created) => {
                    &&& final(self).created == old(self).created + (if created { 1int } else { 0int })
                    &&& final(self).updated == old(self).updated + (if created { 0int } else { 1int })
                    &&& final(self).skipped == old(self).skipped
                    &&& final(self).errors@ == old(self).errors@
                },
                Err(e) => {
                    &&& final(self).created == old(self).created
                    &&& final(self).updated == old(self).updated
                    &&& final(self).skipped == old(self).skipped + 1
                    &&& final(self).errors@.len() == old(self).errors@.len() + 1
                    &&& final(self).errors@.drop_last() == old(self).errors@
                    &&& final(self).errors@.last()@ == problem_text(JobProblem::Commitment, uuid@, e@)
                },
            },
    {
        match stored {
            Ok(created) => self.record(created),
            Err(e) => {
                self.note(problem_message(JobProblem::Commitment, uuid, e.as_str()));
                self.skip();
            },
        }
    }

    /// The final status of the job, after `imported` CFDIs were imported, each
    /// of them accounted for once as created, updated or skipped.
    pub fn finish(self, imported: usize) -> (s: CfdiJobStatus)
        requires
            self.counted() == imported,
        ensures
            s matches CfdiJobStatus::Done { imported: i, transactions_created: c, transactions_updated: u,
                transactions_skipped: k, errors: e } && i == imported && c == self.created
                && u == self.updated && k == self.skipped && e@ == self.errors@,
    {
        CfdiJobStatus::Done {
            imported,
            transactions_created: self.created,
            transactions_updated: self.updated,
            transactions_skipped: self.skipped,
            errors: self.errors,
        }
    }
}

/// Milliseconds since the epoch of a CFDI date (`%Y-%m-%dT%H:%M:%S`, read
/// as UTC), as the calendar library reads it; `None` when it cannot.
pub uninterp spec fn cfdi_date_millis_of(fecha: Seq<char>) -> Option<i64>;

/// Calls `chrono::NaiveDateTime::parse_from_str(fecha, "%Y-%m-%dT%H:%M:%S")`,
/// places it in UTC and reads `timestamp_millis()`. The result is named.
#[verifier::external_body]
fn chrono_cfdi_datetime(fecha: &str) -> (r: Option<i64>)
    ensures
        r == cfdi_date_millis_of(fecha@),
{
    chrono::NaiveDateTime::parse_from_str(fecha, "%Y-%m-%dT%H:%M:%S").ok().map(
        |dt| chrono::DateTime::<chrono::Utc>::from_naive_utc_and_offset(dt, chrono::Utc).timestamp_millis(),
    )
}

/// Calls `bson::DateTime::now().timestamp_millis()`: the current time.
/// Nothing is promised of the value: it is the clock.
#[verifier::external_body]
fn bson_now_millis() -> i64 {
    bson::DateTime::now().timestamp_millis()
}

/// The date of a planned entry made from a CFDI: the CFDI's own date, or the
/// current time when that date cannot be read.
pub fn parse_cfdi_date(fecha: &str) -> (r: i64)
    ensures
        cfdi_date_millis_of(fecha@) matches Some(ms) ==> r == ms,
{
    match chrono_cfdi_datetime(fecha) {
        Some(ms) => ms,
        None => bson_now_millis(),
    }
}

} // verus!
