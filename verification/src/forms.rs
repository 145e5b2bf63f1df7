//! Form values of the finance enumerations, their select options, and the
//! field parsers shared by the finance screens and endpoints.

use vstd::prelude::*;
use vstd::string::StrSliceExecFns;
use vstd::string::StringExecFns;
use crate::models::{FlowType, AccountType, ContactType, PlannedStatus, TransactionType, flow_type_text, account_type_text, contact_type_text, planned_status_text, transaction_type_text};
use crate::text::{same_text, to_lowercase, lowercase_text};

verus! {

/// One entry of a select input.
#[derive(Debug, Clone)]
pub struct SimpleOption {
    pub value: String,
    pub label: String,
    pub selected: bool,
}

/// The FlowType named by a form value, if any.
pub open spec fn flow_type_from_text(t: Seq<char>) -> Option<FlowType> {
    if t == "income"@ {
        Some(FlowType::Income)
    } else if t == "expense"@ {
        Some(FlowType::Expense)
    } else {
        None
    }
}

/// Matches the exact form value of a FlowType.
pub fn match_flow_type(t: &str) -> (r: Option<FlowType>)
    ensures
        r == flow_type_from_text(t@),
{
    if same_text(t, "income") {
        Some(FlowType::Income)
    } else if same_text(t, "expense") {
        Some(FlowType::Expense)
    } else {
        None
    }
}

/// Parses a FlowType form value, ignoring letter case (`to_lowercase` first).
pub fn parse_flow_type(value: &str) -> (r: Result<FlowType, String>)
    ensures
        match flow_type_from_text(lowercase_text(value@)) {
            Some(v) => r == Ok::<FlowType, String>(v),
            None => r matches Err(m) && m@ == "Tipo de flujo inválido"@,
        },
{
    let lowered = to_lowercase(value);
    match match_flow_type(lowered.as_str()) {
        Some(v) => Ok(v),
        None => Err(String::from_str("Tipo de flujo inválido")),
    }
}

/// Form value of a FlowType.
pub fn flow_type_value(value: &FlowType) -> (s: &'static str)
    ensures
        s@ == flow_type_text(*value),
{
    match value {
        FlowType::Income => "income",
        FlowType::Expense => "expense",
    }
}

/// Reading back the form value of any FlowType gives that FlowType.
pub proof fn lemma_flow_type_value_roundtrip(v: FlowType)
    ensures
        flow_type_from_text(flow_type_text(v)) == Some(v),
{
    reveal_strlit("income");
    reveal_strlit("expense");
    assert("income"@.len() != "expense"@.len());
}

/// Select options for a FlowType, in declaration order, marking the one whose
/// value equals `selected`.
pub fn flow_options(selected: &str) -> (r: Vec<SimpleOption>)
    ensures
        r@.len() == 2,
        r@[0].value@ == "income"@ && r@[0].label@ == "Ingreso"@ && r@[0].selected == (selected@ == "income"@),
        r@[1].value@ == "expense"@ && r@[1].label@ == "Gasto"@ && r@[1].selected == (selected@ == "expense"@),
{
    let mut r: Vec<SimpleOption> = Vec::new();
    r.push(SimpleOption { value: String::from_str("income"), label: String::from_str("Ingreso"), selected: same_text(selected, "income") });
    r.push(SimpleOption { value: String::from_str("expense"), label: String::from_str("Gasto"), selected: same_text(selected, "expense") });
    r
}

/// The AccountType named by a form value, if any.
pub open spec fn account_type_from_text(t: Seq<char>) -> Option<AccountType> {
    if t == "bank"@ {
        Some(AccountType::Bank)
    } else if t == "cash"@ {
        Some(AccountType::Cash)
    } else if t == "credit_card"@ {
        Some(AccountType::CreditCard)
    } else if t == "investment"@ {
        Some(AccountType::Investment)
    } else if t == "other"@ {
        Some(AccountType::Other)
    } else {
        None
    }
}

/// Matches the exact form value of a AccountType.
pub fn match_account_type(t: &str) -> (r: Option<AccountType>)
    ensures
        r == account_type_from_text(t@),
{
    if same_text(t, "bank") {
        Some(AccountType::Bank)
    } else if same_text(t, "cash") {
        Some(AccountType::Cash)
    } else if same_text(t, "credit_card") {
        Some(AccountType::CreditCard)
    } else if same_text(t, "investment") {
        Some(AccountType::Investment)
    } else if same_text(t, "other") {
        Some(AccountType::Other)
    } else {
        None
    }
}

/// Parses a AccountType form value, which must match exactly.
pub fn parse_account_type(value: &str) -> (r: Result<AccountType, String>)
    ensures
        match account_type_from_text(value@) {
            Some(v) => r == Ok::<AccountType, String>(v),
            None => r matches Err(m) && m@ == "Tipo de cuenta inválido"@,
        },
{
    match match_account_type(value) {
        Some(v) => Ok(v),
        None => Err(String::from_str("Tipo de cuenta inválido")),
    }
}

/// Form value of a AccountType.
pub fn account_type_value(value: &AccountType) -> (s: &'static str)
    ensures
        s@ == account_type_text(*value),
{
    match value {
        AccountType::Bank => "bank",
        AccountType::Cash => "cash",
        AccountType::CreditCard => "credit_card",
        AccountType::Investment => "investment",
        AccountType::Other => "other",
    }
}

/// Reading back the form value of any AccountType gives that AccountType.
pub proof fn lemma_account_type_value_roundtrip(v: AccountType)
    ensures
        account_type_from_text(account_type_text(v)) == Some(v),
{
    reveal_strlit("bank");
    reveal_strlit("cash");
    reveal_strlit("credit_card");
    reveal_strlit("investment");
    reveal_strlit("other");
    assert("bank"@[0] != "cash"@[0]);
    assert("bank"@.len() != "credit_card"@.len());
    assert("bank"@.len() != "investment"@.len());
    assert("bank"@.len() != "other"@.len());
    assert("cash"@.len() != "credit_card"@.len());
    assert("cash"@.len() != "investment"@.len());
    assert("cash"@.len() != "other"@.len());
    assert("credit_card"@.len() != "investment"@.len());
    assert("credit_card"@.len() != "other"@.len());
    assert("investment"@.len() != "other"@.len());
}

/// Select options for a AccountType, in declaration order, marking the one whose
/// value equals `selected`.
pub fn account_type_options(selected: &str) -> (r: Vec<SimpleOption>)
    ensures
        r@.len() == 5,
        r@[0].value@ == "bank"@ && r@[0].label@ == "Banco"@ && r@[0].selected == (selected@ == "bank"@),
        r@[1].value@ == "cash"@ && r@[1].label@ == "Efectivo"@ && r@[1].selected == (selected@ == "cash"@),
        r@[2].value@ == "credit_card"@ && r@[2].label@ == "Tarjeta de crédito"@ && r@[2].selected == (selected@ == "credit_card"@),
        r@[3].value@ == "investment"@ && r@[3].label@ == "Inversión"@ && r@[3].selected == (selected@ == "investment"@),
        r@[4].value@ == "other"@ && r@[4].label@ == "Otra"@ && r@[4].selected == (selected@ == "other"@),
{
    let mut r: Vec<SimpleOption> = Vec::new();
    r.push(SimpleOption { value: String::from_str("bank"), label: String::from_str("Banco"), selected: same_text(selected, "bank") });
    r.push(SimpleOption { value: String::from_str("cash"), label: String::from_str("Efectivo"), selected: same_text(selected, "cash") });
    r.push(SimpleOption { value: String::from_str("credit_card"), label: String::from_str("Tarjeta de crédito"), selected: same_text(selected, "credit_card") });
    r.push(SimpleOption { value: String::from_str("investment"), label: String::from_str("Inversión"), selected: same_text(selected, "investment") });
    r.push(SimpleOption { value: String::from_str("other"), label: String::from_str("Otra"), selected: same_text(selected, "other") });
    r
}

/// The ContactType named by a form value, if any.
pub open spec fn contact_type_from_text(t: Seq<char>) -> Option<ContactType> {
    if t == "customer"@ {
        Some(ContactType::Customer)
    } else if t == "supplier"@ {
        Some(ContactType::Supplier)
    } else if t == "service"@ {
        Some(ContactType::Service)
    } else if t == "other"@ {
        Some(ContactType::Other)
    } else {
        None
    }
}

/// Matches the exact form value of a ContactType.
pub fn match_contact_type(t: &str) -> (r: Option<ContactType>)
    ensures
        r == contact_type_from_text(t@),
{
    if same_text(t, "customer") {
        Some(ContactType::Customer)
    } else if same_text(t, "supplier") {
        Some(ContactType::Supplier)
    } else if same_text(t, "service") {
        Some(ContactType::Service)
    } else if same_text(t, "other") {
        Some(ContactType::Other)
    } else {
        None
    }
}

/// Parses a ContactType form value, ignoring letter case (`to_lowercase` first).
pub fn parse_contact_type(value: &str) -> (r: Result<ContactType, String>)
    ensures
        match contact_type_from_text(lowercase_text(value@)) {
            Some(v) => r == Ok::<ContactType, String>(v),
            None => r matches Err(m) && m@ == "Tipo de contacto inválido"@,
        },
{
    let lowered = to_lowercase(value);
    match match_contact_type(lowered.as_str()) {
        Some(v) => Ok(v),
        None => Err(String::from_str("Tipo de contacto inválido")),
    }
}

/// Form value of a ContactType.
pub fn contact_type_value(value: &ContactType) -> (s: &'static str)
    ensures
        s@ == contact_type_text(*value),
{
    match value {
        ContactType::Customer => "customer",
        ContactType::Supplier => "supplier",
        ContactType::Service => "service",
        ContactType::Other => "other",
    }
}

/// Reading back the form value of any ContactType gives that ContactType.
pub proof fn lemma_contact_type_value_roundtrip(v: ContactType)
    ensures
        contact_type_from_text(contact_type_text(v)) == Some(v),
{
    reveal_strlit("customer");
    reveal_strlit("supplier");
    reveal_strlit("service");
    reveal_strlit("other");
    assert("customer"@[0] != "supplier"@[0]);
    assert("customer"@.len() != "service"@.len());
    assert("customer"@.len() != "other"@.len());
    assert("supplier"@.len() != "service"@.len());
    assert("supplier"@.len() != "other"@.len());
    assert("service"@.len() != "other"@.len());
}

/// Select options for a ContactType, in declaration order, marking the one whose
/// value equals `selected`.
pub fn contact_type_options(selected: &str) -> (r: Vec<SimpleOption>)
    ensures
        r@.len() == 4,
        r@[0].value@ == "customer"@ && r@[0].label@ == "Cliente"@ && r@[0].selected == (selected@ == "customer"@),
        r@[1].value@ == "supplier"@ && r@[1].label@ == "Proveedor"@ && r@[1].selected == (selected@ == "supplier"@),
        r@[2].value@ == "service"@ && r@[2].label@ == "Servicio"@ && r@[2].selected == (selected@ == "service"@),
        r@[3].value@ == "other"@ && r@[3].label@ == "Otro"@ && r@[3].selected == (selected@ == "other"@),
{
    let mut r: Vec<SimpleOption> = Vec::new();
    r.push(SimpleOption { value: String::from_str("customer"), label: String::from_str("Cliente"), selected: same_text(selected, "customer") });
    r.push(SimpleOption { value: String::from_str("supplier"), label: String::from_str("Proveedor"), selected: same_text(selected, "supplier") });
    r.push(SimpleOption { value: String::from_str("service"), label: String::from_str("Servicio"), selected: same_text(selected, "service") });
    r.push(SimpleOption { value: String::from_str("other"), label: String::from_str("Otro"), selected: same_text(selected, "other") });
    r
}

/// The PlannedStatus named by a form value, if any.
pub open spec fn planned_status_from_text(t: Seq<char>) -> Option<PlannedStatus> {
    if t == "planned"@ {
        Some(PlannedStatus::Planned)
    } else if t == "partially_covered"@ {
        Some(PlannedStatus::PartiallyCovered)
    } else if t == "covered"@ {
        Some(PlannedStatus::Covered)
    } else if t == "overdue"@ {
        Some(PlannedStatus::Overdue)
    } else if t == "cancelled"@ {
        Some(PlannedStatus::Cancelled)
    } else {
        None
    }
}

/// Matches the exact form value of a PlannedStatus.
pub fn match_planned_status(t: &str) -> (r: Option<PlannedStatus>)
    ensures
        r == planned_status_from_text(t@),
{
    if same_text(t, "planned") {
        Some(PlannedStatus::Planned)
    } else if same_text(t, "partially_covered") {
        Some(PlannedStatus::PartiallyCovered)
    } else if same_text(t, "covered") {
        Some(PlannedStatus::Covered)
    } else if same_text(t, "overdue") {
        Some(PlannedStatus::Overdue)
    } else if same_text(t, "cancelled") {
        Some(PlannedStatus::Cancelled)
    } else {
        None
    }
}

/// Parses a PlannedStatus form value, which must match exactly.
pub fn parse_planned_status(value: &str) -> (r: Result<PlannedStatus, String>)
    ensures
        match planned_status_from_text(value@) {
            Some(v) => r == Ok::<PlannedStatus, String>(v),
            None => r matches Err(m) && m@ == "Estado inválido"@,
        },
{
    match match_planned_status(value) {
        Some(v) => Ok(v),
        None => Err(String::from_str("Estado inválido")),
    }
}

/// Form value of a PlannedStatus.
pub fn planned_status_value(value: &PlannedStatus) -> (s: &'static str)
    ensures
        s@ == planned_status_text(*value),
{
    match value {
        PlannedStatus::Planned => "planned",
        PlannedStatus::PartiallyCovered => "partially_covered",
        PlannedStatus::Covered => "covered",
        PlannedStatus::Overdue => "overdue",
        PlannedStatus::Cancelled => "cancelled",
    }
}

/// Reading back the form value of any PlannedStatus gives that PlannedStatus.
pub proof fn lemma_planned_status_value_roundtrip(v: PlannedStatus)
    ensures
        planned_status_from_text(planned_status_text(v)) == Some(v),
{
    reveal_strlit("planned");
    reveal_strlit("partially_covered");
    reveal_strlit("covered");
    reveal_strlit("overdue");
    reveal_strlit("cancelled");
    assert("planned"@.len() != "partially_covered"@.len());
    assert("planned"@[0] != "covered"@[0]);
    assert("planned"@[0] != "overdue"@[0]);
    assert("planned"@.len() != "cancelled"@.len());
    assert("partially_covered"@.len() != "covered"@.len());
    assert("partially_covered"@.len() != "overdue"@.len());
    assert("partially_covered"@.len() != "cancelled"@.len());
    assert("covered"@[0] != "overdue"@[0]);
    assert("covered"@.len() != "cancelled"@.len());
    assert("overdue"@.len() != "cancelled"@.len());
}

/// Select options for a PlannedStatus, in declaration order, marking the one whose
/// value equals `selected`.
pub fn planned_status_options(selected: &str) -> (r: Vec<SimpleOption>)
    ensures
        r@.len() == 5,
        r@[0].value@ == "planned"@ && r@[0].label@ == "Planeado"@ && r@[0].selected == (selected@ == "planned"@),
        r@[1].value@ == "partially_covered"@ && r@[1].label@ == "Parcial"@ && r@[1].selected == (selected@ == "partially_covered"@),
        r@[2].value@ == "covered"@ && r@[2].label@ == "Cubierto"@ && r@[2].selected == (selected@ == "covered"@),
        r@[3].value@ == "overdue"@ && r@[3].label@ == "Vencido"@ && r@[3].selected == (selected@ == "overdue"@),
        r@[4].value@ == "cancelled"@ && r@[4].label@ == "Cancelado"@ && r@[4].selected == (selected@ == "cancelled"@),
{
    let mut r: Vec<SimpleOption> = Vec::new();
    r.push(SimpleOption { value: String::from_str("planned"), label: String::from_str("Planeado"), selected: same_text(selected, "planned") });
    r.push(SimpleOption { value: String::from_str("partially_covered"), label: String::from_str("Parcial"), selected: same_text(selected, "partially_covered") });
    r.push(SimpleOption { value: String::from_str("covered"), label: String::from_str("Cubierto"), selected: same_text(selected, "covered") });
    r.push(SimpleOption { value: String::from_str("overdue"), label: String::from_str("Vencido"), selected: same_text(selected, "overdue") });
    r.push(SimpleOption { value: String::from_str("cancelled"), label: String::from_str("Cancelado"), selected: same_text(selected, "cancelled") });
    r
}

/// The TransactionType named by a form value, if any.
pub open spec fn transaction_type_from_text(t: Seq<char>) -> Option<TransactionType> {
    if t == "income"@ {
        Some(TransactionType::Income)
    } else if t == "expense"@ {
        Some(TransactionType::Expense)
    } else if t == "transfer"@ {
        Some(TransactionType::Transfer)
    } else {
        None
    }
}

/// Matches the exact form value of a TransactionType.
pub fn match_transaction_type(t: &str) -> (r: Option<TransactionType>)
    ensures
        r == transaction_type_from_text(t@),
{
    if same_text(t, "income") {
        Some(TransactionType::Income)
    } else if same_text(t, "expense") {
        Some(TransactionType::Expense)
    } else if same_text(t, "transfer") {
        Some(TransactionType::Transfer)
    } else {
        None
    }
}

/// Parses a TransactionType form value, which must match exactly.
pub fn parse_transaction_type(value: &str) -> (r: Result<TransactionType, String>)
    ensures
        match transaction_type_from_text(value@) {
            Some(v) => r == Ok::<TransactionType, String>(v),
            None => r matches Err(m) && m@ == "Tipo de transacción inválido"@,
        },
{
    match match_transaction_type(value) {
        Some(v) => Ok(v),
        None => Err(String::from_str("Tipo de transacción inválido")),
    }
}

/// Form value of a TransactionType.
pub fn transaction_type_value(value: &TransactionType) -> (s: &'static str)
    ensures
        s@ == transaction_type_text(*value),
{
    match value {
        TransactionType::Income => "income",
        TransactionType::Expense => "expense",
        TransactionType::Transfer => "transfer",
    }
}

/// Reading back the form value of any TransactionType gives that TransactionType.
pub proof fn lemma_transaction_type_value_roundtrip(v: TransactionType)
    ensures
        transaction_type_from_text(transaction_type_text(v)) == Some(v),
{
    reveal_strlit("income");
    reveal_strlit("expense");
    reveal_strlit("transfer");
    assert("income"@.len() != "expense"@.len());
    assert("income"@.len() != "transfer"@.len());
    assert("expense"@.len() != "transfer"@.len());
}

/// Select options for a TransactionType, in declaration order, marking the one whose
/// value equals `selected`.
pub fn transaction_type_options(selected: &str) -> (r: Vec<SimpleOption>)
    ensures
        r@.len() == 3,
        r@[0].value@ == "income"@ && r@[0].label@ == "Ingreso"@ && r@[0].selected == (selected@ == "income"@),
        r@[1].value@ == "expense"@ && r@[1].label@ == "Gasto"@ && r@[1].selected == (selected@ == "expense"@),
        r@[2].value@ == "transfer"@ && r@[2].label@ == "Transferencia"@ && r@[2].selected == (selected@ == "transfer"@),
{
    let mut r: Vec<SimpleOption> = Vec::new();
    r.push(SimpleOption { value: String::from_str("income"), label: String::from_str("Ingreso"), selected: same_text(selected, "income") });
    r.push(SimpleOption { value: String::from_str("expense"), label: String::from_str("Gasto"), selected: same_text(selected, "expense") });
    r.push(SimpleOption { value: String::from_str("transfer"), label: String::from_str("Transferencia"), selected: same_text(selected, "transfer") });
    r
}

} // verus!
