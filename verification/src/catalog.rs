//! Accounts, categories and contacts: their admin forms, the lines of their
//! listings, and the select options the finance screens build from the
//! company's records.

use vstd::prelude::*;
use vstd::string::StrSliceExecFns;
use vstd::string::StringExecFns;
use crate::fields::{opt_id_field_spec, opt_id_view, parse_optional_id_field};
use crate::forms::{
    account_type_value, contact_type_value, flow_type_value, account_type_from_text, contact_type_from_text, flow_type_from_text, parse_account_type,
    parse_contact_type, parse_flow_type, SimpleOption,
};
use crate::ids::{ObjectId, hex_text};
use crate::lookup::{build_lookup_map, names_of};
use crate::models::{AccountType, ContactType, FlowType, account_type_text, contact_type_text, flow_type_text};
use crate::text::{clean_opt, clean_opt_spec, opt_view, trim, trim_spec, lowercase_text};

verus! {

/// An account as the admin form submits it.
#[derive(Debug, Clone)]
pub struct AccountFormData {
    pub name: String,
    pub company_id: String,
    pub account_type: String,
    pub currency: String,
    pub is_active: bool,
    pub notes: Option<String>,
}

/// The checked fields of an account.
#[derive(Debug, Clone)]
pub struct AccountFields {
    pub name: String,
    pub account_type: AccountType,
    pub currency: String,
    pub is_active: bool,
    pub notes: Option<String>,
}

/// The currency of an account: the trimmed field, or MXN when it is blank.
pub open spec fn currency_spec(currency: Seq<char>) -> Seq<char> {
    if trim_spec(currency).len() == 0 {
        "MXN"@
    } else {
        trim_spec(currency)
    }
}

/// Checks the admin form of an account, for creating and for editing. The
/// only refusal is an unknown account type.
pub fn parse_account_form(form: &AccountFormData) -> (r: Result<AccountFields, String>)
    ensures
        match account_type_from_text(form.account_type@) {
            None => r matches Err(m) && m@ == "Tipo de cuenta inválido"@,
            Some(t) => r matches Ok(v) && {
                &&& v.account_type == t
                &&& v.name@ == trim_spec(form.name@)
                &&& v.currency@ == currency_spec(form.currency@)
                &&& (trim_spec(form.currency@).len() == 0 ==> v.currency@ == "MXN"@)
                &&& (trim_spec(form.currency@).len() > 0 ==> v.currency@ == trim_spec(form.currency@))
                &&& v.is_active == form.is_active
                &&& opt_view(v.notes) == clean_opt_spec(opt_view(form.notes))
            },
        },
{
    let account_type = parse_account_type(form.account_type.as_str())?;
    let trimmed = trim(form.currency.as_str());
    let currency = if trimmed.unicode_len() == 0 {
        String::from_str("MXN")
    } else {
        String::from_str(trimmed)
    };
    Ok(AccountFields {
        name: String::from_str(trim(form.name.as_str())),
        account_type,
        currency,
        is_active: form.is_active,
        notes: clean_opt(form.notes.clone()),
    })
}

/// A category as the admin form submits it.
#[derive(Debug, Clone)]
pub struct CategoryFormData {
    pub name: String,
    pub company_id: String,
    pub flow_type: String,
    pub parent_id: Option<String>,
}

/// The checked fields of a category (its parent still to be looked up).
#[derive(Debug, Clone)]
pub struct CategoryFields {
    pub name: String,
    pub flow_type: FlowType,
    pub parent_id: Option<ObjectId>,
}

/// Why a category form is refused: an unknown flow type, or a parent that is
/// not an identifier. The creation screen shows either message; the edit
/// screen answers a bad parent with a bad request.
#[derive(Debug, Clone)]
pub enum CategoryFormError {
    FlowType(String),
    Parent(String),
}

/// Checks the admin form of a category.
pub fn parse_category_form(form: &CategoryFormData) -> (r: Result<CategoryFields, CategoryFormError>)
    ensures
        match flow_type_from_text(lowercase_text(form.flow_type@)) {
            None => r matches Err(CategoryFormError::FlowType(m)) && m@ == "Tipo de flujo inválido"@,
            Some(ft) => match opt_id_field_spec(opt_view(form.parent_id), "Categoría padre"@) {
                Err(m) => r matches Err(CategoryFormError::Parent(e)) && e@ == m,
                Ok(p) => r matches Ok(v) && v.flow_type == ft && opt_id_view(v.parent_id) == p
                    && v.name@ == trim_spec(form.name@),
            },
        },
{
    let flow_type = match parse_flow_type(form.flow_type.as_str()) {
        Ok(f) => f,
        Err(m) => return Err(CategoryFormError::FlowType(m)),
    };
    let parent_id = match parse_optional_id_field(form.parent_id.clone(), "Categoría padre") {
        Ok(p) => p,
        Err(m) => return Err(CategoryFormError::Parent(m)),
    };
    Ok(CategoryFields { name: String::from_str(trim(form.name.as_str())), flow_type, parent_id })
}

/// A contact as the admin form submits it.
#[derive(Debug, Clone)]
pub struct ContactFormData {
    pub name: String,
    pub company_id: String,
    pub contact_type: String,
    pub email: Option<String>,
    pub phone: Option<String>,
    pub notes: Option<String>,
}

/// The checked fields of a contact.
#[derive(Debug, Clone)]
pub struct ContactFields {
    pub name: String,
    pub contact_type: ContactType,
    pub email: Option<String>,
    pub phone: Option<String>,
    pub notes: Option<String>,
}

/// Checks the admin form of a contact. The only refusal is an unknown contact type.
pub fn parse_contact_form(form: &ContactFormData) -> (r: Result<ContactFields, String>)
    ensures
        match contact_type_from_text(lowercase_text(form.contact_type@)) {
            None => r matches Err(m) && m@ == "Tipo de contacto inválido"@,
            Some(t) => r matches Ok(v) && {
                &&& v.contact_type == t
                &&& v.name@ == trim_spec(form.name@)
                &&& opt_view(v.email) == clean_opt_spec(opt_view(form.email))
                &&& opt_view(v.phone) == clean_opt_spec(opt_view(form.phone))
                &&& opt_view(v.notes) == clean_opt_spec(opt_view(form.notes))
            },
        },
{
    let contact_type = parse_contact_type(form.contact_type.as_str())?;
    Ok(ContactFields {
        name: String::from_str(trim(form.name.as_str())),
        contact_type,
        email: clean_opt(form.email.clone()),
        phone: clean_opt(form.phone.clone()),
        notes: clean_opt(form.notes.clone()),
    })
}

/// A stored record offered in a select input: its identifier (absent for a
/// record never saved), the company that owns it, and its label.
#[derive(Debug, Clone)]
pub struct OptionRecord {
    pub id: Option<ObjectId>,
    pub company_id: ObjectId,
    pub label: String,
}

pub open spec fn option_view(o: SimpleOption) -> (Seq<char>, Seq<char>, bool) {
    (o.value@, o.label@, o.selected)
}

pub open spec fn options_view(v: Seq<SimpleOption>) -> Seq<(Seq<char>, Seq<char>, bool)> {
    v.map_values(|o: SimpleOption| option_view(o))
}

/// Whether `id` is the selected identifier.
pub open spec fn is_selected(selected: Option<ObjectId>, id: ObjectId) -> bool {
    selected matches Some(s) && s.bytes@ == id.bytes@
}

/// The options for the records of `company` that have an identifier, in
/// their order, marking the selected one.
pub open spec fn record_options_spec(rs: Seq<OptionRecord>, selected: Option<ObjectId>, company: ObjectId) -> Seq<(Seq<char>, Seq<char>, bool)>
    decreases rs.len(),
{
    if rs.len() == 0 {
        Seq::empty()
    } else {
        let prev = record_options_spec(rs.drop_last(), selected, company);
        let r = rs.last();
        if r.company_id.bytes@ == company.bytes@ && r.id is Some {
            prev.push((hex_text(r.id->0.bytes@), r.label@, is_selected(selected, r.id->0)))
        } else {
            prev
        }
    }
}

/// The select options offer exactly the company's records that have an
/// identifier: records of other companies give none, and when every record
/// belongs to the company and has an identifier, option `i` is record `i`'s
/// identifier in hex and label, marked when it is the selected identifier.
pub proof fn lemma_record_options_of_company(rs: Seq<OptionRecord>, selected: Option<ObjectId>, company: ObjectId)
    ensures
        record_options_spec(rs, selected, company).len() <= rs.len(),
        (forall|i: int| 0 <= i < rs.len() ==> #[trigger] rs[i].company_id.bytes@ != company.bytes@)
            ==> record_options_spec(rs, selected, company).len() == 0,
        (forall|i: int| 0 <= i < rs.len() ==> #[trigger] rs[i].company_id.bytes@ == company.bytes@ && rs[i].id is Some)
            ==> {
                &&& record_options_spec(rs, selected, company).len() == rs.len()
                &&& forall|i: int| 0 <= i < rs.len() ==> #[trigger] record_options_spec(rs, selected, company)[i]
                    == (hex_text(rs[i].id->0.bytes@), rs[i].label@, selected is Some && selected->0.bytes@ == rs[i].id->0.bytes@)
            },
    decreases rs.len(),
{
    if rs.len() > 0 {
        let init = rs.drop_last();
        lemma_record_options_of_company(init, selected, company);
        if forall|i: int| 0 <= i < rs.len() ==> #[trigger] rs[i].company_id.bytes@ != company.bytes@ {
            assert forall|i: int| 0 <= i < init.len() implies #[trigger] init[i].company_id.bytes@ != company.bytes@ by {
                assert(init[i] == rs[i]);
            }
            assert(rs.last() == rs[rs.len() - 1]);
        }
        if forall|i: int| 0 <= i < rs.len() ==> #[trigger] rs[i].company_id.bytes@ == company.bytes@ && rs[i].id is Some {
            assert forall|i: int| 0 <= i < init.len() implies #[trigger] init[i].company_id.bytes@ == company.bytes@ && init[i].id is Some by {
                assert(init[i] == rs[i]);
            }
            assert(rs.last() == rs[rs.len() - 1]);
            let all = record_options_spec(rs, selected, company);
            assert forall|i: int| 0 <= i < rs.len() implies #[trigger] record_options_spec(rs, selected, company)[i]
                == (hex_text(rs[i].id->0.bytes@), rs[i].label@, selected is Some && selected->0.bytes@ == rs[i].id->0.bytes@) by {
                if i < init.len() {
                    assert(init[i] == rs[i]);
                    assert(all[i] == record_options_spec(init, selected, company)[i]);
                }
            }
        }
    }
}

fn selected_is(selected: &Option<ObjectId>, id: &ObjectId) -> (b: bool)
    ensures
        b == is_selected(*selected, *id),
{
    match selected {
        Some(s) => s.same_as(id),
        None => false,
    }
}

/// Appends to `out` the options of the records of `company`.
pub fn push_record_options(out: &mut Vec<SimpleOption>, records: &Vec<OptionRecord>, selected: &Option<ObjectId>, company: &ObjectId)
    ensures
        options_view(final(out)@) == options_view(old(out)@) + record_options_spec(records@, *selected, *company),
{
    let ghost start = options_view(out@);
    let mut i: usize = 0;
    while i < records.len()
        invariant
            i <= records@.len(),
            options_view(out@) == start + record_options_spec(records@.subrange(0, i as int), *selected, *company),
        decreases records.len() - i,
    {
        proof {
            assert(records@.subrange(0, i as int + 1).drop_last() =~= records@.subrange(0, i as int));
        }
        let r = &records[i];
        if r.company_id.same_as(company) {
            match &r.id {
                Some(id) => {
                    let o = SimpleOption { value: id.to_hex(), label: r.label.clone(), selected: selected_is(selected, id) };
                    let ghost before = out@;
                    out.push(o);
                    proof {
                        assert(options_view(out@) =~= options_view(before).push(option_view(o)));
                    }
                },
                None => {},
            }
        }
        i = i + 1;
    }
    assert(records@.subrange(0, records@.len() as int) =~= records@);
}

/// Options for the records of `company` (categories).
pub fn record_options(records: &Vec<OptionRecord>, selected: &Option<ObjectId>, company: &ObjectId) -> (r: Vec<SimpleOption>)
    ensures
        options_view(r@) == record_options_spec(records@, *selected, *company),
{
    let mut out: Vec<SimpleOption> = Vec::new();
    push_record_options(&mut out, records, selected, company);
    assert(options_view(Seq::<SimpleOption>::empty()) =~= Seq::empty());
    out
}

/// Options led by a blank "none" entry (selected when nothing is), then the
/// records of `company` (contacts, plans, planned entries, parent categories).
pub fn record_options_with_none(none_label: &str, records: &Vec<OptionRecord>, selected: &Option<ObjectId>, company: &ObjectId) -> (r: Vec<SimpleOption>)
    ensures
        options_view(r@) == seq![(""@, none_label@, selected is None)] + record_options_spec(records@, *selected, *company),
{
    let mut out: Vec<SimpleOption> = Vec::new();
    out.push(SimpleOption { value: String::new(), label: String::from_str(none_label), selected: selected.is_none() });
    proof {
        reveal_strlit("");
        assert(out@[0].value@ =~= ""@);
    }
    assert(options_view(out@) =~= seq![(""@, none_label@, selected is None)]);
    push_record_options(&mut out, records, selected, company);
    out
}

/// The label of an account option: its name, then its currency in brackets.
pub fn account_option_label(name: &str, currency: &str) -> (r: String)
    ensures
        r@ == name@ + " ("@ + currency@ + ")"@,
{
    let mut s = String::from_str(name);
    s.append(" (");
    s.append(currency);
    s.append(")");
    s
}

/// A user offered in a select input: its identifier, e-mail and companies.
#[derive(Debug, Clone)]
pub struct UserRecord {
    pub id: ObjectId,
    pub email: String,
    pub company_ids: Vec<ObjectId>,
}

pub open spec fn has_company(ids: Seq<ObjectId>, company: ObjectId) -> bool {
    exists|j: int| 0 <= j < ids.len() && #[trigger] ids[j].bytes@ == company.bytes@
}

/// The options for the users of `company`, in their order.
pub open spec fn user_options_spec(us: Seq<UserRecord>, selected: Option<ObjectId>, company: ObjectId) -> Seq<(Seq<char>, Seq<char>, bool)>
    decreases us.len(),
{
    if us.len() == 0 {
        Seq::empty()
    } else {
        let prev = user_options_spec(us.drop_last(), selected, company);
        let u = us.last();
        if has_company(u.company_ids@, company) {
            prev.push((hex_text(u.id.bytes@), u.email@, is_selected(selected, u.id)))
        } else {
            prev
        }
    }
}

/// The user options offer exactly the users of the company: users of other
/// companies give none, and when every user belongs to the company, option
/// `i` is user `i`'s identifier in hex and e-mail, marked when it is the
/// selected identifier.
pub proof fn lemma_user_options_of_company(us: Seq<UserRecord>, selected: Option<ObjectId>, company: ObjectId)
    ensures
        user_options_spec(us, selected, company).len() <= us.len(),
        (forall|i: int| 0 <= i < us.len() ==> !has_company(#[trigger] us[i].company_ids@, company))
            ==> user_options_spec(us, selected, company).len() == 0,
        (forall|i: int| 0 <= i < us.len() ==> has_company(#[trigger] us[i].company_ids@, company))
            ==> {
                &&& user_options_spec(us, selected, company).len() == us.len()
                &&& forall|i: int| 0 <= i < us.len() ==> #[trigger] user_options_spec(us, selected, company)[i]
                    == (hex_text(us[i].id.bytes@), us[i].email@, selected is Some && selected->0.bytes@ == us[i].id.bytes@)
            },
    decreases us.len(),
{
    if us.len() > 0 {
        let init = us.drop_last();
        lemma_user_options_of_company(init, selected, company);
        assert(us.last() == us[us.len() - 1]);
        if forall|i: int| 0 <= i < us.len() ==> !has_company(#[trigger] us[i].company_ids@, company) {
            assert forall|i: int| 0 <= i < init.len() implies !has_company(#[trigger] init[i].company_ids@, company) by {
                assert(init[i] == us[i]);
            }
        }
        if forall|i: int| 0 <= i < us.len() ==> has_company(#[trigger] us[i].company_ids@, company) {
            assert forall|i: int| 0 <= i < init.len() implies has_company(#[trigger] init[i].company_ids@, company) by {
                assert(init[i] == us[i]);
            }
            let all = user_options_spec(us, selected, company);
            assert forall|i: int| 0 <= i < us.len() implies #[trigger] user_options_spec(us, selected, company)[i]
                == (hex_text(us[i].id.bytes@), us[i].email@, selected is Some && selected->0.bytes@ == us[i].id.bytes@) by {
                if i < init.len() {
                    assert(init[i] == us[i]);
                    assert(all[i] == user_options_spec(init, selected, company)[i]);
                }
            }
        }
    }
}

fn in_company(ids: &Vec<ObjectId>, company: &ObjectId) -> (b: bool)
    ensures
        b == has_company(ids@, *company),
{
    let mut i: usize = 0;
    while i < ids.len()
        invariant
            i <= ids@.len(),
            forall|j: int| 0 <= j < i ==> #[trigger] ids@[j].bytes@ != company.bytes@,
        decreases ids.len() - i,
    {
        if ids[i].same_as(company) {
            return true;
        }
        i = i + 1;
    }
    false
}

/// Options led by "Sin usuario", then the users that belong to `company`.
pub fn user_options(users: &Vec<UserRecord>, selected: &Option<ObjectId>, company: &ObjectId) -> (r: Vec<SimpleOption>)
    ensures
        options_view(r@) == seq![(""@, "Sin usuario"@, selected is None)] + user_options_spec(users@, *selected, *company),
{
    let mut out: Vec<SimpleOption> = Vec::new();
    out.push(SimpleOption { value: String::new(), label: String::from_str("Sin usuario"), selected: selected.is_none() });
    let ghost start = options_view(out@);
    proof {
        reveal_strlit("");
        assert(out@[0].value@ =~= ""@);
    }
    assert(start =~= seq![(""@, "Sin usuario"@, selected is None)]);
    let mut i: usize = 0;
    while i < users.len()
        invariant
            i <= users@.len(),
            start == seq![(""@, "Sin usuario"@, selected is None)],
            options_view(out@) == start + user_options_spec(users@.subrange(0, i as int), *selected, *company),
        decreases users.len() - i,
    {
        proof {
            assert(users@.subrange(0, i as int + 1).drop_last() =~= users@.subrange(0, i as int));
        }
        let u = &users[i];
        if in_company(&u.company_ids, company) {
            let o = SimpleOption { value: u.id.to_hex(), label: u.email.clone(), selected: selected_is(selected, &u.id) };
            let ghost before = out@;
            out.push(o);
            proof {
                assert(options_view(out@) =~= options_view(before).push(option_view(o)));
            }
        }
        i = i + 1;
    }
    assert(users@.subrange(0, users@.len() as int) =~= users@);
    out
}

/// What the category listing reads of a stored category.
#[derive(Debug, Clone)]
pub struct CategoryRecord {
    pub id: Option<ObjectId>,
    pub company_id: ObjectId,
    pub name: String,
    pub flow_type: FlowType,
    pub parent_id: Option<ObjectId>,
}

/// One line of the category listing.
#[derive(Debug, Clone)]
pub struct CategoryRow {
    pub id: String,
    pub name: String,
    pub company: String,
    pub flow_type: String,
    pub parent: String,
}

/// The categories a company's listing shows: those of the company that have
/// an identifier, in order.
pub open spec fn listed_categories(cs: Seq<CategoryRecord>, company: ObjectId) -> Seq<CategoryRecord>
    decreases cs.len(),
{
    if cs.len() == 0 {
        Seq::empty()
    } else if cs.last().company_id.bytes@ == company.bytes@ && cs.last().id is Some {
        listed_categories(cs.drop_last(), company).push(cs.last())
    } else {
        listed_categories(cs.drop_last(), company)
    }
}

/// The (identifier, name) pairs of listed categories.
pub open spec fn category_pairs(cs: Seq<CategoryRecord>) -> Seq<(ObjectId, String)> {
    cs.map_values(|c: CategoryRecord| (c.id->0, c.name))
}

/// The listing line of a category: its identifier, name, company, kind of
/// flow, and the name of its parent among the names given ("-" when it has
/// no parent there).
pub open spec fn category_row_matches(r: CategoryRow, c: CategoryRecord, names: Map<Seq<u8>, Seq<char>>, company: Seq<char>) -> bool {
    &&& c.id matches Some(id) && r.id@ == hex_text(id.bytes@)
    &&& r.name@ == c.name@
    &&& r.company@ == company
    &&& r.flow_type@ == flow_type_text(c.flow_type)
    &&& r.parent@ == match c.parent_id {
        Some(p) => if names.contains_key(p.bytes@) { names[p.bytes@] } else { "-"@ },
        None => "-"@,
    }
}

/// The category listing of the active company, under its name; a parent is
/// named only when it is one of the company's own categories.
pub fn category_rows(categories: &Vec<CategoryRecord>, active_company: &ObjectId, company_name: &str) -> (r: Vec<CategoryRow>)
    ensures
        r@.len() == listed_categories(categories@, *active_company).len(),
        forall|i: int| 0 <= i < r@.len() ==> #[trigger] category_row_matches(r@[i],
            listed_categories(categories@, *active_company)[i],
            names_of(category_pairs(listed_categories(categories@, *active_company))), company_name@),
{
    let ghost listed = listed_categories(categories@, *active_company);
    let mut pairs: Vec<(ObjectId, String)> = Vec::new();
    let mut i: usize = 0;
    while i < categories.len()
        invariant
            i <= categories@.len(),
            pairs@ == category_pairs(listed_categories(categories@.take(i as int), *active_company)),
        decreases categories.len() - i,
    {
        assert(categories@.take(i + 1).drop_last() =~= categories@.take(i as int));
        assert(categories@.take(i + 1).last() == categories@[i as int]);
        let c = &categories[i];
        if c.company_id.same_as(active_company) {
            match &c.id {
                Some(id) => {
                    pairs.push((*id, c.name.clone()));
                    assert(pairs@ =~= category_pairs(listed_categories(categories@.take(i + 1), *active_company)));
                },
                None => {},
            }
        }
        i = i + 1;
    }
    assert(categories@.take(categories@.len() as int) =~= categories@);
    let names = build_lookup_map(pairs);
    let mut rows: Vec<CategoryRow> = Vec::new();
    let mut k: usize = 0;
    while k < categories.len()
        invariant
            k <= categories@.len(),
            listed == listed_categories(categories@, *active_company),
            names.view() == names_of(category_pairs(listed)),
            rows@.len() == listed_categories(categories@.take(k as int), *active_company).len(),
            forall|j: int| 0 <= j < rows@.len() ==> #[trigger] category_row_matches(rows@[j],
                listed_categories(categories@.take(k as int), *active_company)[j], names.view(), company_name@),
        decreases categories.len() - k,
    {
        assert(categories@.take(k + 1).drop_last() =~= categories@.take(k as int));
        assert(categories@.take(k + 1).last() == categories@[k as int]);
        let c = &categories[k];
        if c.company_id.same_as(active_company) {
            match &c.id {
                Some(id) => {
                    let parent = match &c.parent_id {
                        Some(p) => match names.get(p) {
                            Some(n) => n.clone(),
                            None => String::from_str("-"),
                        },
                        None => String::from_str("-"),
                    };
                    rows.push(CategoryRow {
                        id: id.to_hex(),
                        name: c.name.clone(),
                        company: String::from_str(company_name),
                        flow_type: String::from_str(flow_type_value(&c.flow_type)),
                        parent,
                    });
                },
                None => {},
            }
        }
        k = k + 1;
    }
    assert(categories@.take(categories@.len() as int) =~= categories@);
    rows
}

/// What the account listing reads of a stored account.
#[derive(Debug, Clone)]
pub struct AccountRecord {
    pub id: Option<ObjectId>,
    pub company_id: ObjectId,
    pub name: String,
    pub account_type: AccountType,
    pub currency: String,
    pub is_active: bool,
}

/// One line of the account listing.
#[derive(Debug, Clone)]
pub struct AccountRow {
    pub id: String,
    pub name: String,
    pub company: String,
    pub account_type: String,
    pub currency: String,
    pub is_active: bool,
}

/// The accounts a company's listing shows: those of the company that have an
/// identifier, in order.
pub open spec fn listed_accounts(accs: Seq<AccountRecord>, company: ObjectId) -> Seq<AccountRecord>
    decreases accs.len(),
{
    if accs.len() == 0 {
        Seq::empty()
    } else if accs.last().company_id.bytes@ == company.bytes@ && accs.last().id is Some {
        listed_accounts(accs.drop_last(), company).push(accs.last())
    } else {
        listed_accounts(accs.drop_last(), company)
    }
}

pub open spec fn account_row_matches(r: AccountRow, a: AccountRecord, company: Seq<char>) -> bool {
    &&& a.id matches Some(id) && r.id@ == hex_text(id.bytes@)
    &&& r.name@ == a.name@
    &&& r.company@ == company
    &&& r.account_type@ == account_type_text(a.account_type)
    &&& r.currency@ == a.currency@
    &&& r.is_active == a.is_active
}

/// The account listing of the active company, under its name.
pub fn account_rows(accounts: &Vec<AccountRecord>, active_company: &ObjectId, company_name: &str) -> (r: Vec<AccountRow>)
    ensures
        r@.len() == listed_accounts(accounts@, *active_company).len(),
        forall|i: int| 0 <= i < r@.len() ==> #[trigger] account_row_matches(r@[i],
            listed_accounts(accounts@, *active_company)[i], company_name@),
{
    let mut rows: Vec<AccountRow> = Vec::new();
    let mut i: usize = 0;
    while i < accounts.len()
        invariant
            i <= accounts@.len(),
            rows@.len() == listed_accounts(accounts@.take(i as int), *active_company).len(),
            forall|j: int| 0 <= j < rows@.len() ==> #[trigger] account_row_matches(rows@[j],
                listed_accounts(accounts@.take(i as int), *active_company)[j], company_name@),
        decreases accounts.len() - i,
    {
        assert(accounts@.take(i + 1).drop_last() =~= accounts@.take(i as int));
        assert(accounts@.take(i + 1).last() == accounts@[i as int]);
        let a = &accounts[i];
        if a.company_id.same_as(active_company) {
            match &a.id {
                Some(id) => {
                    rows.push(AccountRow {
                        id: id.to_hex(),
                        name: a.name.clone(),
                        company: String::from_str(company_name),
                        account_type: String::from_str(account_type_value(&a.account_type)),
                        currency: a.currency.clone(),
                        is_active: a.is_active,
                    });
                },
                None => {},
            }
        }
        i = i + 1;
    }
    assert(accounts@.take(accounts@.len() as int) =~= accounts@);
    rows
}

/// What the contact listing reads of a stored contact.
#[derive(Debug, Clone)]
pub struct ContactRecord {
    pub id: Option<ObjectId>,
    pub company_id: ObjectId,
    pub name: String,
    pub contact_type: ContactType,
    pub email: Option<String>,
}

/// One line of the contact listing.
#[derive(Debug, Clone)]
pub struct ContactRow {
    pub id: String,
    pub name: String,
    pub company: String,
    pub kind: String,
    pub email: String,
}

/// The contacts a company's listing shows: those of the company that have an
/// identifier, in order.
pub open spec fn listed_contacts(cs: Seq<ContactRecord>, company: ObjectId) -> Seq<ContactRecord>
    decreases cs.len(),
{
    if cs.len() == 0 {
        Seq::empty()
    } else if cs.last().company_id.bytes@ == company.bytes@ && cs.last().id is Some {
        listed_contacts(cs.drop_last(), company).push(cs.last())
    } else {
        listed_contacts(cs.drop_last(), company)
    }
}

/// The listing line of a contact; a contact without e-mail shows "-".
pub open spec fn contact_row_matches(r: ContactRow, c: ContactRecord, company: Seq<char>) -> bool {
    &&& c.id matches Some(id) && r.id@ == hex_text(id.bytes@)
    &&& r.name@ == c.name@
    &&& r.company@ == company
    &&& r.kind@ == contact_type_text(c.contact_type)
    &&& r.email@ == match c.email {
        Some(e) => e@,
        None => "-"@,
    }
}

/// The contact listing of the active company, under its name.
pub fn contact_rows(contacts: &Vec<ContactRecord>, active_company: &ObjectId, company_name: &str) -> (r: Vec<ContactRow>)
    ensures
        r@.len() == listed_contacts(contacts@, *active_company).len(),
        forall|i: int| 0 <= i < r@.len() ==> #[trigger] contact_row_matches(r@[i],
            listed_contacts(contacts@, *active_company)[i], company_name@),
{
    let mut rows: Vec<ContactRow> = Vec::new();
    let mut i: usize = 0;
    while i < contacts.len()
        invariant
            i <= contacts@.len(),
            rows@.len() == listed_contacts(contacts@.take(i as int), *active_company).len(),
            forall|j: int| 0 <= j < rows@.len() ==> #[trigger] contact_row_matches(rows@[j],
                listed_contacts(contacts@.take(i as int), *active_company)[j], company_name@),
        decreases contacts.len() - i,
    {
        assert(contacts@.take(i + 1).drop_last() =~= contacts@.take(i as int));
        assert(contacts@.take(i + 1).last() == contacts@[i as int]);
        let c = &contacts[i];
        if c.company_id.same_as(active_company) {
            match &c.id {
                Some(id) => {
                    rows.push(ContactRow {
                        id: id.to_hex(),
                        name: c.name.clone(),
                        company: String::from_str(company_name),
                        kind: String::from_str(contact_type_value(&c.contact_type)),
                        email: match &c.email {
                            Some(e) => e.clone(),
                            None => String::from_str("-"),
                        },
                    });
                },
                None => {},
            }
        }
        i = i + 1;
    }
    assert(contacts@.take(contacts@.len() as int) =~= contacts@);
    rows
}

} // verus!
