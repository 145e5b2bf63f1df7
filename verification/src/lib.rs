//! Verified core of the alfredodev platform: domain enumerations, form and
//! payload validation, identifier handling, CFDI download planning, the
//! command-line client's rules, and the credential envelope format.

pub mod models;
pub mod text;
pub mod numbers;
pub mod ids;
pub mod forms;
pub mod access;
pub mod calendar;
pub mod cfdi_download;
pub mod companies;
pub mod cli;
pub mod envelope;
pub mod entries;
pub mod paging;
pub mod fields;
pub mod plans;
pub mod planned;
pub mod transactions;
pub mod catalog;
pub mod forecasts;
pub mod orders;
pub mod cfdi;
pub mod cfdi_jobs;
pub mod profile;
pub mod lookup;
pub mod totp;
pub mod cli_payloads;
pub mod cli_state;
pub mod cli_replies;
pub mod cfdi_record;
pub mod cfdi_zip;
