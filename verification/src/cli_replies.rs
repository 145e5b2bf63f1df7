//! How the command-line client reads the server's replies: login, logout and
//! ordinary requests, what it prints for them, and how a stored session is
//! renewed.

use vstd::prelude::*;
use vstd::string::StrSliceExecFns;
use vstd::string::StringExecFns;
use crate::cli::CredentialState;
use crate::numbers::{nat_text, push_nat};
use crate::text::trim_spec;
use crate::text::trim;
use crate::text::same_text;

verus! {

/// A 2xx status.
pub open spec fn is_success(code: u16) -> bool {
    200 <= code <= 299
}

/// A request answered 401 is retried once after logging in again.
pub fn needs_relogin(code: u16) -> (b: bool)
    ensures
        b == (code == 401),
{
    code == 401
}

/// The status of a login reply. `status` is the status as it is printed
/// (code and reason).
pub fn check_login_status(code: u16, status: &str) -> (r: Result<(), String>)
    ensures
        code == 401 ==> (r matches Err(m) && m@ == "login failed"@),
        code != 401 && !is_success(code) ==> (r matches Err(m) && m@ == "login failed with status "@ + status@),
        code != 401 && is_success(code) ==> r is Ok,
{
    if code == 401 {
        return Err(String::from_str("login failed"));
    }
    if !(200 <= code && code <= 299) {
        return Err(String::from_str("login failed with status ").concat(status));
    }
    Ok(())
}

/// After a successful login reply: the body must say `ok`; then the new
/// session and the time of the login (RFC 3339) are stored.
pub fn record_login(state: &mut CredentialState, body_ok: bool, session: String, now: String) -> (r: Result<(), String>)
    ensures
        !body_ok ==> (r matches Err(m) && m@ == "login failed"@ && *final(state) == *old(state)),
        body_ok ==> {
            &&& r is Ok
            &&& final(state).session_cookie == Some(session)
            &&& final(state).last_login_at == Some(now)
            &&& final(state).base_url == old(state).base_url
            &&& final(state).email == old(state).email
            &&& final(state).totp_secret == old(state).totp_secret
            &&& final(state).company_slug == old(state).company_slug
            &&& final(state).tenant_host == old(state).tenant_host
        },
{
    if !body_ok {
        return Err(String::from_str("login failed"));
    }
    state.session_cookie = Some(session);
    state.last_login_at = Some(now);
    Ok(())
}

/// The status of a logout reply: a refused session (401) is fine too.
pub fn check_logout_status(code: u16, status: &str) -> (r: Result<(), String>)
    ensures
        is_success(code) || code == 401 ==> r is Ok,
        !(is_success(code) || code == 401) ==> (r matches Err(m) && m@ == "logout failed with status "@ + status@),
{
    if (200 <= code && code <= 299) || code == 401 {
        Ok(())
    } else {
        Err(String::from_str("logout failed with status ").concat(status))
    }
}

/// The status of an ordinary reply; a failure quotes the body.
pub fn check_reply_status(code: u16, status: &str, body: &str) -> (r: Result<(), String>)
    ensures
        is_success(code) ==> r is Ok,
        !is_success(code) ==> (r matches Err(m) && m@ == "request failed with status "@ + status@ + ": "@ + body@),
{
    if 200 <= code && code <= 299 {
        Ok(())
    } else {
        let mut m = String::from_str("request failed with status ");
        m.append(status);
        m.append(": ");
        m.append(body);
        Err(m)
    }
}

/// The shape of a JSON reply, as far as its summary needs it.
#[derive(Debug, Clone, Copy)]
pub enum ReplyShape {
    /// An array of that many items.
    List(u64),
    /// An object whose `items` array has that many items.
    Items(u64),
    /// Another object with that many fields.
    Fields(u64),
    /// Anything else.
    Scalar,
}

/// The one-line summary of a reply.
pub open spec fn reply_summary_text(label: Seq<char>, shape: ReplyShape) -> Seq<char> {
    match shape {
        ReplyShape::List(n) => label + ": "@ + nat_text(n as nat),
        ReplyShape::Items(n) => label + ": "@ + nat_text(n as nat),
        ReplyShape::Fields(n) => label + " fields: "@ + nat_text(n as nat),
        ReplyShape::Scalar => label + " returned."@,
    }
}

/// What the client prints for a reply when it does not print JSON.
pub fn reply_summary(label: &str, shape: ReplyShape) -> (r: String)
    ensures
        r@ == reply_summary_text(label@, shape),
{
    let mut s = String::from_str(label);
    match shape {
        ReplyShape::List(n) => {
            s.append(": ");
            push_nat(&mut s, n);
        },
        ReplyShape::Items(n) => {
            s.append(": ");
            push_nat(&mut s, n);
        },
        ReplyShape::Fields(n) => {
            s.append(" fields: ");
            push_nat(&mut s, n);
        },
        ReplyShape::Scalar => {
            s.append(" returned.");
        },
    }
    s
}

/// What the client prints after creating a record: its kind and identifier.
pub fn created_summary(label: &str, id: Option<&str>) -> (r: String)
    ensures
        r@ == "Created "@ + label@ + " "@ + match id {
            Some(i) => i@,
            None => "unknown"@,
        },
{
    let mut s = String::from_str("Created ");
    s.append(label);
    s.append(" ");
    match id {
        Some(i) => s.append(i),
        None => s.append("unknown"),
    }
    s
}

/// The Typst source read from standard input must hold something besides whitespace.
pub fn check_typst_source(source: String) -> (r: Result<String, String>)
    ensures
        trim_spec(source@).len() > 0 ==> r == Ok::<String, String>(source),
        trim_spec(source@).len() == 0 ==> (r matches Err(m) && m@ == "Typst source is required via --source, --input, or stdin"@),
{
    if trim(source.as_str()).unicode_len() == 0 {
        Err(String::from_str("Typst source is required via --source, --input, or stdin"))
    } else {
        Ok(source)
    }
}

/// What a PDF preview reply yields: the Base64 of the PDF, or why it failed.
pub fn check_pdf_reply(ok: Option<bool>, error: Option<&str>, pdf_base64: Option<&str>) -> (r: Result<String, String>)
    ensures
        ok != Some(true) ==> (r matches Err(m) && m@ == "PDF preview failed: "@ + match error {
            Some(e) => e@,
            None => "unknown error"@,
        }),
        ok == Some(true) && pdf_base64 is None ==> (r matches Err(m) && m@ == "PDF preview response did not include pdf_base64"@),
        ok == Some(true) && pdf_base64 is Some ==> (r matches Ok(b) && b@ == pdf_base64->0@),
{
    if ok != Some(true) {
        let mut m = String::from_str("PDF preview failed: ");
        match error {
            Some(e) => m.append(e),
            None => m.append("unknown error"),
        }
        return Err(m);
    }
    match pdf_base64 {
        Some(b) => Ok(String::from_str(b)),
        None => Err(String::from_str("PDF preview response did not include pdf_base64")),
    }
}

/// Standard Base64 decoding, as the encoding library does it (`None` when
/// the text is not valid Base64).
pub uninterp spec fn base64_decode_of(text: Seq<char>) -> Option<Seq<u8>>;

/// Calls `data_encoding::BASE64.decode`. The bytes are named.
#[verifier::external_body]
fn base64_decode(text: &str) -> (r: Option<Vec<u8>>)
    ensures
        match r {
            Some(v) => base64_decode_of(text@) == Some(v@),
            None => base64_decode_of(text@) is None,
        },
{
    data_encoding::BASE64.decode(text.as_bytes()).ok()
}

/// The PDF bytes of a preview reply.
pub fn decode_pdf(pdf_base64: &str) -> (r: Result<Vec<u8>, String>)
    ensures
        match base64_decode_of(pdf_base64@) {
            Some(b) => r matches Ok(v) && v@ == b,
            None => r matches Err(m) && m@ == "PDF preview response contained invalid base64"@,
        },
{
    match base64_decode(pdf_base64) {
        Some(b) => Ok(b),
        None => Err(String::from_str("PDF preview response contained invalid base64")),
    }
}

/// What the client prints when it does not save the PDF.
pub fn preview_summary(base64_len: u64) -> (r: String)
    ensures
        r@ == "PDF preview succeeded ("@ + nat_text(base64_len as nat) + " base64 bytes)."@,
{
    let mut s = String::from_str("PDF preview succeeded (");
    push_nat(&mut s, base64_len);
    s.append(" base64 bytes).");
    s
}

/// Removing the stored credentials needs the `--yes` confirmation.
pub fn check_reset_auth(yes: bool) -> (r: Result<(), String>)
    ensures
        r is Ok <==> yes,
        r matches Err(m) ==> m@ == "reset-auth removes stored credentials; rerun with --yes to confirm"@,
{
    if yes {
        Ok(())
    } else {
        Err(String::from_str("reset-auth removes stored credentials; rerun with --yes to confirm"))
    }
}

/// Whether a field of the server's status reply is shown: every field but
/// the otpauth URL, which would reveal the TOTP secret.
pub fn shows_status_field(key: &str) -> (b: bool)
    ensures
        b == (key@ != "otpauth_url"@),
{
    !same_text(key, "otpauth_url")
}

} // verus!
