//! Time-based one-time passwords: building the authenticator of a user from
//! its Base32 secret, generating fresh secrets, the client's current code,
//! and signing a user in with a code.

use vstd::prelude::*;
use vstd::string::StrSliceExecFns;
use vstd::string::StringExecFns;
use crate::envelope::random_bytes;
use crate::numbers::{nat_text, push_nat};
use crate::text::{contains_text, same_text};
use crate::cfdi_download::utc_now_unix_seconds;

verus! {

/// The bytes of a Base32 secret (RFC 4648, no padding) as the TOTP library
/// decodes it, or `None` when it is not valid Base32.
pub uninterp spec fn base32_secret_bytes_of(s: Seq<char>) -> Option<Seq<u8>>;

/// Calls `totp_rs::Secret::Encoded(s).to_bytes()`. The bytes are named.
#[verifier::external_body]
fn decode_base32_secret(s: &str) -> (r: Option<Vec<u8>>)
    ensures
        match r {
            Some(v) => base32_secret_bytes_of(s@) == Some(v@),
            None => base32_secret_bytes_of(s@) is None,
        },
{
    totp_rs::Secret::Encoded(s.to_string()).to_bytes().ok()
}

/// The hash function of an authenticator.
#[derive(Debug, Clone, Copy)]
pub enum TotpAlgorithm {
    Sha1,
}

/// Why the TOTP library refused to build an authenticator.
#[derive(Debug, Clone, Copy, PartialEq, Eq, Structural)]
pub enum TotpSetupError {
    /// The issuer contains a colon.
    Issuer,
    /// The account name contains a colon.
    AccountName,
    /// The digits or the secret are out of bounds.
    Other,
}

/// Whether the TOTP library builds an authenticator with these settings.
pub open spec fn totp_new_accepts(digits: usize, secret_len: nat, issuer: Seq<char>, account: Seq<char>) -> bool {
    6 <= digits <= 8 && secret_len >= 16 && !contains_text(issuer, ":"@) && !contains_text(account, ":"@)
}

/// Why the TOTP library refuses these settings: the digits or secret size,
/// then a colon in the issuer, then a colon in the account name.
pub open spec fn totp_new_refusal(digits: usize, secret_len: nat, issuer: Seq<char>) -> TotpSetupError {
    if !(6 <= digits <= 8 && secret_len >= 16) {
        TotpSetupError::Other
    } else if contains_text(issuer, ":"@) {
        TotpSetupError::Issuer
    } else {
        TotpSetupError::AccountName
    }
}

/// Calls `totp_rs::TOTP::new` on the settings and keeps only whether it
/// accepted them. Its source refuses fewer than 6 or more than 8 digits, a
/// secret under 16 bytes, then an issuer and then an account name containing
/// `:`; otherwise it builds the authenticator.
#[verifier::external_body]
fn totp_rs_new(algorithm: TotpAlgorithm, digits: usize, skew: u8, step: u64, secret: &[u8], issuer: &str, account: &str) -> (r: Result<(), TotpSetupError>)
    ensures
        r is Ok <==> totp_new_accepts(digits, secret@.len(), issuer@, account@),
        r matches Err(e) ==> e == totp_new_refusal(digits, secret@.len(), issuer@),
{
    let alg = match algorithm {
        TotpAlgorithm::Sha1 => totp_rs::Algorithm::SHA1,
    };
    totp_rs::TOTP::new(alg, digits, skew, step, secret.to_vec(), Some(issuer.to_string()), account.to_string())
        .map(|_| ())
        .map_err(|e| match e {
            totp_rs::TotpUrlError::Issuer(_) => TotpSetupError::Issuer,
            totp_rs::TotpUrlError::AccountName(_) => TotpSetupError::AccountName,
            _ => TotpSetupError::Other,
        })
}

/// An authenticator: its hash function, number of digits, steps of skew
/// either side, step length in seconds, secret, issuer and account name.
#[derive(Debug, Clone)]
pub struct Authenticator {
    pub algorithm: TotpAlgorithm,
    pub digits: usize,
    pub skew: u8,
    pub step: u64,
    pub secret: Vec<u8>,
    pub issuer: String,
    pub account: String,
}

impl Authenticator {
    /// Settings the TOTP library accepts, with steps of at least a second.
    pub open spec fn wf(&self) -> bool {
        totp_new_accepts(self.digits, self.secret@.len(), self.issuer@, self.account@) && self.step > 0
    }
}

/// Why building a user's authenticator fails, as its message reads.
pub open spec fn totp_setup_error(issuer: Seq<char>, email: Seq<char>, secret: Seq<char>) -> Option<Seq<char>> {
    match base32_secret_bytes_of(secret) {
        None => Some("Could not decode base32 secret."@),
        Some(b) => if b.len() < 16 {
            Some("Shared secret too short: "@ + nat_text(b.len()) + " bytes, need >= 16 (128 bits)"@)
        } else if contains_text(issuer, ":"@) {
            Some("Issuer can't contain a colon. \""@ + issuer + "\" contains a colon"@)
        } else if contains_text(email, ":"@) {
            Some("Account Name can't contain a colon. \""@ + email + "\" contains a colon"@)
        } else {
            None
        },
    }
}

/// Builds the authenticator of a user (SHA-1, 6 digits, one step of skew,
/// 30-second steps) from its Base32 secret, which must decode to at least 16
/// bytes; the company is the issuer and the e-mail the account name.
pub fn build_totp(issuer: &str, email: &str, base32_secret: &str) -> (r: Result<Authenticator, String>)
    ensures
        match totp_setup_error(issuer@, email@, base32_secret@) {
            None => r is Ok,
            Some(m) => r matches Err(e) && e@ == m,
        },
        r matches Ok(a) ==> {
            &&& a.wf()
            &&& a.digits == 6 && a.skew == 1 && a.step == 30
            &&& base32_secret_bytes_of(base32_secret@) == Some(a.secret@)
            &&& a.issuer@ == issuer@
            &&& a.account@ == email@
        },
{
    let secret = match decode_base32_secret(base32_secret) {
        Some(b) => b,
        None => return Err(String::from_str("Could not decode base32 secret.")),
    };
    if secret.len() < 16 {
        let mut m = String::from_str("Shared secret too short: ");
        push_nat(&mut m, secret.len() as u64);
        m.append(" bytes, need >= 16 (128 bits)");
        return Err(m);
    }
    match totp_rs_new(TotpAlgorithm::Sha1, 6, 1, 30, secret.as_slice(), issuer, email) {
        Ok(()) => Ok(Authenticator {
            algorithm: TotpAlgorithm::Sha1,
            digits: 6,
            skew: 1,
            step: 30,
            secret,
            issuer: String::from_str(issuer),
            account: String::from_str(email),
        }),
        Err(TotpSetupError::Issuer) => {
            let mut m = String::from_str("Issuer can't contain a colon. \"");
            m.append(issuer);
            m.append("\" contains a colon");
            Err(m)
        },
        Err(_) => {
            let mut m = String::from_str("Account Name can't contain a colon. \"");
            m.append(email);
            m.append("\" contains a colon");
            Err(m)
        },
    }
}

/// The code the TOTP library generates with SHA-1, in `digits` digits and
/// steps of `step` seconds, from a secret at `time` seconds after the epoch.
pub uninterp spec fn totp_code_of(secret: Seq<u8>, digits: usize, step: u64, time: u64) -> Seq<char>;

/// A code of `digits` decimal digits.
pub open spec fn is_code_text(c: Seq<char>, digits: usize) -> bool {
    c.len() == digits && forall|i: int| 0 <= i < c.len() ==> '0' <= #[trigger] c[i] <= '9'
}

/// Calls `TOTP::generate(time)` on an authenticator built with
/// `TOTP::new_unchecked` from the settings (skew, issuer and account name do
/// not enter the code). The code is named; the source writes it as the
/// truncated HMAC of the step number modulo 10^digits, zero-padded to
/// `digits` decimal digits. It divides by the step length, which must not be 0.
#[verifier::external_body]
fn totp_generate(algorithm: TotpAlgorithm, digits: usize, step: u64, secret: &[u8], time: u64) -> (r: String)
    requires
        6 <= digits <= 8,
        step > 0,
    ensures
        r@ == totp_code_of(secret@, digits, step, time),
        is_code_text(r@, digits),
{
    let alg = match algorithm {
        TotpAlgorithm::Sha1 => totp_rs::Algorithm::SHA1,
    };
    totp_rs::TOTP::new_unchecked(alg, digits, 0, step, secret.to_vec(), None, String::new()).generate(time)
}

/// The code of an authenticator at `time` seconds after the epoch.
pub fn code_at(a: &Authenticator, time: u64) -> (r: String)
    requires
        a.wf(),
    ensures
        r@ == totp_code_of(a.secret@, a.digits, a.step, time),
        is_code_text(r@, a.digits),
{
    totp_generate(a.algorithm, a.digits, a.step, a.secret.as_slice(), time)
}

/// Whether `token` is the code of the step `i` places into the window that
/// starts `skew` steps before the step of `time`. A step before the epoch, or
/// one whose first second does not fit in 64 bits, has no code.
pub open spec fn code_matches_at(secret: Seq<u8>, digits: usize, skew: u8, step: u64, token: Seq<char>, time: u64, i: int) -> bool {
    let k = (time / step) as int - skew as int + i;
    &&& 0 <= k
    &&& k * step <= u64::MAX
    &&& totp_code_of(secret, digits, step, (k * step) as u64) == token
}

/// Whether `token` is accepted at `time`: it is the code of the step of
/// `time` or of one of the `skew` steps either side of it.
pub open spec fn code_accepted(secret: Seq<u8>, digits: usize, skew: u8, step: u64, token: Seq<char>, time: u64) -> bool {
    exists|i: int| 0 <= i <= 2 * skew && #[trigger] code_matches_at(secret, digits, skew, step, token, time, i)
}

/// Whether the whole window of `time` lies within 64-bit seconds after the
/// epoch: its first step is not before the epoch and the first second of
/// its last step fits. Outside it the library's check underflows or overflows.
pub open spec fn window_fits(step: u64, skew: u8, time: u64) -> bool {
    &&& (time / step) as int >= skew as int
    &&& ((time / step) as int + skew as int) * step <= u64::MAX
}

/// Calls `TOTP::check(token, time)` on an authenticator built with
/// `TOTP::new_unchecked` from the settings (issuer and account name do not
/// enter the check). Its source goes through the steps from `skew` before
/// the step of `time` to `skew` after it, generates each step's code at the
/// step's first second and compares its bytes with the token's; it answers
/// whether one matched. The window must fit, else its arithmetic under- or
/// overflows.
#[verifier::external_body]
fn totp_check(algorithm: TotpAlgorithm, digits: usize, skew: u8, step: u64, secret: &[u8], token: &str, time: u64) -> (r: bool)
    requires
        6 <= digits <= 8,
        step > 0,
        window_fits(step, skew, time),
    ensures
        r == code_accepted(secret@, digits, skew, step, token@, time),
{
    let alg = match algorithm {
        TotpAlgorithm::Sha1 => totp_rs::Algorithm::SHA1,
    };
    totp_rs::TOTP::new_unchecked(alg, digits, skew, step, secret.to_vec(), None, String::new()).check(token, time)
}

/// Checks a code against an authenticator at `time` seconds after the epoch.
/// A time whose window does not fit (the first steps after the epoch, or the
/// last ones of 64-bit time) accepts no code.
pub fn check_code(a: &Authenticator, token: &str, time: u64) -> (r: bool)
    requires
        a.wf(),
    ensures
        r == (window_fits(a.step, a.skew, time) && code_accepted(a.secret@, a.digits, a.skew, a.step, token@, time)),
{
    let base = time / a.step;
    let skew = a.skew as u64;
    if base < skew {
        return false;
    }
    let fits = match base.checked_add(skew) {
        Some(last) => last.checked_mul(a.step).is_some(),
        None => {
            let ghost last: int = base as int + skew as int;
            assert(last * a.step >= last) by (nonlinear_arith)
                requires last >= 0, a.step >= 1;
            false
        },
    };
    if !fits {
        return false;
    }
    totp_check(a.algorithm, a.digits, a.skew, a.step, a.secret.as_slice(), token, time)
}

/// What the command-line client's current code is for a stored e-mail and
/// secret when the clock reads `now` (seconds after the epoch; a reading
/// before the epoch is the clock's error).
pub open spec fn code_answer(email: Seq<char>, secret: Seq<char>, now: i64) -> Result<Seq<char>, Seq<char>> {
    if totp_setup_error("spcli"@, email, secret) is Some {
        Err("failed to build TOTP from stored secret"@)
    } else if now < 0 {
        Err("failed to generate TOTP code: second time provided was later than self"@)
    } else {
        Ok(totp_code_of(base32_secret_bytes_of(secret)->0, 6, 30, now as u64))
    }
}

pub open spec fn answer_view(r: Result<String, String>) -> Result<Seq<char>, Seq<char>> {
    match r {
        Ok(c) => Ok(c@),
        Err(m) => Err(m@),
    }
}

/// The code the command-line client signs in with, from the stored e-mail
/// and secret, when the clock reads `now`.
pub fn current_totp_code_at(email: &str, totp_secret: &str, now: i64) -> (r: Result<String, String>)
    ensures
        answer_view(r) == code_answer(email@, totp_secret@, now),
        r matches Ok(c) ==> is_code_text(c@, 6),
        r is Ok <==> totp_setup_error("spcli"@, email@, totp_secret@) is None && now >= 0,
        r matches Ok(c) ==> c@ == totp_code_of(base32_secret_bytes_of(totp_secret@)->0, 6, 30, now as u64),
{
    let a = match build_totp("spcli", email, totp_secret) {
        Ok(a) => a,
        Err(_) => return Err(String::from_str("failed to build TOTP from stored secret")),
    };
    if now < 0 {
        return Err(String::from_str("failed to generate TOTP code: second time provided was later than self"));
    }
    Ok(code_at(&a, now as u64))
}

/// The code the command-line client signs in with, from the stored e-mail
/// and secret, at the time the clock reads. Which reading that is, is not
/// stated; a secret that cannot make an authenticator is reported as such.
pub fn current_totp_code(email: &str, totp_secret: &str) -> (r: Result<String, String>)
    ensures
        exists|now: i64| #[trigger] code_answer(email@, totp_secret@, now) == answer_view(r),
        r matches Ok(c) ==> is_code_text(c@, 6),
{
    let now = utc_now_unix_seconds();
    let r = current_totp_code_at(email, totp_secret, now);
    assert(code_answer(email@, totp_secret@, now) == answer_view(r));
    r
}

/// Base32 text (RFC 4648, no padding) of some bytes, as the encoding library writes it.
pub uninterp spec fn base32_nopad_of(bytes: Seq<u8>) -> Seq<char>;

/// Calls `data_encoding::BASE32_NOPAD.encode`. The text is named.
#[verifier::external_body]
fn base32_nopad_encode(bytes: &[u8]) -> (r: String)
    ensures
        r@ == base32_nopad_of(bytes@),
{
    data_encoding::BASE32_NOPAD.encode(bytes)
}

/// A fresh random secret of `bytes` bytes, in Base32 without padding.
pub fn generate_base32_secret_n(bytes: usize) -> (r: String)
    ensures
        exists|b: Seq<u8>| b.len() == bytes && r@ == #[trigger] base32_nopad_of(b),
{
    let buf = random_bytes(bytes);
    base32_nopad_encode(buf.as_slice())
}

/// Size of a generated secret: the `bytes` parameter, else its alias `s`,
/// else 20 bytes (160 bits); never under 16 bytes (128 bits).
pub fn secret_size(bytes: Option<usize>, s: Option<usize>) -> (n: usize)
    ensures
        n == ({
            let asked = match bytes {
                Some(b) => b,
                None => match s {
                    Some(x) => x,
                    None => 20,
                },
            };
            if asked < 16 { 16 } else { asked }
        }),
{
    let asked = match bytes {
        Some(b) => b,
        None => match s {
            Some(x) => x,
            None => 20,
        },
    };
    if asked < 16 {
        16
    } else {
        asked
    }
}

/// A user of the standalone authenticator service: e-mail, Base32 secret and
/// company (the issuer of its codes).
#[derive(Debug, Clone)]
pub struct TotpUser {
    pub email: String,
    pub secret: String,
    pub company: String,
}

/// The position of the first user with the given e-mail.
pub open spec fn user_index(users: Seq<TotpUser>, email: Seq<char>, i: int) -> Option<int>
    decreases users.len() - i,
{
    if i < 0 || i >= users.len() {
        None
    } else if users[i].email@ == email {
        Some(i)
    } else {
        user_index(users, email, i + 1)
    }
}

/// The first user with the given e-mail.
pub fn find_user(users: &Vec<TotpUser>, email: &str) -> (r: Option<TotpUser>)
    ensures
        match user_index(users@, email@, 0) {
            Some(i) => r matches Some(u) && u.email@ == users@[i].email@ && u.secret@ == users@[i].secret@
                && u.company@ == users@[i].company@,
            None => r is None,
        },
{
    let mut i: usize = 0;
    while i < users.len()
        invariant
            i <= users@.len(),
            user_index(users@, email@, 0) == user_index(users@, email@, i as int),
        decreases users.len() - i,
    {
        if same_text(users[i].email.as_str(), email) {
            let u = &users[i];
            return Some(TotpUser { email: u.email.clone(), secret: u.secret.clone(), company: u.company.clone() });
        }
        i = i + 1;
    }
    None
}

/// What the sign-in endpoint of the standalone service answers.
#[derive(Debug, Clone, PartialEq, Eq)]
pub enum LoginReply {
    /// The code matches: `{"ok": true}`.
    Accepted,
    /// The code does not match: `{"ok": false}`.
    Refused,
    /// The user's authenticator cannot be built: the error's text.
    SetupFailed(String),
    /// No user has that e-mail.
    UnknownUser,
}

impl LoginReply {
    /// The HTTP status of the answer.
    pub fn status_code(&self) -> (c: u16)
        ensures
            c == match self {
                LoginReply::Accepted => 200u16,
                LoginReply::Refused => 401u16,
                LoginReply::SetupFailed(_) => 500u16,
                LoginReply::UnknownUser => 404u16,
            },
    {
        match self {
            LoginReply::Accepted => 200,
            LoginReply::Refused => 401,
            LoginReply::SetupFailed(_) => 500,
            LoginReply::UnknownUser => 404,
        }
    }
}

/// What the sign-in endpoint answers for an e-mail and a code when the clock
/// reads `now` (seconds after the epoch): an unknown e-mail and an
/// authenticator that cannot be built are answered as such; otherwise the
/// code is accepted exactly when it is the user's code for the step of `now`
/// or the step either side. A reading before the epoch, or whose window does
/// not fit, refuses every code.
pub open spec fn login_answer(users: Seq<TotpUser>, email: Seq<char>, code: Seq<char>, now: i64, r: LoginReply) -> bool {
    match user_index(users, email, 0) {
        None => r is UnknownUser,
        Some(i) => match totp_setup_error(users[i].company@, users[i].email@, users[i].secret@) {
            Some(m) => r matches LoginReply::SetupFailed(e) && e@ == m,
            None => if now >= 0 && window_fits(30, 1, now as u64)
                && code_accepted(base32_secret_bytes_of(users[i].secret@)->0, 6, 1, 30, code, now as u64) {
                r is Accepted
            } else {
                r is Refused
            },
        },
    }
}

/// Signs a user in with an e-mail and a one-time code, the clock reading `now`.
pub fn login_at(users: &Vec<TotpUser>, email: &str, code: &str, now: i64) -> (r: LoginReply)
    ensures
        login_answer(users@, email@, code@, now, r),
{
    let user = match find_user(users, email) {
        Some(u) => u,
        None => return LoginReply::UnknownUser,
    };
    match build_totp(user.company.as_str(), user.email.as_str(), user.secret.as_str()) {
        Ok(a) => {
            if now >= 0 && check_code(&a, code, now as u64) {
                LoginReply::Accepted
            } else {
                LoginReply::Refused
            }
        },
        Err(e) => LoginReply::SetupFailed(e),
    }
}

/// Signs a user in with an e-mail and a one-time code at the time the clock
/// reads: the answer is `login_at`'s for that reading. Which reading that is,
/// is not stated.
pub fn login(users: &Vec<TotpUser>, email: &str, code: &str) -> (r: LoginReply)
    ensures
        exists|now: i64| #[trigger] login_answer(users@, email@, code@, now, r),
{
    let now = utc_now_unix_seconds();
    let r = login_at(users, email, code, now);
    assert(login_answer(users@, email@, code@, now, r));
    r
}

} // verus!
