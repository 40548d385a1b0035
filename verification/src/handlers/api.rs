//! The JSON account API: sign-in, registration, email, password changes
//! and recovery.
use vstd::prelude::*;
use vstd::string::StringExecFns;
use vstd::utf8::encode_utf8;

use super::{api_error, check_password, is_error, ApiError, PasswordCheck, BAD_REQUEST, CONFLICT,
    INTERNAL_SERVER_ERROR, UNAUTHORIZED};
use crate::auth::CurrentUser;
use crate::db::{AuthUser, DbFailure, Lista};
use crate::hashing::{fresh_hash_of, make, spec_check, spec_verify, VerifyOutcome};
use crate::text::{chars_of, contains_char, str_eq, string_of, trim, trim_str};
use crate::time::{add_span, now_micros, MICROS_PER_HOUR};

verus! {

broadcast use vstd::string::group_string_axioms;

pub struct MeResponse {
    pub id: i32,
    pub username: String,
    pub email: String,
    pub needs_email: bool,
}

pub struct LoginBody {
    pub username: String,
    pub password: String,
}

pub struct RegisterBody {
    pub username: String,
    pub password: String,
}

pub struct EmailBody {
    pub email: String,
}

pub struct ChangePwBody {
    pub old_password: String,
    pub new_password: String,
}

pub struct ChangeUsernameBody {
    pub username: String,
}

pub struct RecoverBody {
    pub email: String,
}

pub struct RecoverResponse {
    pub sent: bool,
}

pub struct ResetBody {
    pub token: String,
    pub new_password: String,
}

pub struct ResetCheckResponse {
    pub valid: bool,
}

/// The account answer for a signed-in user; an account without email is
/// flagged so the client asks for one.
pub fn ok_user(u: &CurrentUser) -> (r: MeResponse)
    ensures
        r.id == u.id,
        r.username@ == u.username@,
        r.email@ == u.email@,
        r.needs_email == (u.email@.len() == 0),
{
    MeResponse {
        id: u.id,
        username: u.username.clone(),
        email: u.email.clone(),
        needs_email: u.email.as_str().is_empty(),
    }
}

/// `GET /api/me`.
pub fn me(user: &Option<CurrentUser>) -> (r: Result<MeResponse, ApiError>)
    ensures
        match user {
            Some(u) => r matches Ok(m) && m.id == u.id && m.username@ == u.username@ && m.email@ == u.email@
                && m.needs_email == (u.email@.len() == 0),
            None => r matches Err(e) && is_error(e, UNAUTHORIZED, "not authenticated"@),
        },
{
    match user {
        Some(u) => Ok(ok_user(u)),
        None => Err(api_error(UNAUTHORIZED, "not authenticated")),
    }
}

/// Trimmed username and password, both required.
pub fn login_fields(username: &str, password: &str) -> (r: Result<(String, String), ApiError>)
    ensures
        match r {
            Ok((u, p)) => u@ == trim(username@) && p@ == trim(password@) && u@.len() > 0 && p@.len() > 0,
            Err(e) => (trim(username@).len() == 0 || trim(password@).len() == 0)
                && is_error(e, BAD_REQUEST, "Preencha todos os campos."@),
        },
{
    let u = trim_str(username);
    let p = trim_str(password);
    if u.as_str().is_empty() || p.as_str().is_empty() {
        return Err(api_error(BAD_REQUEST, "Preencha todos os campos."));
    }
    Ok((u, p))
}

/// The account a sign-in names.
pub fn login_lookup(found: Result<Option<AuthUser>, DbFailure>) -> (r: Result<AuthUser, ApiError>)
    ensures
        match found {
            Ok(Some(u)) => r == Ok::<AuthUser, ApiError>(u),
            Ok(None) => r matches Err(e) && is_error(e, UNAUTHORIZED, "Nome de utilizador ou palavra-passe incorretos."@),
            Err(_) => r matches Err(e) && is_error(e, INTERNAL_SERVER_ERROR, "Erro interno. Tente de novo."@),
        },
{
    match found {
        Ok(Some(u)) => Ok(u),
        Ok(None) => Err(api_error(UNAUTHORIZED, "Nome de utilizador ou palavra-passe incorretos.")),
        Err(_) => Err(api_error(INTERNAL_SERVER_ERROR, "Erro interno. Tente de novo.")),
    }
}

/// The password step of a sign-in: `Ok` with a fresh hash to store when the
/// row had the legacy shape, 401 when the password is wrong.
pub fn login_password(user: &AuthUser, password: &str) -> (r: Result<Option<String>, ApiError>)
    ensures
        match spec_verify(user.password@, password@) {
            VerifyOutcome::Plain => r matches Ok(None),
            VerifyOutcome::Legacy => r matches Ok(Some(h)) && fresh_hash_of(h@, password@) && spec_check(h@, password@),
            VerifyOutcome::Failed => r matches Err(e)
                && is_error(e, UNAUTHORIZED, "Nome de utilizador ou palavra-passe incorretos."@),
        },
{
    match check_password(user.password.as_str(), password) {
        PasswordCheck::Accepted { rehash } => Ok(rehash),
        PasswordCheck::Rejected => Err(api_error(UNAUTHORIZED, "Nome de utilizador ou palavra-passe incorretos.")),
    }
}

/// The answer when the session cannot be written.
pub fn session_error() -> (e: ApiError)
    ensures
        is_error(e, INTERNAL_SERVER_ERROR, "Erro de sessão."@),
{
    api_error(INTERNAL_SERVER_ERROR, "Erro de sessão.")
}

/// Trimmed username and password of a registration: both required, the
/// username at most 150 bytes.
pub fn register_fields(username: &str, password: &str) -> (r: Result<(String, String), ApiError>)
    ensures
        match r {
            Ok((u, p)) => u@ == trim(username@) && p@ == trim(password@) && u@.len() > 0 && p@.len() > 0
                && encode_utf8(u@).len() <= 150,
            Err(e) => if trim(username@).len() == 0 || trim(password@).len() == 0 {
                is_error(e, BAD_REQUEST, "Preencha todos os campos."@)
            } else {
                encode_utf8(trim(username@)).len() > 150 && is_error(e, BAD_REQUEST, "Nome demasiado longo."@)
            },
        },
{
    let u = trim_str(username);
    let p = trim_str(password);
    if u.as_str().is_empty() || p.as_str().is_empty() {
        return Err(api_error(BAD_REQUEST, "Preencha todos os campos."));
    }
    if u.as_str().as_bytes().len() > 150 {
        return Err(api_error(BAD_REQUEST, "Nome demasiado longo."));
    }
    Ok((u, p))
}

/// The username check of a registration or rename.
pub fn username_availability(taken: Result<bool, DbFailure>) -> (r: Result<(), ApiError>)
    ensures
        match taken {
            Ok(false) => r is Ok,
            Ok(true) => r matches Err(e) && is_error(e, CONFLICT, "Este nome de utilizador já existe."@),
            Err(_) => r matches Err(e) && is_error(e, INTERNAL_SERVER_ERROR, "Erro interno."@),
        },
{
    match taken {
        Ok(true) => Err(api_error(CONFLICT, "Este nome de utilizador já existe.")),
        Err(_) => Err(api_error(INTERNAL_SERVER_ERROR, "Erro interno.")),
        Ok(false) => Ok(()),
    }
}

/// The new account's id, or 500 when it could not be created.
pub fn account_created(created: Result<i32, DbFailure>) -> (r: Result<i32, ApiError>)
    ensures
        match created {
            Ok(id) => r == Ok::<i32, ApiError>(id),
            Err(_) => r matches Err(e) && is_error(e, INTERNAL_SERVER_ERROR, "Erro ao criar conta."@),
        },
{
    match created {
        Ok(id) => Ok(id),
        Err(_) => Err(api_error(INTERNAL_SERVER_ERROR, "Erro ao criar conta.")),
    }
}

/// The trimmed email of `/api/email`: non-empty, with `@` and `.`.
pub fn email_field(email: &str) -> (r: Result<String, ApiError>)
    ensures
        match r {
            Ok(t) => t@ == trim(email@) && super::api_email_ok(email@),
            Err(e) => !super::api_email_ok(email@) && is_error(e, BAD_REQUEST, "Email inválido."@),
        },
{
    let t = trim_str(email);
    let c = chars_of(t.as_str());
    if t.as_str().is_empty() || !contains_char(c.as_slice(), '@') || !contains_char(c.as_slice(), '.') {
        return Err(api_error(BAD_REQUEST, "Email inválido."));
    }
    Ok(t)
}

/// The uniqueness check of a new email.
pub fn email_availability(taken: Result<bool, DbFailure>) -> (r: Result<(), ApiError>)
    ensures
        match taken {
            Ok(false) => r is Ok,
            Ok(true) => r matches Err(e) && is_error(e, CONFLICT, "Este email já está associado a outra conta."@),
            Err(_) => r matches Err(e) && is_error(e, INTERNAL_SERVER_ERROR, "Erro interno."@),
        },
{
    match taken {
        Ok(true) => Err(api_error(CONFLICT, "Este email já está associado a outra conta.")),
        Err(_) => Err(api_error(INTERNAL_SERVER_ERROR, "Erro interno.")),
        Ok(false) => Ok(()),
    }
}

/// Saving an email: 500 when the write failed.
pub fn email_saved(saved: Result<(), DbFailure>) -> (r: Result<(), ApiError>)
    ensures
        match saved {
            Ok(()) => r is Ok,
            Err(_) => r matches Err(e) && is_error(e, INTERNAL_SERVER_ERROR, "Erro ao gravar email."@),
        },
{
    match saved {
        Ok(()) => Ok(()),
        Err(_) => Err(api_error(INTERNAL_SERVER_ERROR, "Erro ao gravar email.")),
    }
}

/// The confirmation sent to a newly linked address.
pub open spec fn spec_email_linked_message(username: Seq<char>, email: Seq<char>) -> Seq<char> {
    "Olá "@ + username + ",\n\nO email "@ + email + " foi associado à sua conta no ListaIsto.\n\n— ListaIsto"@
}

pub fn email_linked_message(username: &str, email: &str) -> (r: String)
    ensures
        r@ == spec_email_linked_message(username@, email@),
{
    let mut r = String::new();
    r.append("Olá ");
    r.append(username);
    r.append(",\n\nO email ");
    r.append(email);
    r.append(" foi associado à sua conta no ListaIsto.\n\n— ListaIsto");
    r
}

/// A write of the account: 500 when it failed.
pub fn write_saved(saved: Result<(), DbFailure>) -> (r: Result<(), ApiError>)
    ensures
        match saved {
            Ok(()) => r is Ok,
            Err(_) => r matches Err(e) && is_error(e, INTERNAL_SERVER_ERROR, "Erro ao gravar."@),
        },
{
    match saved {
        Ok(()) => Ok(()),
        Err(_) => Err(api_error(INTERNAL_SERVER_ERROR, "Erro ao gravar.")),
    }
}

/// Trimmed old and new passwords of a change: the new one at least 4 bytes.
pub fn change_password_fields(old_password: &str, new_password: &str) -> (r: Result<(String, String), ApiError>)
    ensures
        match r {
            Ok((o, n)) => o@ == trim(old_password@) && n@ == trim(new_password@) && encode_utf8(n@).len() >= 4,
            Err(e) => encode_utf8(trim(new_password@)).len() < 4
                && is_error(e, BAD_REQUEST, "A nova palavra-passe é demasiado curta."@),
        },
{
    let o = trim_str(old_password);
    let n = trim_str(new_password);
    if n.as_str().as_bytes().len() < 4 {
        return Err(api_error(BAD_REQUEST, "A nova palavra-passe é demasiado curta."));
    }
    Ok((o, n))
}

/// The hash to store for a password change: the current password must
/// verify (directly or in the legacy shape) against the stored row.
pub fn change_password_hash(stored: Result<Option<AuthUser>, DbFailure>, old: &str, new: &str) -> (r: Result<String, ApiError>)
    ensures
        match stored {
            Ok(Some(u)) => match r {
                Ok(h) => spec_verify(u.password@, old@) != VerifyOutcome::Failed && fresh_hash_of(h@, new@) && spec_check(h@, new@),
                Err(e) => spec_verify(u.password@, old@) == VerifyOutcome::Failed
                    && is_error(e, BAD_REQUEST, "Palavra-passe atual incorreta."@),
            },
            _ => r matches Err(e) && is_error(e, INTERNAL_SERVER_ERROR, "Erro interno."@),
        },
{
    let u = match stored {
        Ok(Some(u)) => u,
        _ => return Err(api_error(INTERNAL_SERVER_ERROR, "Erro interno.")),
    };
    match check_password(u.password.as_str(), old) {
        PasswordCheck::Accepted { .. } => Ok(make(new)),
        PasswordCheck::Rejected => Err(api_error(BAD_REQUEST, "Palavra-passe atual incorreta.")),
    }
}

/// The new username of a rename: trimmed, required, at most 150 bytes;
/// `Ok(None)` when it is the current one.
pub fn change_username_field(username: &str, user: &CurrentUser) -> (r: Result<Option<String>, ApiError>)
    ensures
        match r {
            Ok(None) => trim(username@) == user.username@ && trim(username@).len() > 0
                && encode_utf8(trim(username@)).len() <= 150,
            Ok(Some(t)) => t@ == trim(username@) && t@ != user.username@ && t@.len() > 0 && encode_utf8(t@).len() <= 150,
            Err(e) => if trim(username@).len() == 0 {
                is_error(e, BAD_REQUEST, "Introduza um nome de utilizador."@)
            } else {
                encode_utf8(trim(username@)).len() > 150 && is_error(e, BAD_REQUEST, "Nome demasiado longo."@)
            },
        },
{
    let t = trim_str(username);
    if t.as_str().is_empty() {
        return Err(api_error(BAD_REQUEST, "Introduza um nome de utilizador."));
    }
    if t.as_str().as_bytes().len() > 150 {
        return Err(api_error(BAD_REQUEST, "Nome demasiado longo."));
    }
    if str_eq(t.as_str(), user.username.as_str()) {
        return Ok(None);
    }
    Ok(Some(t))
}

/// Redeeming a stashed share link adds the user to its list unless they own
/// it already.
pub fn grants_share(lista: &Lista, user_id: i32) -> (r: bool)
    ensures
        r == (lista.dono_id != user_id),
{
    lista.dono_id != user_id
}

/// The answer to a recovery request is always "sent", so it does not reveal
/// whether the address belongs to an account.
pub fn recover_response() -> (r: RecoverResponse)
    ensures
        r.sent,
{
    RecoverResponse { sent: true }
}

/// The trimmed address of a recovery request, required.
pub fn recover_field(email: &str) -> (r: Result<String, ApiError>)
    ensures
        match r {
            Ok(t) => t@ == trim(email@) && t@.len() > 0,
            Err(e) => trim(email@).len() == 0 && is_error(e, BAD_REQUEST, "Introduza o seu email."@),
        },
{
    let t = trim_str(email);
    if t.as_str().is_empty() {
        return Err(api_error(BAD_REQUEST, "Introduza o seu email."));
    }
    Ok(t)
}

/// The account a recovery request mails: only one found by its address; an
/// unknown address or a failed query mails nobody (and the answer is the
/// same either way).
pub fn recover_target(found: Result<Option<AuthUser>, DbFailure>) -> (r: Option<AuthUser>)
    ensures
        match found {
            Ok(Some(u)) => r == Some(u),
            _ => r is None,
        },
{
    match found {
        Ok(Some(u)) => Some(u),
        _ => None,
    }
}

/// A reset token issued at `now` lasts one hour; `None` where that instant
/// does not fit in an `i64`.
pub open spec fn reset_expiry_outcome(now: i64, r: Option<i64>) -> bool {
    match r {
        Some(t) => t == now + MICROS_PER_HOUR,
        None => now + MICROS_PER_HOUR > i64::MAX,
    }
}

pub fn reset_expiry(now: i64) -> (r: Option<i64>)
    ensures
        reset_expiry_outcome(now, r),
{
    add_span(now, 1, MICROS_PER_HOUR)
}

/// The expiry of a reset token issued now. Which instant "now" is rests on
/// the clock; whatever it was, the expiry is the one for it.
pub fn new_reset_expiry() -> (r: Option<i64>)
    ensures
        exists|now: i64| #[trigger] reset_expiry_outcome(now, r),
{
    let now = now_micros();
    let r = reset_expiry(now);
    assert(reset_expiry_outcome(now, r));
    r
}

/// `s` without trailing `/` characters (`trim_end_matches('/')`).
pub open spec fn trim_end_slashes(s: Seq<char>) -> Seq<char>
    decreases s.len(),
{
    if s.len() > 0 && s.last() == '/' {
        trim_end_slashes(s.drop_last())
    } else {
        s
    }
}

fn trim_end_slashes_chars(s: &[char]) -> (r: Vec<char>)
    ensures
        r@ == trim_end_slashes(s@),
{
    let mut v: Vec<char> = Vec::new();
    let n = s.len();
    for i in 0..n
        invariant
            n == s@.len(),
            v@ == s@.take(i as int),
    {
        v.push(s[i]);
        assert(s@.take(i + 1) == s@.take(i as int).push(s@[i as int]));
    }
    assert(s@.take(n as int) == s@);
    while v.len() > 0 && v[v.len() - 1] == '/'
        invariant
            trim_end_slashes(v@) == trim_end_slashes(s@),
        decreases v.len(),
    {
        v.pop();
    }
    v
}

/// The address of the reset page for `token` under the site's base URL.
pub open spec fn spec_reset_link(base: Seq<char>, token: Seq<char>) -> Seq<char> {
    trim_end_slashes(base) + "/reset/"@ + token
}

proof fn lemma_trim_end_slashes(s: Seq<char>)
    ensures
        trim_end_slashes(s).len() <= s.len(),
        trim_end_slashes(s) == s.take(trim_end_slashes(s).len() as int),
        forall|j: int| trim_end_slashes(s).len() <= j < s.len() ==> s[j] == '/',
        trim_end_slashes(s).len() == 0 || trim_end_slashes(s).last() != '/',
    decreases s.len(),
{
    if s.len() > 0 && s.last() == '/' {
        lemma_trim_end_slashes(s.drop_last());
        let t = trim_end_slashes(s.drop_last());
        assert(s.drop_last().take(t.len() as int) =~= s.take(t.len() as int));
        assert forall|j: int| t.len() <= j < s.len() implies s[j] == '/' by {
            if j < s.len() - 1 {
                assert(s.drop_last()[j] == s[j]);
            }
        }
    } else {
        assert(s.take(s.len() as int) =~= s);
    }
}

/// The reset link is the base URL with only its trailing `/` characters
/// removed, then `/reset/` and the token; a base that does not end in `/`
/// is kept whole.
pub proof fn lemma_reset_link_keeps_base(base: Seq<char>, token: Seq<char>)
    ensures
        (base.len() == 0 || base.last() != '/') ==> spec_reset_link(base, token) == base + "/reset/"@ + token,
        exists|k: int|
            0 <= k <= base.len() && spec_reset_link(base, token) == #[trigger] base.take(k) + "/reset/"@ + token
                && (forall|j: int| k <= j < base.len() ==> base[j] == '/')
                && (k == 0 || base[k - 1] != '/'),
{
    lemma_trim_end_slashes(base);
    let t = trim_end_slashes(base);
    let k = t.len() as int;
    if k > 0 {
        assert(t.last() == base[k - 1]);
    }
    if base.len() == 0 || base.last() != '/' {
        assert(t == base);
    }
    assert(spec_reset_link(base, token) == base.take(k) + "/reset/"@ + token);
}

pub fn reset_link(base: &str, token: &str) -> (r: String)
    ensures
        r@ == spec_reset_link(base@, token@),
        (base@.len() == 0 || base@.last() != '/') ==> r@ == base@ + "/reset/"@ + token@,
{
    proof {
        lemma_reset_link_keeps_base(base@, token@);
    }
    let b = chars_of(base);
    let t = trim_end_slashes_chars(b.as_slice());
    let mut r = string_of(t.as_slice());
    r.append("/reset/");
    r.append(token);
    r
}

/// The recovery mail for `username` with its reset link.
pub open spec fn spec_recovery_message(username: Seq<char>, link: Seq<char>) -> Seq<char> {
    "Olá "@ + username + ",\n\nRecebemos um pedido para recuperar a tua palavra-passe.\n\nAbre este link (válido durante 1 hora) para definir uma nova:\n"@
        + link + "\n\nSe não foste tu, ignora este email.\n\n— ListaIsto"@
}

pub fn recovery_message(username: &str, link: &str) -> (r: String)
    ensures
        r@ == spec_recovery_message(username@, link@),
{
    let mut r = String::new();
    r.append("Olá ");
    r.append(username);
    r.append(",\n\nRecebemos um pedido para recuperar a tua palavra-passe.\n\nAbre este link (válido durante 1 hora) para definir uma nova:\n");
    r.append(link);
    r.append("\n\nSe não foste tu, ignora este email.\n\n— ListaIsto");
    r
}

/// `GET /api/password/reset/:token`: a failed query reads as invalid.
pub fn reset_check(valid: Result<bool, DbFailure>) -> (r: ResetCheckResponse)
    ensures
        r.valid == (valid matches Ok(true)),
{
    match valid {
        Ok(v) => ResetCheckResponse { valid: v },
        Err(_) => ResetCheckResponse { valid: false },
    }
}

/// The trimmed new password of a reset: at least 4 bytes.
pub fn reset_field(new_password: &str) -> (r: Result<String, ApiError>)
    ensures
        match r {
            Ok(n) => n@ == trim(new_password@) && encode_utf8(n@).len() >= 4,
            Err(e) => encode_utf8(trim(new_password@)).len() < 4
                && is_error(e, BAD_REQUEST, "A palavra-passe é demasiado curta."@),
        },
{
    let n = trim_str(new_password);
    if n.as_str().as_bytes().len() < 4 {
        return Err(api_error(BAD_REQUEST, "A palavra-passe é demasiado curta."));
    }
    Ok(n)
}

/// The account a redeemed reset token belongs to.
pub fn reset_outcome(consumed: Result<Option<i32>, DbFailure>) -> (r: Result<i32, ApiError>)
    ensures
        match consumed {
            Ok(Some(id)) => r == Ok::<i32, ApiError>(id),
            Ok(None) => r matches Err(e) && is_error(e, BAD_REQUEST, "Link inválido ou expirado."@),
            Err(_) => r matches Err(e) && is_error(e, INTERNAL_SERVER_ERROR, "Erro interno."@),
        },
{
    match consumed {
        Ok(Some(id)) => Ok(id),
        Ok(None) => Err(api_error(BAD_REQUEST, "Link inválido ou expirado.")),
        Err(_) => Err(api_error(INTERNAL_SERVER_ERROR, "Erro interno.")),
    }
}

} // verus!
