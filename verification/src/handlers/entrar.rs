//! The sign-in page.
use vstd::prelude::*;

use super::{check_password, PasswordCheck};
use crate::db::{AuthUser, DbFailure};
use crate::hashing::{fresh_hash_of, spec_check, spec_verify, VerifyOutcome};
use crate::templates::EntrarPage;
use crate::text::{chars_of, contains_chars, contains_seq, occurs_at, starts_with, starts_with_chars, trim, trim_str};

verus! {

broadcast use vstd::string::group_string_axioms;

pub struct EntrarQuery {
    pub next: String,
}

pub struct EntrarForm {
    pub username: String,
    pub password: String,
    pub next: String,
}

/// The page with an error message, keeping where to go afterwards.
pub fn render_error<'a>(next: &'a str, msg: &'a str) -> (r: EntrarPage<'a>)
    ensures
        r.erro == msg,
        r.next == next,
{
    EntrarPage { erro: msg, next }
}

/// `s` with each `\` read as `/`, as browsers read a URL.
pub open spec fn backslash_as_slash(s: Seq<char>) -> Seq<char> {
    s.map_values(|c: char| if c == '\\' { '/' } else { c })
}

/// Same-origin guard on the page to return to: only a trimmed, non-empty
/// path that starts with one `/`, does not start with `//` even with each
/// `\` read as `/` (a link to another host), and holds no `://`.
pub open spec fn spec_sanitize_next(next: Seq<char>) -> Option<Seq<char>> {
    let n = trim(next);
    if n.len() == 0 || !starts_with(n, "/"@) || starts_with(n, "//"@)
        || starts_with(backslash_as_slash(n), "//"@) || contains_seq(n, "://"@) {
        None
    } else {
        Some(n)
    }
}

pub fn sanitize_next(next: &str) -> (r: Option<String>)
    ensures
        match r {
            Some(s) => spec_sanitize_next(next@) == Some(s@),
            None => spec_sanitize_next(next@) is None,
        },
{
    let n = trim_str(next);
    let c = chars_of(n.as_str());
    if n.as_str().is_empty() {
        return None;
    }
    let slash = chars_of("/");
    let two = chars_of("//");
    let scheme = chars_of("://");
    if !starts_with_chars(c.as_slice(), slash.as_slice()) {
        return None;
    }
    if starts_with_chars(c.as_slice(), two.as_slice()) {
        return None;
    }
    proof {
        reveal_strlit("/");
        reveal_strlit("//");
        assert(c@[0] == c@.take(1)[0]);
    }
    if c.len() >= 2 && c[1] == '\\' {
        proof {
            assert(backslash_as_slash(c@).take(2) =~= "//"@);
        }
        return None;
    }
    proof {
        if c@.len() >= 2 {
            assert(c@[1] != '/') by {
                if c@[1] == '/' {
                    assert(c@.take(2) =~= "//"@);
                }
            }
            assert(backslash_as_slash(c@).take(2)[1] != "//"@[1]);
        }
    }
    if contains_chars(c.as_slice(), scheme.as_slice()) {
        return None;
    }
    Some(n)
}

/// Trimmed username and password, both required.
pub fn entrar_fields(username: &str, password: &str) -> (r: Result<(String, String), String>)
    ensures
        match r {
            Ok((u, p)) => u@ == trim(username@) && p@ == trim(password@) && u@.len() > 0 && p@.len() > 0,
            Err(m) => (trim(username@).len() == 0 || trim(password@).len() == 0) && m@ == "Preencha todos os campos."@,
        },
{
    let u = trim_str(username);
    let p = trim_str(password);
    if u.as_str().is_empty() || p.as_str().is_empty() {
        return Err("Preencha todos os campos.".to_owned());
    }
    Ok((u, p))
}

/// The message for a wrong username or password; it does not tell which.
pub open spec fn bad_credentials() -> Seq<char> {
    "Nome de utilizador ou palavra-passe incorretos."@
}

/// The account a sign-in names; an unknown name and a failed query both
/// read as bad credentials.
pub fn entrar_lookup(found: Result<Option<AuthUser>, DbFailure>) -> (r: Result<AuthUser, String>)
    ensures
        match found {
            Ok(Some(u)) => r == Ok::<AuthUser, String>(u),
            _ => r matches Err(m) && m@ == bad_credentials(),
        },
{
    match found {
        Ok(Some(u)) => Ok(u),
        _ => Err("Nome de utilizador ou palavra-passe incorretos.".to_owned()),
    }
}

/// The password step: `Ok` with a fresh hash to store for a legacy row.
pub fn entrar_password(user: &AuthUser, password: &str) -> (r: Result<Option<String>, String>)
    ensures
        match spec_verify(user.password@, password@) {
            VerifyOutcome::Plain => r matches Ok(None),
            VerifyOutcome::Legacy => r matches Ok(Some(h)) && fresh_hash_of(h@, password@) && spec_check(h@, password@),
            VerifyOutcome::Failed => r matches Err(m) && m@ == bad_credentials(),
        },
{
    match check_password(user.password.as_str(), password) {
        PasswordCheck::Accepted { rehash } => Ok(rehash),
        PasswordCheck::Rejected => Err("Nome de utilizador ou palavra-passe incorretos.".to_owned()),
    }
}

/// The message when the session cannot be written.
pub fn session_error_message() -> (m: String)
    ensures
        m@ == "Erro de sessão. Tente novamente."@,
{
    "Erro de sessão. Tente novamente.".to_owned()
}

/// Where a successful sign-in goes: to add an email when the account has
/// none, else to the sanitized `next`, else home.
pub open spec fn spec_entrar_destination(email: Seq<char>, next: Seq<char>) -> Seq<char> {
    if email.len() == 0 {
        "/adicionar_email/"@
    } else {
        match spec_sanitize_next(next) {
            Some(n) => n,
            None => "/"@,
        }
    }
}

pub fn entrar_destination(email: &str, next: &str) -> (r: String)
    ensures
        r@ == spec_entrar_destination(email@, next@),
{
    if email.is_empty() {
        return "/adicionar_email/".to_owned();
    }
    match sanitize_next(next) {
        Some(n) => n,
        None => "/".to_owned(),
    }
}

/// A path of this site: it starts with a single `/`, not with `//` even
/// with each `\` read as `/`, and holds no `://`.
pub open spec fn is_local_path(p: Seq<char>) -> bool {
    &&& starts_with(p, "/"@)
    &&& !starts_with(p, "//"@)
    &&& !starts_with(backslash_as_slash(p), "//"@)
    &&& !contains_seq(p, "://"@)
}

proof fn lemma_no_colon_no_scheme(s: Seq<char>)
    requires
        forall|k: int| 0 <= k < s.len() ==> s[k] != ':',
    ensures
        !contains_seq(s, "://"@),
{
    reveal_strlit("://");
    if contains_seq(s, "://"@) {
        let i = choose|i: int| occurs_at(s, "://"@, i);
        assert(s.subrange(i, i + 3)[0] == s[i]);
    }
}

/// Wherever a sign-in sends the user, it is a path of this site: a `next`
/// that names another host or scheme is never followed.
pub proof fn lemma_destination_is_local(email: Seq<char>, next: Seq<char>)
    ensures
        is_local_path(spec_entrar_destination(email, next)),
{
    reveal_strlit("/");
    reveal_strlit("//");
    reveal_strlit("/adicionar_email/");
    let d = spec_entrar_destination(email, next);
    if email.len() == 0 {
        let a = "/adicionar_email/"@;
        assert(a.take(1) =~= "/"@);
        assert(a[1] != '/');
        assert(a.take(2) != "//"@) by {
            assert(a.take(2)[1] != "//"@[1]);
        }
        assert forall|k: int| 0 <= k < a.len() implies a[k] != ':' by {}
        lemma_no_colon_no_scheme(a);
    } else if spec_sanitize_next(next) is None {
        let h = "/"@;
        assert(h.take(1) =~= h);
        lemma_no_colon_no_scheme(h);
    }
}

} // verus!
