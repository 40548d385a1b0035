//! The page that asks a signed-in user for an email address.
use vstd::prelude::*;
use vstd::string::StringExecFns;

use crate::auth::CurrentUser;
use crate::db::DbFailure;
use crate::templates::AdicionarEmailPage;
use crate::text::{chars_of, contains_char, trim, trim_str};

verus! {

broadcast use vstd::string::group_string_axioms;

pub struct EmailForm {
    pub email: String,
}

/// Who may see the page: anonymous visitors go to sign-in, users who have
/// an email go home, the rest get the form.
pub enum EmailGate {
    Redirect { to: String },
    Form,
}

pub fn show_gate(user: &Option<CurrentUser>) -> (r: EmailGate)
    ensures
        match user {
            None => r matches EmailGate::Redirect { to } && to@ == "/entrar/"@,
            Some(u) => if u.email@.len() > 0 {
                r matches EmailGate::Redirect { to } && to@ == "/"@
            } else {
                r is Form
            },
        },
{
    match user {
        None => EmailGate::Redirect { to: "/entrar/".to_owned() },
        Some(u) => {
            if !u.email.as_str().is_empty() {
                EmailGate::Redirect { to: "/".to_owned() }
            } else {
                EmailGate::Form
            }
        },
    }
}

/// The form with an error message.
pub fn render<'a>(username: &'a str, msg: &'a str) -> (r: AdicionarEmailPage<'a>)
    ensures
        r.erro == msg,
        r.username == username,
{
    AdicionarEmailPage { erro: msg, username }
}

/// The trimmed address: required and with an `@`.
pub fn email_form_field(email: &str) -> (r: Result<String, String>)
    ensures
        match r {
            Ok(t) => t@ == trim(email@) && t@.len() > 0 && t@.contains('@'),
            Err(m) => (trim(email@).len() == 0 || !trim(email@).contains('@'))
                && m@ == "Introduza um endereço de email válido."@,
        },
{
    let t = trim_str(email);
    let c = chars_of(t.as_str());
    if t.as_str().is_empty() || !contains_char(c.as_slice(), '@') {
        return Err("Introduza um endereço de email válido.".to_owned());
    }
    Ok(t)
}

/// The uniqueness check of the address.
pub fn email_form_availability(taken: Result<bool, DbFailure>) -> (r: Result<(), String>)
    ensures
        match taken {
            Ok(false) => r is Ok,
            Ok(true) => r matches Err(m) && m@ == "Este email já está associado a outra conta."@,
            Err(_) => r matches Err(m) && m@ == "Erro ao validar email. Tente de novo."@,
        },
{
    match taken {
        Ok(true) => Err("Este email já está associado a outra conta.".to_owned()),
        Err(_) => Err("Erro ao validar email. Tente de novo.".to_owned()),
        Ok(false) => Ok(()),
    }
}

/// Saving the address.
pub fn email_form_saved(saved: Result<(), DbFailure>) -> (r: Result<(), String>)
    ensures
        match saved {
            Ok(()) => r is Ok,
            Err(_) => r matches Err(m) && m@ == "Erro ao gravar email. Tente de novo."@,
        },
{
    match saved {
        Ok(()) => Ok(()),
        Err(_) => Err("Erro ao gravar email. Tente de novo.".to_owned()),
    }
}

/// The confirmation sent to the newly linked address.
pub open spec fn spec_welcome_message(username: Seq<char>, email: Seq<char>) -> Seq<char> {
    "Olá "@ + username + ",\n\nO email "@ + email
        + " foi associado à sua conta no ListaIsto.\n\nSe não fez esta alteração, contacte-nos.\n\n— ListaIsto"@
}

pub fn welcome_message(username: &str, email: &str) -> (r: String)
    ensures
        r@ == spec_welcome_message(username@, email@),
{
    let mut r = String::new();
    r.append("Olá ");
    r.append(username);
    r.append(",\n\nO email ");
    r.append(email);
    r.append(" foi associado à sua conta no ListaIsto.\n\nSe não fez esta alteração, contacte-nos.\n\n— ListaIsto");
    r
}

} // verus!
