//! The registration page.
use vstd::prelude::*;
use vstd::utf8::encode_utf8;

use crate::db::DbFailure;
use crate::templates::RegistarPage;
use crate::text::{trim, trim_str};

verus! {

broadcast use vstd::string::group_string_axioms;

pub struct RegistarQuery {
    pub next: String,
}

pub struct RegistarForm {
    pub username: String,
    pub password: String,
    pub next: String,
}

/// Where a new account goes once signed in: the form asking for its email.
pub fn registar_destination() -> (r: String)
    ensures
        r@ == "/adicionar_email/"@,
{
    "/adicionar_email/".to_owned()
}

/// The page with an error message, keeping where to go afterwards.
pub fn render_error<'a>(next: &'a str, msg: &'a str) -> (r: RegistarPage<'a>)
    ensures
        r.erro == msg,
        r.next == next,
{
    RegistarPage { erro: msg, next }
}

/// Trimmed username (at most 150 bytes) and password, both required.
pub fn registar_fields(username: &str, password: &str) -> (r: Result<(String, String), String>)
    ensures
        match r {
            Ok((u, p)) => u@ == trim(username@) && p@ == trim(password@) && u@.len() > 0 && p@.len() > 0
                && encode_utf8(u@).len() <= 150,
            Err(m) => if trim(username@).len() == 0 || trim(password@).len() == 0 {
                m@ == "Preencha todos os campos."@
            } else {
                encode_utf8(trim(username@)).len() > 150 && m@ == "Nome demasiado longo."@
            },
        },
{
    let u = trim_str(username);
    let p = trim_str(password);
    if u.as_str().is_empty() || p.as_str().is_empty() {
        return Err("Preencha todos os campos.".to_owned());
    }
    if u.as_str().as_bytes().len() > 150 {
        return Err("Nome demasiado longo.".to_owned());
    }
    Ok((u, p))
}

/// The username check of a registration.
pub fn registar_availability(taken: Result<bool, DbFailure>) -> (r: Result<(), String>)
    ensures
        match taken {
            Ok(false) => r is Ok,
            Ok(true) => r matches Err(m) && m@ == "Este nome de utilizador já existe."@,
            Err(_) => r matches Err(m) && m@ == "Erro ao verificar utilizador. Tente de novo."@,
        },
{
    match taken {
        Ok(true) => Err("Este nome de utilizador já existe.".to_owned()),
        Err(_) => Err("Erro ao verificar utilizador. Tente de novo.".to_owned()),
        Ok(false) => Ok(()),
    }
}

/// The new account's id, or the message when it could not be created.
pub fn registar_created(created: Result<i32, DbFailure>) -> (r: Result<i32, String>)
    ensures
        match created {
            Ok(id) => r == Ok::<i32, String>(id),
            Err(_) => r matches Err(m) && m@ == "Erro ao criar conta. Tente de novo."@,
        },
{
    match created {
        Ok(id) => Ok(id),
        Err(_) => Err("Erro ao criar conta. Tente de novo.".to_owned()),
    }
}

} // verus!
