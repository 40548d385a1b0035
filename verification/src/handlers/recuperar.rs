//! The password-recovery page.
use vstd::prelude::*;
use vstd::string::StringExecFns;

use crate::templates::RecuperarPage;
use crate::text::{trim, trim_str};

verus! {

broadcast use vstd::string::group_string_axioms;

pub struct RecuperarForm {
    pub email: String,
}

/// The empty form.
pub fn show_page<'a>() -> (r: RecuperarPage<'a>)
    ensures
        !r.enviado,
        r.erro@ == ""@,
{
    RecuperarPage { enviado: false, erro: "" }
}

/// The trimmed address, or the page asking for one.
pub fn submit_field<'a>(email: &str) -> (r: Result<String, RecuperarPage<'a>>)
    ensures
        match r {
            Ok(t) => t@ == trim(email@) && t@.len() > 0,
            Err(p) => trim(email@).len() == 0 && !p.enviado && p.erro@ == "Introduza o seu email."@,
        },
{
    let t = trim_str(email);
    if t.as_str().is_empty() {
        return Err(RecuperarPage { enviado: false, erro: "Introduza o seu email." });
    }
    Ok(t)
}

/// The page after a request: it always reports success, whether or not the
/// address belongs to an account.
pub fn sent_page<'a>() -> (r: RecuperarPage<'a>)
    ensures
        r.enviado,
        r.erro@ == ""@,
{
    RecuperarPage { enviado: true, erro: "" }
}

/// The mail sent to an account's address.
pub open spec fn spec_recovery_notice(username: Seq<char>) -> Seq<char> {
    "Olá "@ + username
        + ",\n\nRecebemos um pedido para repor a sua palavra-passe.\n\nEsta versão Rust ainda não emite o link — contacte o admin se precisar.\n\n— ListaIsto"@
}

pub fn recovery_notice(username: &str) -> (r: String)
    ensures
        r@ == spec_recovery_notice(username@),
{
    let mut r = String::new();
    r.append("Olá ");
    r.append(username);
    r.append(",\n\nRecebemos um pedido para repor a sua palavra-passe.\n\nEsta versão Rust ainda não emite o link — contacte o admin se precisar.\n\n— ListaIsto");
    r
}

} // verus!
