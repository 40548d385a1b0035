//! The form-post list pages: create, select and delete lists, add, move,
//! edit and delete items, share with users, manage share links. Most of them
//! answer with a redirect to `/home`; script requests get JSON.
use vstd::prelude::*;
use vstd::string::StringExecFns;

use crate::db::{Artigo, DbFailure};
use crate::random::random_bytes;
use crate::text::{hex_lower, hex_lower_string, str_eq, trim, trim_str};
use crate::time::{shown_instant, show_instant};
use super::api_listas::{link_url, unknown_user_message};

verus! {

broadcast use vstd::string::group_string_axioms;

pub struct CriarForm {
    pub nome: String,
}

pub struct AdicionarArtigoForm {
    pub nome: String,
    pub quantidade: String,
}

pub struct ToggleForm {
    pub destino: String,
}

pub struct ToggleResponse {
    pub ok: bool,
    pub comprar: bool,
}

pub struct EditarForm {
    pub nome: String,
    pub quantidade: String,
}

pub struct PartilharForm {
    pub username: String,
}

pub struct PartilharResponse {
    pub ok: bool,
    pub msg: String,
}

pub struct CriarLinkForm {
    pub duracao: i64,
    pub unidade: String,
    pub pode_adicionar: Option<String>,
    pub pode_editar: Option<String>,
    pub pode_apagar: Option<String>,
    pub pode_toggle: Option<String>,
}

pub struct CriarLinkResponse {
    pub id: i32,
    pub token: String,
    pub url: String,
    pub expira_em_str: String,
}

pub struct MatchResponse {
    pub found: bool,
    pub id: Option<i32>,
    pub nome: Option<String>,
    pub quantidade: Option<String>,
    pub na_despensa: Option<bool>,
}

pub struct SearchQuery {
    pub q: String,
}

pub struct SearchResponse {
    pub suggestions: Vec<String>,
}

/// The suggestions the add bar's search returns at most.
pub const SEARCH_LIMIT: i64 = 10;

/// The page every form post returns to.
pub open spec fn home() -> Seq<char> {
    "/home"@
}

/// The signed-in user, or the sign-in page to redirect to.
pub fn require_user(user: Option<crate::auth::CurrentUser>) -> (r: Result<crate::auth::CurrentUser, String>)
    ensures
        match user {
            Some(u) => r == Ok::<crate::auth::CurrentUser, String>(u),
            None => r matches Err(to) && to@ == "/entrar/"@,
        },
{
    match user {
        Some(u) => Ok(u),
        None => Err("/entrar/".to_owned()),
    }
}

/// A trimmed, non-empty name, or `None` (the post is then ignored).
pub fn nome_of(nome: &str) -> (r: Option<String>)
    ensures
        match r {
            Some(t) => t@ == trim(nome@) && t@.len() > 0,
            None => trim(nome@).len() == 0,
        },
{
    let t = trim_str(nome);
    if t.as_str().is_empty() {
        None
    } else {
        Some(t)
    }
}

/// Deleting the active list also forgets it in the session.
pub fn clears_active(active: Option<i32>, lista_id: i32) -> (r: bool)
    ensures
        r == (active == Some(lista_id)),
{
    match active {
        Some(a) => a == lista_id,
        None => false,
    }
}

/// The script answer of a toggle: the item's new side, `false` when the
/// item was not found or the query failed.
pub fn toggle_response(toggled: Result<Option<bool>, DbFailure>) -> (r: ToggleResponse)
    ensures
        r.ok,
        r.comprar == (toggled matches Ok(Some(true))),
{
    let comprar = match toggled {
        Ok(Some(v)) => v,
        _ => false,
    };
    ToggleResponse { ok: true, comprar }
}

// ───────────── sharing ─────────────

pub open spec fn reply_is(r: PartilharResponse, ok: bool, msg: Seq<char>) -> bool {
    r.ok == ok && r.msg@ == msg
}

fn reply(ok: bool, msg: &str) -> (r: PartilharResponse)
    ensures
        reply_is(r, ok, msg@),
{
    PartilharResponse { ok, msg: msg.to_owned() }
}

fn quoted(prefix: &str, name: &str, suffix: &str) -> (r: String)
    ensures
        r@ == prefix@ + name@ + suffix@,
{
    let mut m = String::new();
    m.append(prefix);
    m.append(name);
    m.append(suffix);
    m
}

/// The answer when the user does not own the list.
pub fn partilhar_not_owned() -> (r: PartilharResponse)
    ensures
        reply_is(r, false, "Lista não encontrada."@),
{
    reply(false, "Lista não encontrada.")
}

/// The user to share with: trimmed, required, and not oneself.
pub fn partilhar_target(username: &str, own_username: &str) -> (r: Result<String, PartilharResponse>)
    ensures
        match r {
            Ok(t) => t@ == trim(username@) && t@.len() > 0 && t@ != own_username@,
            Err(e) => if trim(username@).len() == 0 {
                reply_is(e, false, "Introduza um nome de utilizador."@)
            } else {
                trim(username@) == own_username@ && reply_is(e, false, "Não pode partilhar consigo mesmo."@)
            },
        },
{
    let t = trim_str(username);
    if t.as_str().is_empty() {
        return Err(reply(false, "Introduza um nome de utilizador."));
    }
    if str_eq(t.as_str(), own_username) {
        return Err(reply(false, "Não pode partilhar consigo mesmo."));
    }
    Ok(t)
}

/// The lookup of the user to share with.
pub fn partilhar_lookup<U>(found: Result<Option<U>, DbFailure>, target: &str) -> (r: Result<U, PartilharResponse>)
    ensures
        match found {
            Ok(Some(u)) => r == Ok::<U, PartilharResponse>(u),
            Ok(None) => r matches Err(e) && reply_is(e, false, unknown_user_message(target@)),
            Err(_) => r matches Err(e) && reply_is(e, false, "Erro interno. Tente de novo."@),
        },
{
    match found {
        Ok(Some(u)) => Ok(u),
        Ok(None) => Err(PartilharResponse { ok: false, msg: quoted("Utilizador «", target, "» não existe.") }),
        Err(_) => Err(reply(false, "Erro interno. Tente de novo.")),
    }
}

/// The outcome of recording the share: new, already there, or failed.
pub fn partilhar_outcome(added: Result<bool, DbFailure>, target: &str) -> (r: PartilharResponse)
    ensures
        match added {
            Ok(true) => reply_is(r, true, "Lista partilhada com «"@ + target@ + "»."@),
            Ok(false) => reply_is(r, true, "Já estava partilhada com «"@ + target@ + "»."@),
            Err(_) => reply_is(r, false, "Erro ao partilhar. Tente de novo."@),
        },
{
    match added {
        Ok(true) => PartilharResponse { ok: true, msg: quoted("Lista partilhada com «", target, "».") },
        Ok(false) => PartilharResponse { ok: true, msg: quoted("Já estava partilhada com «", target, "».") },
        Err(_) => reply(false, "Erro ao partilhar. Tente de novo."),
    }
}

// ───────────── share links ─────────────

/// Default lifetime of a new link: 24 units.
pub fn default_duracao() -> (r: i64)
    ensures
        r == 24,
{
    24
}

/// Default unit of a new link's lifetime: hours.
pub fn default_unidade() -> (r: String)
    ensures
        r@ == "horas"@,
{
    "horas".to_owned()
}

/// A permission is granted by the presence of its checkbox field.
pub fn link_permissions(form: &CriarLinkForm) -> (r: (bool, bool, bool, bool))
    ensures
        r == (form.pode_adicionar is Some, form.pode_editar is Some, form.pode_apagar is Some, form.pode_toggle is Some),
{
    (form.pode_adicionar.is_some(), form.pode_editar.is_some(), form.pode_apagar.is_some(), form.pode_toggle.is_some())
}

/// The script answer after a link is created.
pub fn criar_link_response(id: i32, token: String, expira_em: i64) -> (r: CriarLinkResponse)
    ensures
        r.id == id,
        r.token@ == token@,
        r.url@ == link_url(token@),
        r.expira_em_str@ == shown_instant(expira_em),
{
    let mut url = String::new();
    url.append("/link/");
    url.append(token.as_str());
    CriarLinkResponse { id, token, url, expira_em_str: show_instant(expira_em) }
}

/// A fresh 32-character lower-case hex token from 16 random bytes.
pub fn random_hex_32() -> (r: String)
    ensures
        exists|b: Seq<u8>| b.len() == 16 && r@ == hex_lower(b),
        r@.len() == 32,
{
    let bytes = random_bytes(16);
    hex_lower_string(bytes.as_slice())
}

// ───────────── duplicate check ─────────────

/// No item of that name.
pub fn no_match() -> (r: MatchResponse)
    ensures
        !r.found && r.id is None && r.nome is None && r.quantidade is None && r.na_despensa is None,
{
    MatchResponse { found: false, id: None, nome: None, quantidade: None, na_despensa: None }
}

/// The duplicate check's answer for the item found by name, if any (a
/// failed query counts as none).
pub fn match_response(found: Result<Option<Artigo>, DbFailure>) -> (r: MatchResponse)
    ensures
        match found {
            Ok(Some(a)) => r.found && r.id == Some(a.id) && r.nome == Some(a.nome)
                && r.quantidade == Some(a.quantidade) && r.na_despensa == Some(a.comprar == 0),
            _ => !r.found && r.id is None && r.nome is None && r.quantidade is None && r.na_despensa is None,
        },
{
    match found {
        Ok(Some(a)) => MatchResponse {
            found: true,
            id: Some(a.id),
            nome: Some(a.nome),
            quantidade: Some(a.quantidade),
            na_despensa: Some(a.comprar == 0),
        },
        _ => no_match(),
    }
}

} // verus!
