//! The public share-link pages: anyone with the token can view the list and,
//! as the link permits, change it.
use vstd::prelude::*;
use vstd::string::StringExecFns;

use super::quantity_text;
use super::quantity_or_one;
use crate::db::{Artigo, DbFailure, LinkPartilha, Lista};
use crate::templates::LinkPublicPage;
use crate::text::{str_eq, trim, trim_str};
use crate::time::{shown_instant, show_instant};

verus! {

broadcast use vstd::string::group_string_axioms;

pub struct MatchQuery {
    pub q: String,
}

pub struct LinkMatchResponse {
    pub found: bool,
    pub id: Option<i32>,
    pub nome: Option<String>,
    pub na_despensa: Option<bool>,
    pub pode_toggle: bool,
}

pub struct GuardarForm {
    pub destino: String,
}

pub struct AdicionarForm {
    pub nome: String,
    pub quantidade: String,
}

pub struct ToggleForm {
    pub destino: String,
}

/// The page of the link `token`, where every action returns.
pub open spec fn link_page(token: Seq<char>) -> Seq<char> {
    "/link/"@ + token
}

pub fn link_page_url(token: &str) -> (r: String)
    ensures
        r@ == link_page(token@),
{
    let mut r = String::new();
    r.append("/link/");
    r.append(token);
    r
}

/// A change a link's visitor asks for.
pub enum LinkPerm {
    Adicionar,
    Apagar,
    Toggle,
}

/// The link's flag for that change.
pub open spec fn perm_flag(link: LinkPartilha, p: LinkPerm) -> i8 {
    match p {
        LinkPerm::Adicionar => link.pode_adicionar,
        LinkPerm::Apagar => link.pode_apagar,
        LinkPerm::Toggle => link.pode_toggle,
    }
}

/// Each change is gated by its own flag of the link, and by no other: adding
/// by `pode_adicionar`, deleting by `pode_apagar`, moving by `pode_toggle`.
pub proof fn lemma_perm_flag_fields(l: LinkPartilha)
    ensures
        perm_flag(l, LinkPerm::Adicionar) == l.pode_adicionar,
        perm_flag(l, LinkPerm::Apagar) == l.pode_apagar,
        perm_flag(l, LinkPerm::Toggle) == l.pode_toggle,
{
}

/// What a change through a link's page does.
pub enum LinkStep {
    /// The link is gone or expired: 404 with `expired_message`.
    Expired,
    /// The link does not allow the change: back to the link's page, with
    /// nothing written.
    BackToPage,
    /// Make the change on this list, then go back to the link's page.
    Go { lista_id: i32 },
}

/// The step of a change through a link's page, given the usable link the
/// token names, if any.
pub fn web_link_step(link: &Option<LinkPartilha>, p: LinkPerm) -> (r: LinkStep)
    ensures
        match link {
            None => r is Expired,
            Some(l) => if perm_flag(*l, p) == 0 {
                r is BackToPage
            } else {
                r == (LinkStep::Go { lista_id: l.lista_id })
            },
        },
        match link {
            Some(l) => {
                &&& !(r is Expired)
                &&& p is Adicionar ==> (r == (LinkStep::Go { lista_id: l.lista_id }) <==> l.pode_adicionar != 0)
                &&& p is Apagar ==> (r == (LinkStep::Go { lista_id: l.lista_id }) <==> l.pode_apagar != 0)
                &&& p is Toggle ==> (r == (LinkStep::Go { lista_id: l.lista_id }) <==> l.pode_toggle != 0)
            },
            None => true,
        },
{
    match link {
        None => LinkStep::Expired,
        Some(l) => {
            let flag = match p {
                LinkPerm::Adicionar => l.pode_adicionar,
                LinkPerm::Apagar => l.pode_apagar,
                LinkPerm::Toggle => l.pode_toggle,
            };
            if flag == 0 {
                LinkStep::BackToPage
            } else {
                LinkStep::Go { lista_id: l.lista_id }
            }
        },
    }
}

/// The 404 text of a change or a duplicate check through an unusable link.
pub fn expired_message() -> (m: String)
    ensures
        m@ == "Link expirado."@,
{
    "Link expirado.".to_owned()
}

/// The 404 text of the page of an unusable link.
pub fn page_expired_message() -> (m: String)
    ensures
        m@ == "Link expirado ou inválido."@,
{
    "Link expirado ou inválido.".to_owned()
}

/// The 404 text of the page of a link whose list is gone.
pub fn page_list_missing_message() -> (m: String)
    ensures
        m@ == "Lista não encontrada."@,
{
    "Lista não encontrada.".to_owned()
}

/// The duplicate check on a link's list: nothing found when the query is
/// empty, the item is missing or the query failed; always with whether the
/// link may move items.
pub fn link_match_response(found: Option<Result<Option<Artigo>, DbFailure>>, link: &LinkPartilha) -> (r: LinkMatchResponse)
    ensures
        r.pode_toggle == (link.pode_toggle != 0),
        match found {
            Some(Ok(Some(a))) => r.found && r.id == Some(a.id) && r.nome == Some(a.nome)
                && r.na_despensa == Some(a.comprar == 0),
            _ => !r.found && r.id is None && r.nome is None && r.na_despensa is None,
        },
{
    let pode_toggle = link.pode_toggle != 0;
    match found {
        Some(Ok(Some(a))) => LinkMatchResponse {
            found: true,
            id: Some(a.id),
            nome: Some(a.nome),
            na_despensa: Some(a.comprar == 0),
            pode_toggle,
        },
        _ => LinkMatchResponse { found: false, id: None, nome: None, na_despensa: None, pode_toggle },
    }
}

/// Where "save this list" leads: registration when asked for, else sign-in.
pub fn guardar_target(destino: &str) -> (r: String)
    ensures
        r@ == (if destino@ == "registar"@ { "/registar/"@ } else { "/entrar/"@ }),
{
    if str_eq(destino, "registar") {
        "/registar/".to_owned()
    } else {
        "/entrar/".to_owned()
    }
}

/// The item a visitor adds: a trimmed, non-empty name and its quantity
/// (`"1x"` when empty); `None` adds nothing.
pub fn adicionar_fields(nome: &str, quantidade: &str) -> (r: Option<(String, String)>)
    ensures
        match r {
            Some((n, q)) => n@ == trim(nome@) && n@.len() > 0 && q@ == quantity_or_one(quantidade@),
            None => trim(nome@).len() == 0,
        },
{
    let n = trim_str(nome);
    if n.as_str().is_empty() {
        return None;
    }
    Some((n, quantity_text(quantidade)))
}

/// The page a link's visitor sees.
pub fn ver_page(token: &str, lista: Lista, despensa: Vec<Artigo>, a_comprar: Vec<Artigo>, link: &LinkPartilha, logged_in: bool) -> (r: LinkPublicPage)
    ensures
        r.token@ == token@,
        r.lista_nome == lista.nome,
        r.despensa == despensa,
        r.a_comprar == a_comprar,
        r.pode_adicionar == (link.pode_adicionar != 0),
        r.pode_editar == (link.pode_editar != 0),
        r.pode_apagar == (link.pode_apagar != 0),
        r.pode_toggle == (link.pode_toggle != 0),
        r.expira_em_str@ == shown_instant(link.expira_em),
        r.already_logged_in == logged_in,
{
    LinkPublicPage {
        token: token.to_owned(),
        lista_nome: lista.nome,
        despensa,
        a_comprar,
        pode_adicionar: link.pode_adicionar != 0,
        pode_editar: link.pode_editar != 0,
        pode_apagar: link.pode_apagar != 0,
        pode_toggle: link.pode_toggle != 0,
        expira_em_str: show_instant(link.expira_em),
        already_logged_in: logged_in,
    }
}

} // verus!
