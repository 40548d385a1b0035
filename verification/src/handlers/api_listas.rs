//! The JSON list API: lists, items, shares, links and the public view of a
//! share link. Mutations answer with the fresh detail of the list.
use std::collections::HashSet;
use vstd::prelude::*;
use vstd::std_specs::iter::IteratorSpec;
use vstd::string::StringExecFns;
use vstd::utf8::encode_utf8;

use super::{api_error, edited_quantity, edited_quantity_text, is_error, quantity_or_one, quantity_text, ApiError, BAD_REQUEST,
    FORBIDDEN, INTERNAL_SERVER_ERROR, NOT_FOUND};
use crate::auth::CurrentUser;
use crate::db::{Artigo, AuthUser, DbFailure, LinkPartilha, Lista, PartilhaUser};
use crate::text::{str_eq, trim, trim_str};
use crate::time::{shown_instant, show_instant};

verus! {

broadcast use vstd::string::group_string_axioms, vstd::std_specs::hash::group_hash_axioms;

pub struct ItemDto {
    pub id: i32,
    pub nome: String,
    pub quantidade: String,
    pub comprar: bool,
}

pub struct ListSummary {
    pub id: i32,
    pub nome: String,
    /// Shared with a user account (shared by me, or shared to me).
    pub shared_users: bool,
    /// Carries at least one active share link.
    pub shared_link: bool,
}

pub struct ListsResponse {
    pub lists: Vec<ListSummary>,
    pub active_id: i32,
}

pub struct PartilhaDto {
    pub utilizador_id: i32,
    pub username: String,
}

pub struct LinkDto {
    pub id: i32,
    pub token: String,
    pub url: String,
    pub expira_em_str: String,
    pub pode_adicionar: bool,
    pub pode_editar: bool,
    pub pode_apagar: bool,
    pub pode_toggle: bool,
}

pub struct ListDetail {
    pub id: i32,
    pub nome: String,
    pub is_owner: bool,
    pub a_comprar: Vec<ItemDto>,
    pub despensa: Vec<ItemDto>,
    pub partilhas: Vec<PartilhaDto>,
    pub links: Vec<LinkDto>,
}

pub struct CreateListBody {
    pub nome: String,
}

pub struct AddItemBody {
    pub nome: String,
    pub quantidade: String,
}

pub struct ToggleBody {
    pub destino: String,
}

pub struct EditItemBody {
    pub nome: String,
    pub quantidade: String,
}

pub struct QtyBody {
    pub direcao: String,
}

pub struct SearchQuery {
    pub q: String,
}

pub struct SearchResponse {
    pub suggestions: Vec<String>,
}

pub struct MatchResponse {
    pub found: bool,
    pub id: Option<i32>,
    pub nome: Option<String>,
    pub na_despensa: Option<bool>,
}

pub struct ShareBody {
    pub username: String,
}

pub struct CreateLinkBody {
    pub duracao: i64,
    pub unidade: String,
    pub pode_adicionar: bool,
    pub pode_editar: bool,
    pub pode_apagar: bool,
    pub pode_toggle: bool,
}

pub struct PublicView {
    pub lista_nome: String,
    pub a_comprar: Vec<ItemDto>,
    pub despensa: Vec<ItemDto>,
    pub expira_em_str: String,
    pub pode_adicionar: bool,
    pub pode_editar: bool,
    pub pode_apagar: bool,
    pub pode_toggle: bool,
    pub already_logged_in: bool,
}

/// The suggestions a search returns at most.
pub const SEARCH_LIMIT: i64 = 8;

/// The signed-in user, or 401.
pub fn require(user: Option<CurrentUser>) -> (r: Result<CurrentUser, ApiError>)
    ensures
        match user {
            Some(u) => r == Ok::<CurrentUser, ApiError>(u),
            None => r matches Err(e) && is_error(e, super::UNAUTHORIZED, "not authenticated"@),
        },
{
    match user {
        Some(u) => Ok(u),
        None => Err(api_error(super::UNAUTHORIZED, "not authenticated")),
    }
}

// ───────────── DTOs ─────────────

pub open spec fn item_of(a: Artigo) -> ItemDto {
    ItemDto { id: a.id, nome: a.nome, quantidade: a.quantidade, comprar: a.comprar != 0 }
}

/// An item as the JSON shows it keeps the row's id, name and quantity, and
/// `comprar` is set exactly for items on the to-buy side.
pub proof fn lemma_item_fields(a: Artigo)
    ensures
        item_of(a).id == a.id,
        item_of(a).nome == a.nome,
        item_of(a).quantidade == a.quantidade,
        item_of(a).comprar <==> a.comprar != 0,
{
}

impl ItemDto {
    pub fn from_artigo(a: Artigo) -> (r: ItemDto)
        ensures
            r == item_of(a),
    {
        ItemDto { id: a.id, nome: a.nome, quantidade: a.quantidade, comprar: a.comprar != 0 }
    }
}

/// The items of a list side, in order.
pub fn item_dtos(rows: Vec<Artigo>) -> (r: Vec<ItemDto>)
    ensures
        r@ == rows@.map_values(|a: Artigo| item_of(a)),
{
    let ghost all = rows@;
    let mut r: Vec<ItemDto> = Vec::new();
    for a in it: rows
        invariant
            it.seq() == all,
            r@ == all.take(it.index()).map_values(|a: Artigo| item_of(a)),
    {
        let ghost i = it.index();
        r.push(ItemDto::from_artigo(a));
        assert(all.take(i + 1).map_values(|a: Artigo| item_of(a)) =~= all.take(i).map_values(|a: Artigo| item_of(a)).push(item_of(all[i])));
    }
    assert(all.take(all.len() as int) =~= all);
    r
}

pub open spec fn link_url(token: Seq<char>) -> Seq<char> {
    "/link/"@ + token
}

pub open spec fn link_dto_matches(d: LinkDto, l: LinkPartilha) -> bool {
    &&& d.id == l.id
    &&& d.token@ == l.token@
    &&& d.url@ == link_url(l.token@)
    &&& d.expira_em_str@ == shown_instant(l.expira_em)
    &&& d.pode_adicionar == (l.pode_adicionar != 0)
    &&& d.pode_editar == (l.pode_editar != 0)
    &&& d.pode_apagar == (l.pode_apagar != 0)
    &&& d.pode_toggle == (l.pode_toggle != 0)
}

/// A link as the JSON shows it carries the stored link's id and token, the
/// share URL `/link/<token>` that the public-link route serves, and each of
/// the four permissions as the same-named flag of the row.
pub proof fn lemma_link_dto_fields(d: LinkDto, l: LinkPartilha)
    requires
        link_dto_matches(d, l),
    ensures
        d.id == l.id,
        d.token@ == l.token@,
        d.url@ == "/link/"@ + l.token@,
        d.pode_adicionar <==> l.pode_adicionar != 0,
        d.pode_editar <==> l.pode_editar != 0,
        d.pode_apagar <==> l.pode_apagar != 0,
        d.pode_toggle <==> l.pode_toggle != 0,
{
}

impl LinkDto {
    pub fn from_link(l: LinkPartilha) -> (r: LinkDto)
        ensures
            link_dto_matches(r, l),
            r.url@ == "/link/"@ + l.token@,
            r.pode_adicionar <==> l.pode_adicionar != 0,
            r.pode_editar <==> l.pode_editar != 0,
            r.pode_apagar <==> l.pode_apagar != 0,
            r.pode_toggle <==> l.pode_toggle != 0,
    {
        let mut url = String::new();
        url.append("/link/");
        url.append(l.token.as_str());
        LinkDto {
            id: l.id,
            url,
            expira_em_str: show_instant(l.expira_em),
            token: l.token,
            pode_adicionar: l.pode_adicionar != 0,
            pode_editar: l.pode_editar != 0,
            pode_apagar: l.pode_apagar != 0,
            pode_toggle: l.pode_toggle != 0,
        }
    }
}

fn link_dtos(rows: Vec<LinkPartilha>) -> (r: Vec<LinkDto>)
    ensures
        r@.len() == rows@.len(),
        forall|i: int| 0 <= i < rows@.len() ==> link_dto_matches(#[trigger] r@[i], rows@[i]),
{
    let ghost all = rows@;
    let mut r: Vec<LinkDto> = Vec::new();
    for l in it: rows
        invariant
            it.seq() == all,
            r@.len() == it.index(),
            forall|i: int| 0 <= i < r@.len() ==> link_dto_matches(#[trigger] r@[i], all[i]),
    {
        r.push(LinkDto::from_link(l));
    }
    r
}

fn partilha_dtos(rows: Vec<PartilhaUser>) -> (r: Vec<PartilhaDto>)
    ensures
        r@.len() == rows@.len(),
        forall|i: int| 0 <= i < rows@.len() ==> (#[trigger] r@[i]).utilizador_id == rows@[i].utilizador_id
            && r@[i].username == rows@[i].username,
{
    let ghost all = rows@;
    let mut r: Vec<PartilhaDto> = Vec::new();
    for p in it: rows
        invariant
            it.seq() == all,
            r@.len() == it.index(),
            forall|i: int| 0 <= i < r@.len() ==> (#[trigger] r@[i]).utilizador_id == all[i].utilizador_id
                && r@[i].username == all[i].username,
    {
        r.push(PartilhaDto { utilizador_id: p.utilizador_id, username: p.username });
    }
    r
}

// ───────────── list detail ─────────────

/// The list a detail request names: 404 when not visible, 500 on failure.
pub fn detail_lookup(found: Result<Option<Lista>, DbFailure>) -> (r: Result<Lista, ApiError>)
    ensures
        match found {
            Ok(Some(l)) => r == Ok::<Lista, ApiError>(l),
            Ok(None) => r matches Err(e) && is_error(e, NOT_FOUND, "Lista não encontrada."@),
            Err(_) => r matches Err(e) && is_error(e, INTERNAL_SERVER_ERROR, "Erro interno."@),
        },
{
    match found {
        Ok(Some(l)) => Ok(l),
        Ok(None) => Err(api_error(NOT_FOUND, "Lista não encontrada.")),
        Err(_) => Err(api_error(INTERNAL_SERVER_ERROR, "Erro interno.")),
    }
}

/// Whether the user owns the list (and so sees its shares and links).
pub fn is_owner(lista: &Lista, user: &CurrentUser) -> (r: bool)
    ensures
        r == (lista.dono_id == user.id),
{
    lista.dono_id == user.id
}

/// The detail of a visible list. Shares and links are shown to the owner
/// only; a collaborator gets both empty.
pub fn build_detail(
    lista: Lista,
    user: &CurrentUser,
    despensa: Vec<Artigo>,
    a_comprar: Vec<Artigo>,
    partilhas: Vec<PartilhaUser>,
    links: Vec<LinkPartilha>,
) -> (r: ListDetail)
    ensures
        r.id == lista.id,
        r.nome == lista.nome,
        r.is_owner == (lista.dono_id == user.id),
        r.despensa@ == despensa@.map_values(|a: Artigo| item_of(a)),
        r.a_comprar@ == a_comprar@.map_values(|a: Artigo| item_of(a)),
        r.is_owner ==> r.partilhas@.len() == partilhas@.len() && r.links@.len() == links@.len()
            && (forall|i: int| 0 <= i < partilhas@.len() ==> (#[trigger] r.partilhas@[i]).utilizador_id
                == partilhas@[i].utilizador_id && r.partilhas@[i].username == partilhas@[i].username)
            && (forall|i: int| 0 <= i < links@.len() ==> link_dto_matches(#[trigger] r.links@[i], links@[i])),
        !r.is_owner ==> r.partilhas@.len() == 0 && r.links@.len() == 0,
{
    let owner = is_owner(&lista, user);
    let p = if owner { partilha_dtos(partilhas) } else { Vec::new() };
    let l = if owner { link_dtos(links) } else { Vec::new() };
    ListDetail {
        id: lista.id,
        nome: lista.nome,
        is_owner: owner,
        a_comprar: item_dtos(a_comprar),
        despensa: item_dtos(despensa),
        partilhas: p,
        links: l,
    }
}

// ───────────── list picker ─────────────

/// A list is shown with the people badge when someone else owns it or when
/// its owner shared it with a user; with the link badge when it carries an
/// active link.
pub open spec fn summary_matches(s: ListSummary, l: Lista, user_id: i32, user_shared: Set<i32>, link_shared: Set<i32>) -> bool {
    &&& s.id == l.id
    &&& s.nome@ == l.nome@
    &&& s.shared_users == (l.dono_id != user_id || user_shared.contains(l.id))
    &&& s.shared_link == link_shared.contains(l.id)
}

/// The people badge shows exactly when someone else owns the list or its
/// owner shared it with a user; the link badge exactly when it carries an
/// active link.
pub proof fn lemma_summary_badges(s: ListSummary, l: Lista, user_id: i32, user_shared: Set<i32>, link_shared: Set<i32>)
    requires
        summary_matches(s, l, user_id, user_shared, link_shared),
    ensures
        s.id == l.id,
        s.nome@ == l.nome@,
        s.shared_users <==> (l.dono_id != user_id || user_shared.contains(l.id)),
        s.shared_link <==> link_shared.contains(l.id),
{
}

pub fn list_summaries(lists: &[Lista], user_id: i32, user_shared: &HashSet<i32>, link_shared: &HashSet<i32>) -> (r: Vec<ListSummary>)
    ensures
        r@.len() == lists@.len(),
        forall|i: int| 0 <= i < lists@.len() ==> summary_matches(#[trigger] r@[i], lists@[i], user_id, user_shared@, link_shared@),
{
    let mut r: Vec<ListSummary> = Vec::new();
    let n = lists.len();
    for i in 0..n
        invariant
            n == lists@.len(),
            r@.len() == i,
            forall|k: int| 0 <= k < i ==> summary_matches(#[trigger] r@[k], lists@[k], user_id, user_shared@, link_shared@),
    {
        let l = &lists[i];
        r.push(ListSummary {
            id: l.id,
            nome: l.nome.clone(),
            shared_users: l.dono_id != user_id || user_shared.contains(&l.id),
            shared_link: link_shared.contains(&l.id),
        });
    }
    r
}

/// The picker answer; no active list is sent as id 0.
pub fn lists_response(lists: Vec<ListSummary>, active: Option<i32>) -> (r: ListsResponse)
    ensures
        r.lists == lists,
        r.active_id == match active { Some(id) => id, None => 0 },
{
    ListsResponse { lists, active_id: match active { Some(id) => id, None => 0 } }
}

// ───────────── fields ─────────────

/// A required, trimmed name.
pub fn nome_field(nome: &str) -> (r: Result<String, ApiError>)
    ensures
        match r {
            Ok(t) => t@ == trim(nome@) && t@.len() > 0,
            Err(e) => trim(nome@).len() == 0 && is_error(e, BAD_REQUEST, "Nome obrigatório."@),
        },
{
    let t = trim_str(nome);
    if t.as_str().is_empty() {
        return Err(api_error(BAD_REQUEST, "Nome obrigatório."));
    }
    Ok(t)
}

/// The new list's id, or 500 when it could not be created.
pub fn list_created(created: Result<i32, DbFailure>) -> (r: Result<i32, ApiError>)
    ensures
        match created {
            Ok(id) => r == Ok::<i32, ApiError>(id),
            Err(_) => r matches Err(e) && is_error(e, INTERNAL_SERVER_ERROR, "Erro ao criar lista."@),
        },
{
    match created {
        Ok(id) => Ok(id),
        Err(_) => Err(api_error(INTERNAL_SERVER_ERROR, "Erro ao criar lista.")),
    }
}

/// Item mutations need the list to be visible to the user; a failed query
/// counts as not visible.
pub fn require_access(found: &Result<Option<Lista>, DbFailure>) -> (r: Result<(), ApiError>)
    ensures
        match found {
            Ok(Some(_)) => r is Ok,
            _ => r matches Err(e) && is_error(e, NOT_FOUND, "Lista não encontrada."@),
        },
{
    match found {
        Ok(Some(_)) => Ok(()),
        _ => Err(api_error(NOT_FOUND, "Lista não encontrada.")),
    }
}

/// The trimmed name (required) and quantity (`"1x"` when empty) of an added
/// item.
pub fn item_fields(nome: &str, quantidade: &str) -> (r: Result<(String, String), ApiError>)
    ensures
        match r {
            Ok((n, q)) => n@ == trim(nome@) && n@.len() > 0 && q@ == quantity_or_one(quantidade@),
            Err(e) => trim(nome@).len() == 0 && is_error(e, BAD_REQUEST, "Nome obrigatório."@),
        },
{
    let n = nome_field(nome)?;
    Ok((n, quantity_text(quantidade)))
}

/// The trimmed name (required) and quantity of an edited item; an empty
/// quantity becomes `"1"`.
pub fn edit_fields(nome: &str, quantidade: &str) -> (r: Result<(String, String), ApiError>)
    ensures
        match r {
            Ok((n, q)) => n@ == trim(nome@) && n@.len() > 0 && q@ == edited_quantity(quantidade@),
            Err(e) => trim(nome@).len() == 0 && is_error(e, BAD_REQUEST, "Nome obrigatório."@),
        },
{
    let n = nome_field(nome)?;
    Ok((n, edited_quantity_text(quantidade)))
}

/// The term a search runs with: the trimmed query when it has at least two
/// bytes; shorter queries get no suggestions.
pub fn search_term(q: &str) -> (r: Option<String>)
    ensures
        match r {
            Some(t) => t@ == trim(q@) && encode_utf8(t@).len() >= 2,
            None => encode_utf8(trim(q@)).len() < 2,
        },
{
    let t = trim_str(q);
    if t.as_str().as_bytes().len() < 2 {
        return None;
    }
    Some(t)
}

/// The answer of a search; a failed query answers no suggestions.
pub fn search_response(found: Result<Vec<String>, DbFailure>) -> (r: SearchResponse)
    ensures
        match found {
            Ok(v) => r.suggestions == v,
            Err(_) => r.suggestions@.len() == 0,
        },
{
    match found {
        Ok(v) => SearchResponse { suggestions: v },
        Err(_) => SearchResponse { suggestions: Vec::new() },
    }
}

// ───────────── duplicate check ─────────────

/// No item of that name.
pub fn no_match() -> (r: MatchResponse)
    ensures
        !r.found && r.id is None && r.nome is None && r.na_despensa is None,
{
    MatchResponse { found: false, id: None, nome: None, na_despensa: None }
}

/// The duplicate check's answer for the item found by name, if any (a
/// failed query counts as none).
pub fn match_response(found: Result<Option<Artigo>, DbFailure>) -> (r: MatchResponse)
    ensures
        match found {
            Ok(Some(a)) => r.found && r.id == Some(a.id) && r.nome == Some(a.nome)
                && r.na_despensa == Some(a.comprar == 0),
            _ => !r.found && r.id is None && r.nome is None && r.na_despensa is None,
        },
{
    match found {
        Ok(Some(a)) => MatchResponse { found: true, id: Some(a.id), nome: Some(a.nome), na_despensa: Some(a.comprar == 0) },
        _ => no_match(),
    }
}

// ───────────── sharing ─────────────

/// Sharing and link management need the user to own the list; a failed
/// query counts as not owned.
pub fn require_owner(found: &Result<Option<Lista>, DbFailure>) -> (r: Result<(), ApiError>)
    ensures
        match found {
            Ok(Some(_)) => r is Ok,
            _ => r matches Err(e) && is_error(e, NOT_FOUND, "Lista não encontrada."@),
        },
{
    require_access(found)
}

/// The user to share with: trimmed, required, and not oneself.
pub fn share_target(username: &str, user: &CurrentUser) -> (r: Result<String, ApiError>)
    ensures
        match r {
            Ok(t) => t@ == trim(username@) && t@.len() > 0 && t@ != user.username@,
            Err(e) => if trim(username@).len() == 0 {
                is_error(e, BAD_REQUEST, "Introduza um nome de utilizador."@)
            } else {
                trim(username@) == user.username@ && is_error(e, BAD_REQUEST, "Não pode partilhar consigo mesmo."@)
            },
        },
{
    let t = trim_str(username);
    if t.as_str().is_empty() {
        return Err(api_error(BAD_REQUEST, "Introduza um nome de utilizador."));
    }
    if str_eq(t.as_str(), user.username.as_str()) {
        return Err(api_error(BAD_REQUEST, "Não pode partilhar consigo mesmo."));
    }
    Ok(t)
}

/// `Utilizador «name» não existe.`
pub open spec fn unknown_user_message(target: Seq<char>) -> Seq<char> {
    "Utilizador «"@ + target + "» não existe."@
}

/// The account to share with, by name.
pub fn share_lookup(found: Result<Option<AuthUser>, DbFailure>, target: &str) -> (r: Result<AuthUser, ApiError>)
    ensures
        match found {
            Ok(Some(u)) => r == Ok::<AuthUser, ApiError>(u),
            Ok(None) => r matches Err(e) && is_error(e, NOT_FOUND, unknown_user_message(target@)),
            Err(_) => r matches Err(e) && is_error(e, INTERNAL_SERVER_ERROR, "Erro interno."@),
        },
{
    match found {
        Ok(Some(u)) => Ok(u),
        Ok(None) => {
            let mut m = String::new();
            m.append("Utilizador «");
            m.append(target);
            m.append("» não existe.");
            Err(ApiError { status: NOT_FOUND, error: m })
        },
        Err(_) => Err(api_error(INTERNAL_SERVER_ERROR, "Erro interno.")),
    }
}

/// Recording a share: 500 when the write failed.
pub fn share_saved(saved: Result<bool, DbFailure>) -> (r: Result<(), ApiError>)
    ensures
        match saved {
            Ok(_) => r is Ok,
            Err(_) => r matches Err(e) && is_error(e, INTERNAL_SERVER_ERROR, "Erro ao partilhar."@),
        },
{
    match saved {
        Ok(_) => Ok(()),
        Err(_) => Err(api_error(INTERNAL_SERVER_ERROR, "Erro ao partilhar.")),
    }
}

// ───────────── share links ─────────────

/// Default lifetime of a new link: 24 units.
pub fn d_dur() -> (r: i64)
    ensures
        r == 24,
{
    24
}

/// Default unit of a new link's lifetime: hours.
pub fn d_uni() -> (r: String)
    ensures
        r@ == "horas"@,
{
    "horas".to_owned()
}

/// Creating a link: 500 when the write failed.
pub fn link_created(created: Result<i32, DbFailure>) -> (r: Result<i32, ApiError>)
    ensures
        match created {
            Ok(id) => r == Ok::<i32, ApiError>(id),
            Err(_) => r matches Err(e) && is_error(e, INTERNAL_SERVER_ERROR, "Erro ao criar link."@),
        },
{
    match created {
        Ok(id) => Ok(id),
        Err(_) => Err(api_error(INTERNAL_SERVER_ERROR, "Erro ao criar link.")),
    }
}

// ───────────── public view ─────────────

/// The answer for an unknown or expired link.
pub fn link_expired() -> (e: ApiError)
    ensures
        is_error(e, NOT_FOUND, "Link expirado."@),
{
    api_error(NOT_FOUND, "Link expirado.")
}

/// A public mutation is allowed when the link carries its permission.
pub fn permitted(flag: i8) -> (r: Result<(), ApiError>)
    ensures
        match r {
            Ok(()) => flag != 0,
            Err(e) => flag == 0 && is_error(e, FORBIDDEN, "Sem permissão."@),
        },
{
    if flag == 0 {
        return Err(api_error(FORBIDDEN, "Sem permissão."));
    }
    Ok(())
}

/// What a link's visitor sees: the list's name (empty when it is gone), its
/// items, the expiry and the link's permissions.
pub fn public_view(
    lista: Option<Lista>,
    despensa: Vec<Artigo>,
    a_comprar: Vec<Artigo>,
    link: &LinkPartilha,
    logged_in: bool,
) -> (r: PublicView)
    ensures
        r.lista_nome@ == match lista { Some(l) => l.nome@, None => Seq::<char>::empty() },
        r.despensa@ == despensa@.map_values(|a: Artigo| item_of(a)),
        r.a_comprar@ == a_comprar@.map_values(|a: Artigo| item_of(a)),
        r.expira_em_str@ == shown_instant(link.expira_em),
        r.pode_adicionar == (link.pode_adicionar != 0),
        r.pode_editar == (link.pode_editar != 0),
        r.pode_apagar == (link.pode_apagar != 0),
        r.pode_toggle == (link.pode_toggle != 0),
        r.already_logged_in == logged_in,
{
    let nome = match lista {
        Some(l) => l.nome,
        None => String::new(),
    };
    PublicView {
        lista_nome: nome,
        a_comprar: item_dtos(a_comprar),
        despensa: item_dtos(despensa),
        expira_em_str: show_instant(link.expira_em),
        pode_adicionar: link.pode_adicionar != 0,
        pode_editar: link.pode_editar != 0,
        pode_apagar: link.pode_apagar != 0,
        pode_toggle: link.pode_toggle != 0,
        already_logged_in: logged_in,
    }
}

} // verus!
