//! The main page: the active list with its items, shares and links, and the
//! list picker.
use std::collections::HashSet;
use vstd::prelude::*;
use vstd::std_specs::iter::IteratorSpec;
use vstd::string::StringExecFns;

use super::api_listas::link_url;
use crate::auth::CurrentUser;
use crate::db::{Artigo, LinkPartilha, Lista, PartilhaUser};
use crate::templates::{IndexPage, LinkRow, ListEntry};
use crate::time::{shown_instant, show_instant};

verus! {

broadcast use vstd::string::group_string_axioms, vstd::std_specs::hash::group_hash_axioms;

/// Anonymous visitors go to sign-in, users without an email to the email
/// form; `None` shows the page.
pub fn show_gate(user: &Option<CurrentUser>) -> (r: Option<String>)
    ensures
        match user {
            None => r matches Some(to) && to@ == "/entrar/"@,
            Some(u) => if u.email@.len() == 0 {
                r matches Some(to) && to@ == "/adicionar_email/"@
            } else {
                r is None
            },
        },
{
    match user {
        None => Some("/entrar/".to_owned()),
        Some(u) => if u.email.as_str().is_empty() { Some("/adicionar_email/".to_owned()) } else { None },
    }
}

pub open spec fn link_row_matches(r: LinkRow, l: LinkPartilha) -> bool {
    &&& r.id == l.id
    &&& r.url@ == link_url(l.token@)
    &&& r.expira_em_str@ == shown_instant(l.expira_em)
    &&& r.pode_adicionar == (l.pode_adicionar != 0)
    &&& r.pode_editar == (l.pode_editar != 0)
    &&& r.pode_apagar == (l.pode_apagar != 0)
    &&& r.pode_toggle == (l.pode_toggle != 0)
}

/// A row of the links table carries the link's id, the share URL
/// `/link/<token>` that the public-link route serves (the same URL the JSON
/// detail shows), and each permission as the same-named flag of the link.
pub proof fn lemma_link_row_fields(r: LinkRow, l: LinkPartilha)
    requires
        link_row_matches(r, l),
    ensures
        r.id == l.id,
        r.url@ == "/link/"@ + l.token@,
        r.url@ == link_url(l.token@),
        r.pode_adicionar <==> l.pode_adicionar != 0,
        r.pode_editar <==> l.pode_editar != 0,
        r.pode_apagar <==> l.pode_apagar != 0,
        r.pode_toggle <==> l.pode_toggle != 0,
{
}

/// The rows of the active links table.
pub fn link_rows(links: Vec<LinkPartilha>) -> (r: Vec<LinkRow>)
    ensures
        r@.len() == links@.len(),
        forall|i: int| 0 <= i < links@.len() ==> link_row_matches(#[trigger] r@[i], links@[i]),
        forall|i: int| 0 <= i < links@.len() ==> (#[trigger] r@[i]).url@ == "/link/"@ + links@[i].token@,
{
    let ghost all = links@;
    let mut r: Vec<LinkRow> = Vec::new();
    for l in it: links
        invariant
            it.seq() == all,
            r@.len() == it.index(),
            forall|i: int| 0 <= i < r@.len() ==> link_row_matches(#[trigger] r@[i], all[i]),
    {
        let mut url = String::new();
        url.append("/link/");
        url.append(l.token.as_str());
        r.push(LinkRow {
            id: l.id,
            url,
            expira_em_str: show_instant(l.expira_em),
            pode_adicionar: l.pode_adicionar != 0,
            pode_editar: l.pode_editar != 0,
            pode_apagar: l.pode_apagar != 0,
            pode_toggle: l.pode_toggle != 0,
        });
    }
    r
}

/// The name of the first list with the given id, or empty.
pub open spec fn name_of(lists: Seq<Lista>, id: i32) -> Seq<char>
    decreases lists.len(),
{
    if lists.len() == 0 {
        seq![]
    } else if lists[0].id == id {
        lists[0].nome@
    } else {
        name_of(lists.drop_first(), id)
    }
}

proof fn lemma_name_of(lists: Seq<Lista>, id: i32, i: int)
    requires
        0 <= i <= lists.len(),
        forall|k: int| 0 <= k < i ==> #[trigger] lists[k].id != id,
    ensures
        i < lists.len() && lists[i].id == id ==> name_of(lists, id) == lists[i].nome@,
        i == lists.len() ==> name_of(lists, id) == Seq::<char>::empty(),
    decreases i,
{
    if i > 0 {
        assert forall|k: int| 0 <= k < i - 1 implies #[trigger] lists.drop_first()[k].id != id by {
            assert(lists.drop_first()[k] == lists[k + 1]);
        }
        lemma_name_of(lists.drop_first(), id, i - 1);
        assert(lists[0].id != id);
        if i < lists.len() {
            assert(lists.drop_first()[i - 1] == lists[i]);
        }
    }
}

/// The name shown for the active list.
pub fn active_nome(lists: &[Lista], active: Option<i32>) -> (r: String)
    ensures
        r@ == match active {
            Some(id) => name_of(lists@, id),
            None => Seq::<char>::empty(),
        },
{
    let id = match active {
        Some(id) => id,
        None => return String::new(),
    };
    let n = lists.len();
    for i in 0..n
        invariant
            n == lists@.len(),
            active == Some(id),
            forall|k: int| 0 <= k < i ==> #[trigger] lists@[k].id != id,
    {
        if lists[i].id == id {
            proof {
                lemma_name_of(lists@, id, i as int);
            }
            return lists[i].nome.clone();
        }
    }
    proof {
        lemma_name_of(lists@, id, n as int);
    }
    String::new()
}

/// A list is marked shared when someone else owns it or it is among the
/// user's shared lists.
pub open spec fn entry_matches(e: ListEntry, l: Lista, user_id: i32, shared_ids: Set<i32>) -> bool {
    &&& e.id == l.id
    &&& e.nome@ == l.nome@
    &&& e.shared == (l.dono_id != user_id || shared_ids.contains(l.id))
}

/// A list in the picker is marked shared exactly when someone else owns it
/// or it is among the user's shared lists.
pub proof fn lemma_entry_badge(e: ListEntry, l: Lista, user_id: i32, shared_ids: Set<i32>)
    requires
        entry_matches(e, l, user_id, shared_ids),
    ensures
        e.id == l.id,
        e.nome@ == l.nome@,
        e.shared <==> (l.dono_id != user_id || shared_ids.contains(l.id)),
{
}

pub fn list_entries(lists: &[Lista], user_id: i32, shared_ids: &HashSet<i32>) -> (r: Vec<ListEntry>)
    ensures
        r@.len() == lists@.len(),
        forall|i: int| 0 <= i < lists@.len() ==> entry_matches(#[trigger] r@[i], lists@[i], user_id, shared_ids@),
{
    let mut r: Vec<ListEntry> = Vec::new();
    let n = lists.len();
    for i in 0..n
        invariant
            n == lists@.len(),
            r@.len() == i,
            forall|k: int| 0 <= k < i ==> entry_matches(#[trigger] r@[k], lists@[k], user_id, shared_ids@),
    {
        let l = &lists[i];
        r.push(ListEntry {
            id: l.id,
            nome: l.nome.clone(),
            shared: l.dono_id != user_id || shared_ids.contains(&l.id),
        });
    }
    r
}

/// The page data; no active list is sent as id 0.
pub fn index_page(
    user: &CurrentUser,
    lists: Vec<ListEntry>,
    active: Option<i32>,
    active_nome: String,
    despensa: Vec<Artigo>,
    a_comprar: Vec<Artigo>,
    partilhas: Vec<PartilhaUser>,
    links: Vec<LinkRow>,
) -> (r: IndexPage)
    ensures
        r.username@ == user.username@,
        r.email@ == user.email@,
        r.lists == lists,
        r.active_id == match active { Some(id) => id, None => 0 },
        r.active_nome == active_nome,
        r.despensa == despensa,
        r.a_comprar == a_comprar,
        r.partilhas == partilhas,
        r.links == links,
{
    IndexPage {
        username: user.username.clone(),
        email: user.email.clone(),
        lists,
        active_id: match active { Some(id) => id, None => 0 },
        active_nome,
        despensa,
        a_comprar,
        partilhas,
        links,
    }
}

} // verus!
