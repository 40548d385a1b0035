//! The data of the server-rendered pages.
use vstd::prelude::*;

use crate::db::{Artigo, PartilhaUser};

verus! {

pub struct EntrarPage<'a> {
    pub erro: &'a str,
    pub next: &'a str,
}

pub struct RegistarPage<'a> {
    pub erro: &'a str,
    pub next: &'a str,
}

pub struct AdicionarEmailPage<'a> {
    pub erro: &'a str,
    pub username: &'a str,
}

pub struct IndexPage {
    pub username: String,
    pub email: String,
    pub lists: Vec<ListEntry>,
    /// 0 = no active list.
    pub active_id: i32,
    pub active_nome: String,
    pub despensa: Vec<Artigo>,
    pub a_comprar: Vec<Artigo>,
    pub partilhas: Vec<PartilhaUser>,
    pub links: Vec<LinkRow>,
}

/// A list as shown in the picker, with a flag marking whether it is shared
/// (owned by someone else, shared with users, or carrying an active link).
pub struct ListEntry {
    pub id: i32,
    pub nome: String,
    pub shared: bool,
}

pub struct LinkRow {
    pub id: i32,
    pub url: String,
    pub expira_em_str: String,
    pub pode_adicionar: bool,
    pub pode_editar: bool,
    pub pode_apagar: bool,
    pub pode_toggle: bool,
}

pub struct LinkPublicPage {
    pub token: String,
    pub lista_nome: String,
    pub despensa: Vec<Artigo>,
    pub a_comprar: Vec<Artigo>,
    pub pode_adicionar: bool,
    pub pode_editar: bool,
    pub pode_apagar: bool,
    pub pode_toggle: bool,
    pub expira_em_str: String,
    pub already_logged_in: bool,
}

pub struct RecuperarPage<'a> {
    pub enviado: bool,
    pub erro: &'a str,
}

} // verus!
