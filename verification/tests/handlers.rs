use std::collections::HashSet;
use listaisto::handlers::links_publicos::{web_link_step, LinkPerm, LinkStep};
use listaisto::auth::{new_account_user, session_user, CurrentUser};
use listaisto::db::{Artigo, AuthUser, DbFailure, LinkPartilha, Lista, PartilhaUser};
use listaisto::handlers::{
    active_link, add_action, check_password, destino_of, is_link_active, is_xhr, link_expiry,
    edited_quantity_text, new_link_expiry, quantity_text, resolve_active, signed_in_redirect, usable_link, AddAction, PasswordCheck,
};
use listaisto::handlers::{api, api_listas, entrar, index, links_publicos, listas, registar, adicionar_email, recuperar};
use listaisto::hashing::make_with_salt;
use listaisto::time::{show_instant, MICROS_PER_DAY, MICROS_PER_HOUR, MICROS_PER_MINUTE};

fn user(id: i32, username: &str, email: &str) -> CurrentUser {
    CurrentUser { id, username: username.to_string(), email: email.to_string() }
}

fn lista(id: i32, nome: &str, dono_id: i32) -> Lista {
    Lista { id, nome: nome.to_string(), dono_id, criado_em: 0 }
}

fn artigo(id: i32, nome: &str, comprar: i8) -> Artigo {
    Artigo { id, lista_id: Some(1), nome: nome.to_string(), quantidade: "2x".to_string(), comprar, criado_em: 0, movido_em: 0 }
}

fn link(expira_em: i64, add: i8, toggle: i8) -> LinkPartilha {
    LinkPartilha {
        id: 9,
        lista_id: 3,
        token: "abc".to_string(),
        criado_em: 0,
        expira_em,
        pode_adicionar: add,
        pode_editar: 0,
        pode_apagar: 1,
        pode_toggle: toggle,
    }
}

fn auth_user(password: String, email: &str) -> AuthUser {
    AuthUser { id: 5, username: "ana".to_string(), password, email: email.to_string(), last_login: None, is_active: 1 }
}

#[test]
fn me_and_login_fields() {
    let m = api::me(&Some(user(1, "ana", ""))).ok().unwrap();
    assert!(m.needs_email);
    let e = api::me(&None).err().unwrap();
    assert_eq!((e.status, e.error.as_str()), (401, "not authenticated"));
    let (u, p) = api::login_fields("  ana ", " pw ").ok().unwrap();
    assert_eq!((u.as_str(), p.as_str()), ("ana", "pw"));
    let e = api::login_fields("ana", "   ").err().unwrap();
    assert_eq!((e.status, e.error.as_str()), (400, "Preencha todos os campos."));
}

#[test]
fn login_lookup_and_password() {
    let e = api::login_lookup(Ok(None)).err().unwrap();
    assert_eq!((e.status, e.error.as_str()), (401, "Nome de utilizador ou palavra-passe incorretos."));
    let e = api::login_lookup(Err(DbFailure)).err().unwrap();
    assert_eq!(e.status, 500);
    let stored = "pbkdf2_sha256$1$salt$b0rYx47DZcBg5kjraU7kDepYSEsDcfvWFxWsRBC3OAo=".to_string();
    let u = auth_user(stored, "a@b.c");
    assert!(matches!(api::login_password(&u, "pw"), Ok(None)));
    assert_eq!(api::login_password(&u, "nope").err().unwrap().status, 401);
    let legacy = "pbkdf2_sha256$2$NaCl$gRGcBEc1qGs0KsijK6CN6LaFQZWszmYEr1ox5JOFCps=";
    match check_password(legacy, "old") {
        PasswordCheck::Accepted { rehash: Some(h) } => {
            let parts: Vec<&str> = h.split('$').collect();
            assert_eq!(parts.len(), 4);
            assert_eq!((parts[0], parts[1]), ("pbkdf2_sha256", "600000"));
            assert_eq!(parts[2].len(), 22);
            assert!(parts[2].chars().all(|c| c.is_ascii_alphanumeric()));
            assert!(matches!(listaisto::hashing::verify(&h, "old"), listaisto::hashing::VerifyOutcome::Plain));
        }
        _ => panic!("legacy row should be accepted with a rehash"),
    }
    let cu = session_user(&u);
    assert_eq!((cu.id, cu.username.as_str(), cu.email.as_str()), (5, "ana", "a@b.c"));
}

#[test]
fn register_and_account_rules() {
    let long = "x".repeat(151);
    let e = api::register_fields(&long, "pw").err().unwrap();
    assert_eq!(e.error, "Nome demasiado longo.");
    // 75 two-byte characters are 150 bytes: still accepted.
    assert!(api::register_fields(&"é".repeat(75), "pw").is_ok());
    assert!(api::register_fields(&"é".repeat(76), "pw").is_err());
    let e = api::username_availability(Ok(true)).err().unwrap();
    assert_eq!((e.status, e.error.as_str()), (409, "Este nome de utilizador já existe."));
    assert!(api::username_availability(Ok(false)).is_ok());
    assert_eq!(api::account_created(Ok(12)).ok(), Some(12));
    let nu = new_account_user(12, "rui");
    assert!(nu.email.is_empty());
    assert_eq!(api::session_error().error, "Erro de sessão.");
}

#[test]
fn email_rules() {
    assert_eq!(api::email_field(" a@b.pt ").ok().unwrap(), "a@b.pt");
    assert_eq!(api::email_field("a@bpt").err().unwrap().error, "Email inválido.");
    assert_eq!(api::email_field("ab.pt").err().unwrap().status, 400);
    assert_eq!(api::email_availability(Ok(true)).err().unwrap().status, 409);
    assert_eq!(api::email_saved(Err(DbFailure)).err().unwrap().error, "Erro ao gravar email.");
    assert_eq!(
        api::email_linked_message("ana", "a@b.pt"),
        "Olá ana,\n\nO email a@b.pt foi associado à sua conta no ListaIsto.\n\n— ListaIsto"
    );
    assert_eq!(adicionar_email::email_form_field("ab.pt").err().unwrap(), "Introduza um endereço de email válido.");
    assert_eq!(adicionar_email::email_form_field(" a@b ").ok().unwrap(), "a@b");
    assert!(matches!(adicionar_email::show_gate(&None), adicionar_email::EmailGate::Redirect { ref to } if to == "/entrar/"));
    assert!(matches!(adicionar_email::show_gate(&Some(user(1, "a", "x@y"))), adicionar_email::EmailGate::Redirect { ref to } if to == "/"));
    assert!(matches!(adicionar_email::show_gate(&Some(user(1, "a", ""))), adicionar_email::EmailGate::Form));
}

#[test]
fn password_change_and_reset() {
    let e = api::change_password_fields("x", " abc ").err().unwrap();
    assert_eq!(e.error, "A nova palavra-passe é demasiado curta.");
    let stored = make_with_salt("velha", "NaCl");
    let h = api::change_password_hash(Ok(Some(auth_user(stored.clone(), ""))), "velha", "nova1").ok().unwrap();
    assert!(h.starts_with("pbkdf2_sha256$"));
    let e = api::change_password_hash(Ok(Some(auth_user(stored, ""))), "errada", "nova1").err().unwrap();
    assert_eq!((e.status, e.error.as_str()), (400, "Palavra-passe atual incorreta."));
    assert_eq!(api::change_password_hash(Ok(None), "a", "b").err().unwrap().status, 500);
    assert_eq!(api::reset_field("abc").err().unwrap().error, "A palavra-passe é demasiado curta.");
    assert_eq!(api::reset_outcome(Ok(None)).err().unwrap().error, "Link inválido ou expirado.");
    assert_eq!(api::reset_outcome(Ok(Some(4))).ok(), Some(4));
    assert!(!api::reset_check(Err(DbFailure)).valid);
    assert!(api::reset_check(Ok(true)).valid);
    assert_eq!(api::write_saved(Err(DbFailure)).err().unwrap().error, "Erro ao gravar.");
}

#[test]
fn username_change() {
    let me = user(1, "ana", "a@b");
    assert!(matches!(api::change_username_field(" ana ", &me), Ok(None)));
    assert_eq!(api::change_username_field("bia", &me).ok().unwrap().unwrap(), "bia");
    assert_eq!(api::change_username_field("  ", &me).err().unwrap().error, "Introduza um nome de utilizador.");
}

#[test]
fn recovery() {
    assert_eq!(api::recover_field(" ").err().unwrap().error, "Introduza o seu email.");
    assert_eq!(api::reset_link("https://listaisto.pt//", "t0k"), "https://listaisto.pt/reset/t0k");
    assert_eq!(api::reset_expiry(0), Some(MICROS_PER_HOUR));
    assert_eq!(api::reset_expiry(i64::MAX), None);
    assert!(api::recover_response().sent);
    let m = api::recovery_message("ana", "L");
    assert!(m.starts_with("Olá ana,\n\nRecebemos um pedido para recuperar a tua palavra-passe.\n\nAbre este link"));
    assert!(m.ends_with(":\nL\n\nSe não foste tu, ignora este email.\n\n— ListaIsto"));
    assert_eq!(
        recuperar::recovery_notice("ana"),
        "Olá ana,\n\nRecebemos um pedido para repor a sua palavra-passe.\n\nEsta versão Rust ainda não emite o link — contacte o admin se precisar.\n\n— ListaIsto"
    );
    assert!(recuperar::sent_page().enviado);
    assert_eq!(recuperar::submit_field(" ").err().unwrap().erro, "Introduza o seu email.");
}

#[test]
fn xhr_and_destino() {
    assert!(is_xhr(Some("xmlhttprequest")));
    assert!(!is_xhr(Some("fetch")));
    assert!(!is_xhr(None));
    assert_eq!(destino_of(""), None);
    assert_eq!(destino_of("comprar"), Some("comprar"));
    assert_eq!(signed_in_redirect(&Some(user(1, "a", ""))).as_deref(), Some("/"));
    assert_eq!(signed_in_redirect(&None), None);
}

#[test]
fn quantity_default_and_add_action() {
    assert_eq!(quantity_text("   "), "1x");
    assert_eq!(quantity_text(" 3 kg "), "3 kg");
    assert!(matches!(add_action(&Some(artigo(4, "Pão", 0))), AddAction::Revive { artigo_id: 4 }));
    assert!(matches!(add_action(&None), AddAction::Insert));
    let (n, q) = api_listas::item_fields(" Leite ", "").ok().unwrap();
    assert_eq!((n.as_str(), q.as_str()), ("Leite", "1x"));
    assert_eq!(api_listas::item_fields(" ", "2").err().unwrap().error, "Nome obrigatório.");
}

#[test]
fn edited_items_default_to_one() {
    assert_eq!(edited_quantity_text("  "), "1");
    assert_eq!(edited_quantity_text(" 2x "), "2x");
    let (n, q) = api_listas::edit_fields(" Leite ", "").ok().unwrap();
    assert_eq!((n.as_str(), q.as_str()), ("Leite", "1"));
    assert_eq!(api_listas::edit_fields("", "3").err().unwrap().error, "Nome obrigatório.");
}

#[test]
fn recovery_mails_only_found_accounts() {
    assert!(api::recover_target(Err(DbFailure)).is_none());
    assert!(api::recover_target(Ok(None)).is_none());
    let u = api::recover_target(Ok(Some(auth_user("h".to_string(), "a@b")))).unwrap();
    assert_eq!(u.email, "a@b");
}

#[test]
fn web_link_steps() {
    assert!(matches!(web_link_step(&None, LinkPerm::Adicionar), LinkStep::Expired));
    let l = Some(link(i64::MAX, 1, 0));
    assert!(matches!(web_link_step(&l, LinkPerm::Adicionar), LinkStep::Go { lista_id: 3 }));
    assert!(matches!(web_link_step(&l, LinkPerm::Toggle), LinkStep::BackToPage));
    assert!(matches!(web_link_step(&l, LinkPerm::Apagar), LinkStep::Go { lista_id: 3 }));
    let shut = Some(LinkPartilha { pode_apagar: 0, ..link(i64::MAX, 0, 0) });
    assert!(matches!(web_link_step(&shut, LinkPerm::Apagar), LinkStep::BackToPage));
    assert!(matches!(web_link_step(&shut, LinkPerm::Adicionar), LinkStep::BackToPage));
    assert_eq!(links_publicos::expired_message(), "Link expirado.");
    assert_eq!(links_publicos::page_expired_message(), "Link expirado ou inválido.");
    assert_eq!(links_publicos::page_list_missing_message(), "Lista não encontrada.");
    assert_eq!(registar::registar_destination(), "/adicionar_email/");
    assert_eq!(listaisto::db::DEFAULT_LIST_NAME, "Casa");
}

#[test]
fn links_expire() {
    let l = link(1_000, 1, 0);
    assert!(is_link_active(&l, 999));
    assert!(!is_link_active(&l, 1_000));
    assert!(active_link(Ok(Some(link(1_000, 1, 0))), 999).is_some());
    assert!(active_link(Ok(Some(link(1_000, 1, 0))), 1_001).is_none());
    assert!(active_link(Err(DbFailure), 0).is_none());
    assert_eq!(link_expiry(0, 2, "dias"), Some(2 * MICROS_PER_DAY));
    assert_eq!(link_expiry(0, 0, "minutos"), Some(MICROS_PER_MINUTE));
    assert_eq!(link_expiry(10, -5, "horas"), Some(10 + MICROS_PER_HOUR));
    assert_eq!(link_expiry(0, 3, "semanas"), Some(3 * MICROS_PER_HOUR));
    assert_eq!(link_expiry(0, i64::MAX, "dias"), None);
    assert_eq!(api_listas::d_dur(), 24);
    assert_eq!(api_listas::d_uni(), "horas");
    assert_eq!(listas::default_duracao(), 24);
    assert_eq!(listas::default_unidade(), "horas");
}

#[test]
fn links_against_the_clock() {
    assert!(usable_link(Ok(Some(link(i64::MAX, 1, 0)))).is_some());
    assert!(usable_link(Ok(Some(link(0, 1, 0)))).is_none());
    assert!(usable_link(Ok(None)).is_none());
    assert!(usable_link(Err(DbFailure)).is_none());
    // A link made now is usable now, and lives as long as asked.
    let t = new_link_expiry(2, "dias").unwrap();
    assert!(usable_link(Ok(Some(link(t, 1, 0)))).is_some());
    assert!(usable_link(Ok(Some(link(t - 2 * MICROS_PER_DAY, 1, 0)))).is_none());
    assert_eq!(new_link_expiry(i64::MAX, "dias"), None);
    let r = api::new_reset_expiry().unwrap();
    assert!(usable_link(Ok(Some(link(r, 1, 0)))).is_some());
    assert!(usable_link(Ok(Some(link(r - MICROS_PER_HOUR, 1, 0)))).is_none());
}

#[test]
fn active_list_resolution() {
    let lists = vec![lista(3, "Casa", 1), lista(7, "Praia", 2)];
    let c = resolve_active(&lists, Some(7));
    assert_eq!((c.active, c.stale, c.store), (Some(7), false, None));
    let c = resolve_active(&lists, Some(99));
    assert_eq!((c.active, c.stale, c.store), (Some(3), true, Some(3)));
    let c = resolve_active(&lists, None);
    assert_eq!((c.active, c.stale, c.store), (Some(3), false, Some(3)));
    let c = resolve_active(&[], Some(1));
    assert_eq!((c.active, c.stale, c.store), (None, true, None));
}

#[test]
fn settled_list_stays_settled() {
    let lists = vec![lista(3, "Casa", 1), lista(7, "Praia", 2)];
    for current in [None, Some(3), Some(7), Some(99)] {
        let first = resolve_active(&lists, current);
        let again = resolve_active(&lists, first.active);
        assert_eq!((again.active, again.stale, again.store), (first.active, false, None));
        assert!(first.active.map_or(false, |id| lists.iter().any(|l| l.id == id)));
    }
}

#[test]
fn list_picker_badges() {
    let lists = vec![lista(3, "Casa", 1), lista(7, "Praia", 2), lista(8, "Festa", 1)];
    let s = api_listas::list_summaries(&lists, 1, &HashSet::from([8]), &HashSet::from([3]));
    assert_eq!(
        s.iter().map(|x| (x.id, x.shared_users, x.shared_link)).collect::<Vec<_>>(),
        vec![(3, false, true), (7, true, false), (8, true, false)]
    );
    let r = api_listas::lists_response(s, None);
    assert_eq!(r.active_id, 0);
    let e = index::list_entries(&lists, 1, &HashSet::from([3]));
    assert_eq!(e.iter().map(|x| x.shared).collect::<Vec<_>>(), vec![true, true, false]);
    assert_eq!(index::active_nome(&lists, Some(7)), "Praia");
    assert_eq!(index::active_nome(&lists, Some(9)), "");
    assert_eq!(index::active_nome(&lists, None), "");
}

#[test]
fn detail_for_owner_and_collaborator() {
    let owner = user(1, "ana", "a@b");
    let other = user(2, "rui", "r@b");
    let parts = vec![PartilhaUser { partilha_id: 1, utilizador_id: 2, username: "rui".to_string() }];
    let d = api_listas::build_detail(lista(3, "Casa", 1), &owner, vec![artigo(1, "Pão", 0)], vec![artigo(2, "Leite", 1)], parts, vec![link(0, 1, 1)]);
    assert!(d.is_owner);
    assert_eq!(d.despensa.len(), 1);
    assert!(!d.despensa[0].comprar);
    assert!(d.a_comprar[0].comprar);
    assert_eq!(d.partilhas[0].username, "rui");
    assert_eq!(d.links[0].url, "/link/abc");
    assert_eq!(d.links[0].expira_em_str, "01/01/1970 00:00");
    let parts = vec![PartilhaUser { partilha_id: 1, utilizador_id: 2, username: "rui".to_string() }];
    let d = api_listas::build_detail(lista(3, "Casa", 1), &other, vec![], vec![], parts, vec![link(0, 1, 1)]);
    assert!(!d.is_owner);
    assert!(d.partilhas.is_empty() && d.links.is_empty());
    assert_eq!(api_listas::detail_lookup(Ok(None)).err().unwrap().error, "Lista não encontrada.");
    assert_eq!(api_listas::require_access(&Err(DbFailure)).err().unwrap().status, 404);
}

#[test]
fn sharing_messages() {
    let me = user(1, "ana", "a@b");
    assert_eq!(api_listas::share_target("ana", &me).err().unwrap().error, "Não pode partilhar consigo mesmo.");
    let e = api_listas::share_lookup(Ok(None), "zé").err().unwrap();
    assert_eq!((e.status, e.error.as_str()), (404, "Utilizador «zé» não existe."));
    assert_eq!(api_listas::share_saved(Err(DbFailure)).err().unwrap().error, "Erro ao partilhar.");
    assert_eq!(listas::partilhar_outcome(Ok(true), "zé").msg, "Lista partilhada com «zé».");
    assert_eq!(listas::partilhar_outcome(Ok(false), "zé").msg, "Já estava partilhada com «zé».");
    assert!(!listas::partilhar_outcome(Err(DbFailure), "zé").ok);
    let r = listas::partilhar_lookup::<AuthUser>(Err(DbFailure), "zé").err().unwrap();
    assert_eq!(r.msg, "Erro interno. Tente de novo.");
    assert_eq!(listas::partilhar_target(" ", "ana").err().unwrap().msg, "Introduza um nome de utilizador.");
    assert!(api::grants_share(&lista(3, "Casa", 1), 2));
    assert!(!api::grants_share(&lista(3, "Casa", 1), 1));
}

#[test]
fn public_link_rules() {
    assert_eq!(api_listas::permitted(0).err().unwrap().status, 403);
    assert!(api_listas::permitted(1).is_ok());
    assert_eq!(api_listas::link_expired().error, "Link expirado.");
    let l = link(0, 1, 1);
    let v = api_listas::public_view(None, vec![], vec![artigo(2, "Leite", 1)], &l, true);
    assert_eq!(v.lista_nome, "");
    assert!(v.already_logged_in && v.pode_apagar && !v.pode_editar);
    let m = links_publicos::link_match_response(Some(Ok(Some(artigo(2, "Leite", 0)))), &l);
    assert!(m.found && m.na_despensa == Some(true) && m.pode_toggle);
    let m = links_publicos::link_match_response(None, &link(0, 0, 0));
    assert!(!m.found && !m.pode_toggle);
    assert_eq!(links_publicos::guardar_target("registar"), "/registar/");
    assert_eq!(links_publicos::guardar_target(""), "/entrar/");
    assert_eq!(links_publicos::link_page_url("t"), "/link/t");
    assert!(links_publicos::adicionar_fields("  ", "2").is_none());
    let p = links_publicos::ver_page("abc", lista(3, "Casa", 1), vec![], vec![], &l, false);
    assert_eq!((p.token.as_str(), p.lista_nome.as_str()), ("abc", "Casa"));
}

#[test]
fn form_pages() {
    assert_eq!(listas::nome_of("  "), None);
    assert_eq!(listas::nome_of(" Casa ").as_deref(), Some("Casa"));
    assert!(listas::clears_active(Some(3), 3));
    assert!(!listas::clears_active(None, 3));
    let t = listas::toggle_response(Ok(Some(true)));
    assert!(t.ok && t.comprar);
    assert!(!listas::toggle_response(Err(DbFailure)).comprar);
    let form = listas::CriarLinkForm {
        duracao: 24,
        unidade: "horas".to_string(),
        pode_adicionar: Some("on".to_string()),
        pode_editar: None,
        pode_apagar: None,
        pode_toggle: Some(String::new()),
    };
    assert_eq!(listas::link_permissions(&form), (true, false, false, true));
    let r = listas::criar_link_response(4, "abc".to_string(), 0);
    assert_eq!((r.url.as_str(), r.expira_em_str.as_str()), ("/link/abc", "01/01/1970 00:00"));
    let tok = listas::random_hex_32();
    assert_eq!(tok.len(), 32);
    assert!(tok.chars().all(|c| c.is_ascii_hexdigit() && !c.is_ascii_uppercase()));
    let m = listas::match_response(Ok(Some(artigo(5, "Pão", 1))));
    assert_eq!(m.quantidade.as_deref(), Some("2x"));
    assert_eq!(m.na_despensa, Some(false));
    assert!(!listas::match_response(Ok(None)).found);
    assert_eq!(api_listas::search_term(" a "), None);
    assert_eq!(api_listas::search_term(" ab ").as_deref(), Some("ab"));
    assert_eq!(api_listas::search_term("é").as_deref(), Some("é"));
}

#[test]
fn sign_in_pages() {
    assert_eq!(entrar::sanitize_next(" /lista/3 ").as_deref(), Some("/lista/3"));
    assert_eq!(entrar::sanitize_next("//evil.com"), None);
    assert_eq!(entrar::sanitize_next("/\\evil.com"), None);
    assert_eq!(entrar::sanitize_next(" /\\evil.com "), None);
    assert_eq!(entrar::sanitize_next("/lista\\3").as_deref(), Some("/lista\\3"));
    assert_eq!(entrar::sanitize_next("/").as_deref(), Some("/"));
    assert_eq!(entrar::sanitize_next("https://evil.com"), None);
    assert_eq!(entrar::sanitize_next("/x?u=http://y"), None);
    assert_eq!(entrar::sanitize_next("lista"), None);
    assert_eq!(entrar::sanitize_next(""), None);
    assert_eq!(entrar::entrar_destination("", "/x"), "/adicionar_email/");
    assert_eq!(entrar::entrar_destination("a@b", "/x"), "/x");
    assert_eq!(entrar::entrar_destination("a@b", "//x"), "/");
    assert_eq!(entrar::entrar_lookup(Err(DbFailure)).err().unwrap(), "Nome de utilizador ou palavra-passe incorretos.");
    assert_eq!(entrar::entrar_fields("", "x").err().unwrap(), "Preencha todos os campos.");
    assert_eq!(entrar::session_error_message(), "Erro de sessão. Tente novamente.");
    let page = entrar::render_error("/x", "erro");
    assert_eq!((page.erro, page.next), ("erro", "/x"));
    assert_eq!(registar::registar_availability(Err(DbFailure)).err().unwrap(), "Erro ao verificar utilizador. Tente de novo.");
    assert_eq!(registar::registar_created(Err(DbFailure)).err().unwrap(), "Erro ao criar conta. Tente de novo.");
    assert_eq!(registar::registar_fields(&"y".repeat(151), "p").err().unwrap(), "Nome demasiado longo.");
    assert_eq!(index::show_gate(&Some(user(1, "a", ""))).as_deref(), Some("/adicionar_email/"));
    assert_eq!(index::show_gate(&Some(user(1, "a", "e@x"))), None);
    assert_eq!(
        adicionar_email::welcome_message("ana", "a@b"),
        "Olá ana,\n\nO email a@b foi associado à sua conta no ListaIsto.\n\nSe não fez esta alteração, contacte-nos.\n\n— ListaIsto"
    );
}

#[test]
fn sign_in_never_leaves_the_site() {
    for next in ["https://evil.com", "//evil.com", " //evil.com", "evil.com", "/a://b", "", "   ", "/\\evil.com", "/\\/evil.com", "\\\\evil.com"] {
        let d = entrar::entrar_destination("a@b", next);
        assert_eq!(d, "/");
    }
    for email in ["", "a@b"] {
        let d = entrar::entrar_destination(email, "/lista/7");
        assert!(d.starts_with('/') && !d.replace('\\', "/").starts_with("//") && !d.contains("://"));
    }
}

#[test]
fn instants_are_formatted_in_utc() {
    assert_eq!(show_instant(0), "01/01/1970 00:00");
    // 2024-02-29 13:45:30 UTC
    assert_eq!(show_instant(1_709_214_330_000_000), "29/02/2024 13:45");
    assert_eq!(show_instant(i64::MAX), "");
}
