//! The decisions of the web handlers: what each request is answered with,
//! given its input and what the database returned.
pub mod adicionar_email;
pub mod api;
pub mod api_listas;
pub mod entrar;
pub mod index;
pub mod links_publicos;
pub mod listas;
pub mod recuperar;
pub mod registar;

use vstd::prelude::*;

use crate::db::{Artigo, DbFailure, LinkPartilha, Lista};
use crate::hashing::{fresh_hash_of, make, spec_check, spec_verify, verify, VerifyOutcome};
use crate::text::{chars_of, eq_ignore_ascii_case, eq_ignore_ascii_case_chars, trim, trim_str};
use crate::time::{add_span, now_micros, MICROS_PER_DAY, MICROS_PER_HOUR, MICROS_PER_MINUTE};

verus! {

broadcast use vstd::string::group_string_axioms;

/// A JSON error answer: an HTTP status and the `error` message.
pub struct ApiError {
    pub status: u16,
    pub error: String,
}

/// `e` has the given status and message.
pub open spec fn is_error(e: ApiError, status: u16, msg: Seq<char>) -> bool {
    e.status == status && e.error@ == msg
}

pub fn api_error(status: u16, msg: &str) -> (e: ApiError)
    ensures
        is_error(e, status, msg@),
{
    ApiError { status, error: msg.to_owned() }
}

pub const BAD_REQUEST: u16 = 400;
pub const UNAUTHORIZED: u16 = 401;
pub const FORBIDDEN: u16 = 403;
pub const NOT_FOUND: u16 = 404;
pub const CONFLICT: u16 = 409;
pub const INTERNAL_SERVER_ERROR: u16 = 500;

/// Pages that only make sense signed out send a signed-in user home.
pub fn signed_in_redirect(user: &Option<crate::auth::CurrentUser>) -> (r: Option<String>)
    ensures
        match user {
            Some(_) => r matches Some(to) && to@ == "/"@,
            None => r is None,
        },
{
    match user {
        Some(_) => Some("/".to_owned()),
        None => None,
    }
}

// ───────────── passwords ─────────────

/// The verdict on a sign-in password.
pub enum PasswordCheck {
    /// The password is right. `rehash` holds a fresh stored hash when the
    /// row still had the legacy shape.
    Accepted { rehash: Option<String> },
    Rejected,
}

/// Checks `candidate` against the stored hash; a legacy match comes with a
/// fresh hash of `candidate` to store.
pub fn check_password(stored: &str, candidate: &str) -> (r: PasswordCheck)
    ensures
        match spec_verify(stored@, candidate@) {
            VerifyOutcome::Plain => r matches PasswordCheck::Accepted { rehash: None },
            VerifyOutcome::Legacy => r matches PasswordCheck::Accepted { rehash: Some(h) } && fresh_hash_of(h@, candidate@) && spec_check(h@, candidate@),
            VerifyOutcome::Failed => r is Rejected,
        },
{
    match verify(stored, candidate) {
        VerifyOutcome::Plain => PasswordCheck::Accepted { rehash: None },
        VerifyOutcome::Legacy => PasswordCheck::Accepted { rehash: Some(make(candidate)) },
        VerifyOutcome::Failed => PasswordCheck::Rejected,
    }
}

// ───────────── request flags ─────────────

/// The request came from a script: its `X-Requested-With` header, read as
/// text, is `XMLHttpRequest` up to ASCII case.
pub fn is_xhr(header: Option<&str>) -> (r: bool)
    ensures
        r == match header {
            Some(h) => eq_ignore_ascii_case(h@, "XMLHttpRequest"@),
            None => false,
        },
{
    match header {
        Some(h) => {
            let hc = chars_of(h);
            let x = chars_of("XMLHttpRequest");
            eq_ignore_ascii_case_chars(hc.as_slice(), x.as_slice())
        },
        None => false,
    }
}

/// A toggle's destination field: empty means "flip".
pub fn destino_of(destino: &str) -> (r: Option<&str>)
    ensures
        match r {
            Some(d) => d@ == destino@ && destino@.len() > 0,
            None => destino@.len() == 0,
        },
{
    if destino.is_empty() {
        None
    } else {
        Some(destino)
    }
}

// ───────────── item fields ─────────────

/// The quantity stored for a newly added item: the trimmed text, or the
/// default `"1x"` when that is empty.
pub open spec fn quantity_or_one(q: Seq<char>) -> Seq<char> {
    if trim(q).len() == 0 {
        "1x"@
    } else {
        trim(q)
    }
}

/// The quantity of an item entered without one.
pub const DEFAULT_QUANTITY: &'static str = "1x";

pub fn quantity_text(q: &str) -> (r: String)
    ensures
        r@ == quantity_or_one(q@),
{
    let t = trim_str(q);
    if t.as_str().is_empty() {
        DEFAULT_QUANTITY.to_owned()
    } else {
        t
    }
}

/// The quantity stored when an item is edited: the trimmed text, or `"1"`
/// when that is empty.
pub open spec fn edited_quantity(q: Seq<char>) -> Seq<char> {
    if trim(q).len() == 0 {
        "1"@
    } else {
        trim(q)
    }
}

/// The quantity of an item edited to have none.
pub const EDIT_DEFAULT_QUANTITY: &'static str = "1";

pub fn edited_quantity_text(q: &str) -> (r: String)
    ensures
        r@ == edited_quantity(q@),
{
    let t = trim_str(q);
    if t.as_str().is_empty() {
        EDIT_DEFAULT_QUANTITY.to_owned()
    } else {
        t
    }
}

/// What adding an item does, given the item of the same name (ignoring
/// case) that the list may already hold.
pub enum AddAction {
    /// Move the existing item back to the to-buy side.
    Revive { artigo_id: i32 },
    /// Insert a new item.
    Insert,
}

pub fn add_action(existing: &Option<Artigo>) -> (r: AddAction)
    ensures
        match existing {
            Some(a) => r == AddAction::Revive { artigo_id: a.id },
            None => r is Insert,
        },
{
    match existing {
        Some(a) => AddAction::Revive { artigo_id: a.id },
        None => AddAction::Insert,
    }
}

// ───────────── lists and links ─────────────

/// The lookup found a list (a failed query counts as not found).
pub fn found_lista(r: &Result<Option<Lista>, DbFailure>) -> (b: bool)
    ensures
        b == (r matches Ok(Some(_))),
{
    match r {
        Ok(Some(_)) => true,
        _ => false,
    }
}

/// A share link is usable while its expiry lies after `now`.
pub open spec fn link_active(link: LinkPartilha, now: i64) -> bool {
    link.expira_em > now
}

pub fn is_link_active(link: &LinkPartilha, now: i64) -> (r: bool)
    ensures
        r == link_active(*link, now),
{
    !(link.expira_em <= now)
}

/// The link a lookup found, if it is still usable at `now` (a failed query
/// counts as no link).
pub open spec fn usable_at(found: Result<Option<LinkPartilha>, DbFailure>, now: i64) -> Option<LinkPartilha> {
    match found {
        Ok(Some(l)) => if link_active(l, now) { Some(l) } else { None },
        _ => None,
    }
}

pub fn active_link(found: Result<Option<LinkPartilha>, DbFailure>, now: i64) -> (r: Option<LinkPartilha>)
    ensures
        r == usable_at(found, now),
{
    match found {
        Ok(Some(l)) => {
            if l.expira_em <= now {
                None
            } else {
                Some(l)
            }
        },
        _ => None,
    }
}

/// The link a lookup found, if it is usable now. Which instant "now" is
/// rests on the clock; whatever it was, the answer is the one for it.
pub fn usable_link(found: Result<Option<LinkPartilha>, DbFailure>) -> (r: Option<LinkPartilha>)
    ensures
        exists|now: i64| r == #[trigger] usable_at(found, now),
        r matches Some(l) ==> found == Ok::<Option<LinkPartilha>, DbFailure>(Some(l)),
{
    let now = now_micros();
    let ghost g = found;
    let r = active_link(found, now);
    assert(r == usable_at(g, now));
    r
}

/// The span unit of a link's lifetime: `"dias"`, `"minutos"`, otherwise hours.
pub open spec fn unit_micros(unidade: Seq<char>) -> int {
    if unidade == "dias"@ {
        MICROS_PER_DAY as int
    } else if unidade == "minutos"@ {
        MICROS_PER_MINUTE as int
    } else {
        MICROS_PER_HOUR as int
    }
}

/// When a link created at `now` for `duracao` units expires: the duration
/// counts as at least one unit.
pub open spec fn link_expiry_at(now: i64, duracao: i64, unidade: Seq<char>) -> int {
    let dur = if duracao < 1 { 1 } else { duracao as int };
    now + dur * unit_micros(unidade)
}

/// `r` is `link_expiry_at`, or `None` where that instant does not fit in an
/// `i64`.
pub open spec fn expiry_outcome(now: i64, duracao: i64, unidade: Seq<char>, r: Option<i64>) -> bool {
    match r {
        Some(t) => t == link_expiry_at(now, duracao, unidade),
        None => !(i64::MIN <= link_expiry_at(now, duracao, unidade) <= i64::MAX),
    }
}

pub fn link_expiry(now: i64, duracao: i64, unidade: &str) -> (r: Option<i64>)
    ensures
        expiry_outcome(now, duracao, unidade@, r),
{
    let dur: i64 = if duracao < 1 { 1 } else { duracao };
    let unit: i64 = if crate::text::str_eq(unidade, "dias") {
        MICROS_PER_DAY
    } else if crate::text::str_eq(unidade, "minutos") {
        MICROS_PER_MINUTE
    } else {
        MICROS_PER_HOUR
    };
    add_span(now, dur, unit)
}

/// The expiry of a link created now for `duracao` units. Which instant
/// "now" is rests on the clock; whatever it was, the expiry is the one for
/// it.
pub fn new_link_expiry(duracao: i64, unidade: &str) -> (r: Option<i64>)
    ensures
        exists|now: i64| #[trigger] expiry_outcome(now, duracao, unidade@, r),
{
    let now = now_micros();
    let r = link_expiry(now, duracao, unidade);
    assert(expiry_outcome(now, duracao, unidade@, r));
    r
}

/// Whether a list holds the given id.
pub fn lists_contain(lists: &[Lista], id: i32) -> (r: bool)
    ensures
        r == exists|i: int| 0 <= i < lists@.len() && #[trigger] lists@[i].id == id,
{
    let n = lists.len();
    for i in 0..n
        invariant
            n == lists@.len(),
            forall|k: int| 0 <= k < i ==> #[trigger] lists@[k].id != id,
    {
        if lists[i].id == id {
            return true;
        }
    }
    false
}

/// How the active list of a session is settled against the lists the user
/// can see.
pub struct ActiveChoice {
    /// The list to show, if any.
    pub active: Option<i32>,
    /// The session's list is no longer visible.
    pub stale: bool,
    /// The list to record in the session, when the first one is taken.
    pub store: Option<i32>,
}

pub open spec fn visible(lists: Seq<Lista>, id: i32) -> bool {
    exists|i: int| 0 <= i < lists.len() && #[trigger] lists[i].id == id
}

/// The list shown: the session's list while it is visible, else the first
/// visible list, else none.
pub open spec fn settled_active(lists: Seq<Lista>, current: Option<i32>) -> Option<i32> {
    if current matches Some(id) && visible(lists, id) {
        current
    } else if lists.len() > 0 {
        Some(lists[0].id)
    } else {
        None
    }
}

/// Keeps the session's list while it is visible, else falls back to the
/// first visible list (recording it), else none.
pub fn resolve_active(lists: &[Lista], current: Option<i32>) -> (r: ActiveChoice)
    ensures
        r.active == settled_active(lists@, current),
        r.stale == (current matches Some(id) && !visible(lists@, id)),
        (current matches Some(id) && visible(lists@, id)) ==> r.active == current && r.store is None,
        !(current matches Some(id) && visible(lists@, id)) ==> {
            if lists@.len() > 0 {
                r.active == Some(lists@[0].id) && r.store == Some(lists@[0].id)
            } else {
                r.active is None && r.store is None
            }
        },
        r.active matches Some(id) ==> visible(lists@, id),
{
    let mut stale = false;
    let mut active = current;
    match current {
        Some(id) => {
            if !lists_contain(lists, id) {
                stale = true;
                active = None;
            }
        },
        None => {},
    }
    let mut store = None;
    if active.is_none() && lists.len() > 0 {
        store = Some(lists[0].id);
        active = store;
        assert(lists@[0].id == lists@[0].id);
    }
    ActiveChoice { active, stale, store }
}

/// Settling the shown list is stable: once settled, settling again against
/// the same lists keeps it; and the list shown is always one the user can
/// see.
pub proof fn lemma_settled_active_is_stable(lists: Seq<Lista>, current: Option<i32>)
    ensures
        settled_active(lists, settled_active(lists, current)) == settled_active(lists, current),
        settled_active(lists, current) matches Some(id) ==> visible(lists, id),
{
    if lists.len() > 0 {
        assert(lists[0].id == lists[0].id);
    }
}

/// A link expires at least one unit after it is created, so it is usable
/// at its creation time.
pub proof fn lemma_new_link_is_active(link: LinkPartilha, now: i64, duracao: i64, unidade: Seq<char>)
    requires
        link.expira_em == link_expiry_at(now, duracao, unidade),
    ensures
        link_active(link, now),
{
    let dur = if duracao < 1 { 1 } else { duracao as int };
    assert(dur * unit_micros(unidade) >= unit_micros(unidade)) by (nonlinear_arith)
        requires
            dur >= 1,
            unit_micros(unidade) > 0;
}

/// A link stops being usable once its expiry is reached, and stays so.
pub proof fn lemma_expired_link_stays_expired(link: LinkPartilha, now: i64, later: i64)
    requires
        !link_active(link, now),
        now <= later,
    ensures
        !link_active(link, later),
{
}

// ───────────── email ─────────────

/// An address as the API accepts it: the trimmed text is non-empty and has
/// an `@` and a `.`.
pub open spec fn api_email_ok(email: Seq<char>) -> bool {
    let t = trim(email);
    t.len() > 0 && t.contains('@') && t.contains('.')
}

} // verus!
