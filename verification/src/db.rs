//! Rows of the shopping-list database and the computations that the data
//! layer performs on them. Timestamps are microseconds since the Unix epoch,
//! UTC.
use vstd::prelude::*;

use crate::text::{
    lemma_leading_number_decimal, chars_of, decimal, decimal_string, leading_number, leading_number_chars, str_eq, string_of,
};

verus! {

broadcast use vstd::string::group_string_axioms;

/// A row of `auth_user`.
pub struct AuthUser {
    pub id: i32,
    pub username: String,
    pub password: String,
    pub email: String,
    pub last_login: Option<i64>,
    pub is_active: i8,
}

/// A row of `compras_lista`.
pub struct Lista {
    pub id: i32,
    pub nome: String,
    pub dono_id: i32,
    pub criado_em: i64,
}

/// A row of `compras_artigo`. `comprar` is 0 for the pantry, otherwise the
/// item is on the to-buy side.
pub struct Artigo {
    pub id: i32,
    pub lista_id: Option<i32>,
    pub nome: String,
    pub quantidade: String,
    pub comprar: i8,
    pub criado_em: i64,
    pub movido_em: i64,
}

/// A user a list is shared with.
pub struct PartilhaUser {
    pub partilha_id: i32,
    pub utilizador_id: i32,
    pub username: String,
}

/// A row of `compras_linkpartilha`: a public share link.
pub struct LinkPartilha {
    pub id: i32,
    pub lista_id: i32,
    pub token: String,
    pub criado_em: i64,
    pub expira_em: i64,
    pub pode_adicionar: i8,
    pub pode_editar: i8,
    pub pode_apagar: i8,
    pub pode_toggle: i8,
}

/// A query that the database refused or could not answer.
pub struct DbFailure;

/// The name of the list every new account starts with.
pub const DEFAULT_LIST_NAME: &'static str = "Casa";

// ───────────── articles ─────────────

pub open spec fn in_pantry(a: Artigo) -> bool {
    a.comprar == 0
}

pub open spec fn to_buy(a: Artigo) -> bool {
    a.comprar != 0
}

/// Splits the rows of a list into (pantry, to buy), keeping their order.
pub fn split_articles(rows: Vec<Artigo>) -> (r: (Vec<Artigo>, Vec<Artigo>))
    ensures
        r.0@ == rows@.filter(|a: Artigo| in_pantry(a)),
        r.1@ == rows@.filter(|a: Artigo| to_buy(a)),
{
    let ghost all = rows@;
    let mut despensa: Vec<Artigo> = Vec::new();
    let mut comprar: Vec<Artigo> = Vec::new();
    for row in it: rows
        invariant
            it.seq() == all,
            despensa@ == all.take(it.index()).filter(|a: Artigo| in_pantry(a)),
            comprar@ == all.take(it.index()).filter(|a: Artigo| to_buy(a)),
    {
        let ghost i = it.index();
        proof {
            reveal_with_fuel(Seq::<_>::filter, 1);
            assert(all.take(i + 1).drop_last() =~= all.take(i));
            assert(all.take(i + 1).last() == row);
        }
        if row.comprar == 0 {
            despensa.push(row);
        } else {
            comprar.push(row);
        }
    }
    assert(all.take(all.len() as int) =~= all);
    (despensa, comprar)
}

/// Splitting loses no row and copies none: every row lands on exactly one
/// side, so the two sides hold as many rows as the list.
pub proof fn lemma_split_keeps_every_row(rows: Seq<Artigo>)
    ensures
        rows.filter(|a: Artigo| in_pantry(a)).len() + rows.filter(|a: Artigo| to_buy(a)).len() == rows.len(),
        rows.filter(|a: Artigo| in_pantry(a)).to_multiset().add(rows.filter(|a: Artigo| to_buy(a)).to_multiset())
            =~= rows.to_multiset(),
    decreases rows.len(),
{
    broadcast use vstd::seq_lib::group_to_multiset_ensures;
    reveal_with_fuel(Seq::<_>::filter, 1);
    if rows.len() > 0 {
        let init = rows.drop_last();
        lemma_split_keeps_every_row(init);
        assert(rows =~= init.push(rows.last()));
    } else {
        assert(rows.filter(|a: Artigo| in_pantry(a)) =~= Seq::<Artigo>::empty());
        assert(rows.filter(|a: Artigo| to_buy(a)) =~= Seq::<Artigo>::empty());
    }
}

// ───────────── toggling ─────────────

/// Where a toggle moves an item: `"despensa"` to the pantry (0),
/// `"comprar"` to the to-buy side (1), anything else flips `current`.
pub open spec fn toggle_target(current: i8, destino: Option<Seq<char>>) -> i8 {
    if destino == Some("despensa"@) {
        0
    } else if destino == Some("comprar"@) {
        1
    } else if current == 0 {
        1
    } else {
        0
    }
}

/// The new `comprar` value of a toggled item.
pub fn toggle_value(current: i8, destino: Option<&str>) -> (r: i8)
    ensures
        r == toggle_target(current, match destino { Some(d) => Some(d@), None => None }),
{
    match destino {
        Some(d) => {
            if str_eq(d, "despensa") {
                0
            } else if str_eq(d, "comprar") {
                1
            } else if current == 0 {
                1
            } else {
                0
            }
        },
        None => if current == 0 { 1 } else { 0 },
    }
}

/// Flipping twice restores the side an item was on.
pub proof fn lemma_toggle_twice(current: i8)
    requires
        current == 0 || current == 1,
    ensures
        toggle_target(toggle_target(current, None), None) == current,
{
}

/// Moving to a named side lands there whatever the item's side was, and
/// doing it twice changes nothing more.
pub proof fn lemma_toggle_to_side_idempotent(current: i8)
    ensures
        toggle_target(current, Some("comprar"@)) == 1,
        toggle_target(toggle_target(current, Some("comprar"@)), Some("comprar"@)) == 1,
        toggle_target(current, Some("despensa"@)) == 0,
        toggle_target(toggle_target(current, Some("despensa"@)), Some("despensa"@)) == 0,
{
    reveal_strlit("comprar");
    reveal_strlit("despensa");
    assert("comprar"@ != "despensa"@) by {
        assert("comprar"@[0] != "despensa"@[0]);
    }
}

// ───────────── quantities ─────────────

/// The number a quantity steps to: `"mais"` adds one, `"menos"` takes one
/// away while the number is above 1, anything else keeps it.
pub open spec fn stepped_quantity(q: Seq<char>, direcao: Seq<char>) -> int {
    let n = leading_number(q);
    if direcao == "mais"@ {
        n + 1
    } else if direcao == "menos"@ && n > 1 {
        n - 1
    } else {
        n as int
    }
}

/// The stored quantity after a step: the decimal writing of
/// `stepped_quantity` (any unit text after the number is dropped).
pub fn next_quantidade(q: &str, direcao: &str) -> (r: String)
    requires
        !(direcao@ == "mais"@ && leading_number(q@) == i64::MAX),
    ensures
        stepped_quantity(q@, direcao@) >= 0,
        r@ == decimal(stepped_quantity(q@, direcao@) as nat),
{
    let qc = chars_of(q);
    let n = leading_number_chars(qc.as_slice());
    assert(n >= 0);
    let m: i64 = if str_eq(direcao, "mais") {
        n + 1
    } else if str_eq(direcao, "menos") && n > 1 {
        n - 1
    } else {
        n
    };
    decimal_string(m as u64)
}

/// Whether a `+1` step on `q` would overflow the `i64` counter of the leading number.
pub fn increment_overflows(q: &str) -> (r: bool)
    ensures
        r == (leading_number(q@) == i64::MAX),
{
    let qc = chars_of(q);
    leading_number_chars(qc.as_slice()) == i64::MAX
}

/// A step down never takes a count of at least 1 below 1.
pub proof fn lemma_step_down_floor(q: Seq<char>)
    requires
        leading_number(q) >= 1,
    ensures
        stepped_quantity(q, "menos"@) >= 1,
{
    reveal_strlit("mais");
    reveal_strlit("menos");
    assert("menos"@ != "mais"@) by {
        assert("menos"@[1] != "mais"@[1]);
    }
}

/// A step up followed by a step down gives back the count, for counts of at
/// least 1.
pub proof fn lemma_step_up_then_down(q: Seq<char>)
    requires
        1 <= leading_number(q) < i64::MAX,
    ensures
        stepped_quantity(decimal(stepped_quantity(q, "mais"@) as nat), "menos"@) == leading_number(q),
{
    reveal_strlit("mais");
    reveal_strlit("menos");
    assert("menos"@ != "mais"@) by {
        assert("menos"@[1] != "mais"@[1]);
    }
    let up = stepped_quantity(q, "mais"@);
    assert(up == leading_number(q) + 1);
    lemma_leading_number_decimal(up as nat);
}

// ───────────── counts, flags, patterns ─────────────

/// A `COUNT(*)` answer read as "some row matched".
pub fn count_found(count: i64) -> (r: bool)
    ensures
        r == (count > 0),
{
    count > 0
}

/// A permission flag as the byte the table stores.
pub fn flag_byte(b: bool) -> (r: i8)
    ensures
        r == (if b { 1i8 } else { 0i8 }),
{
    if b { 1 } else { 0 }
}

/// The `LIKE` pattern that matches names starting with `q`.
pub fn prefix_pattern(q: &str) -> (r: String)
    ensures
        r@ == q@ + seq!['%'],
{
    let mut v = chars_of(q);
    v.push('%');
    string_of(v.as_slice())
}

} // verus!
