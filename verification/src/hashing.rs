//! Django-compatible PBKDF2-SHA256 password hashing.
//!
//! Stored format: `pbkdf2_sha256$<iterations>$<salt>$<base64hash>`, the
//! format of `django.contrib.auth.hashers.PBKDF2PasswordHasher`.
use base64::{engine::general_purpose::STANDARD as B64, Engine as _};
use hmac::Hmac;
use sha2::{Digest, Sha256};
use vstd::prelude::*;
use vstd::utf8::encode_utf8;

use crate::random::{is_ascii_alphanumeric, random_alphanumeric};
use vstd::string::StringExecFns;
use crate::text::{
    chars_eq, chars_of, decimal, decimal_string, hex_lower, hex_lower_string, lemma_decimal,
    parse_u32, parse_u32_chars, string_of, all_digits,
};

verus! {

broadcast use vstd::string::group_string_axioms;

pub const DEFAULT_ITERATIONS: u32 = 600_000;
pub const HASH_LEN: usize = 32;
pub const SALT_LEN: usize = 22;

/// How a candidate password relates to a stored hash.
pub enum VerifyOutcome {
    /// The candidate matched directly.
    Plain,
    /// The candidate matched only after the sha256-hex transform; the caller
    /// should store a fresh hash.
    Legacy,
    Failed,
}

// ───────────── outside primitives ─────────────

/// What `sha2::Sha256` digests `data` to.
pub uninterp spec fn spec_sha256(data: Seq<u8>) -> Seq<u8>;

/// The `len` bytes that `pbkdf2::pbkdf2::<Hmac<Sha256>>` derives from
/// `password`, `salt` and `rounds`.
pub uninterp spec fn spec_pbkdf2_hmac_sha256(password: Seq<u8>, salt: Seq<u8>, rounds: u32, len: nat) -> Seq<u8>;

/// The text that the `base64` crate's `STANDARD` engine encodes `data` to.
pub uninterp spec fn spec_base64_encode(data: Seq<u8>) -> Seq<char>;

/// What the `base64` crate's `STANDARD` engine decodes `text` to, `None`
/// where it reports an error.
pub uninterp spec fn spec_base64_decode(text: Seq<u8>) -> Option<Seq<u8>>;

/// A character of the standard base64 alphabet, or the `=` padding.
pub open spec fn is_base64_char(c: char) -> bool {
    ||| 'A' <= c <= 'Z'
    ||| 'a' <= c <= 'z'
    ||| '0' <= c <= '9'
    ||| c == '+'
    ||| c == '/'
    ||| c == '='
}

/// `Sha256::new()`, `update(data)`, `finalize()`. Claimed: the digest is the
/// named `spec_sha256` of the input bytes.
#[verifier::external_body]
fn sha256_digest(data: &[u8]) -> (out: Vec<u8>)
    ensures
        out@ == spec_sha256(data@),
{
    let mut h = Sha256::new();
    h.update(data);
    h.finalize().to_vec()
}

/// `pbkdf2::pbkdf2::<Hmac<Sha256>>(password, salt, rounds, out)`, which fills
/// `out` and cannot fail with HMAC (any key length is accepted). Claimed:
/// `out` keeps its length and holds the named derivation for that length.
#[verifier::external_body]
fn pbkdf2_hmac_sha256_into(password: &[u8], salt: &[u8], rounds: u32, out: &mut Vec<u8>)
    ensures
        final(out)@ == spec_pbkdf2_hmac_sha256(password@, salt@, rounds, old(out)@.len()),
        final(out)@.len() == old(out)@.len(),
{
    pbkdf2::pbkdf2::<Hmac<Sha256>>(password, salt, rounds, out.as_mut_slice())
        .expect("HMAC can be initialized with any key length");
}

/// `STANDARD.encode(data)`. Claimed: the named encoding; every character is
/// from the standard alphabet or `=`; and `STANDARD.decode` gives `data` back
/// (canonical padding round-trips). The crate panics only when the encoded
/// length overflows `usize`, which the bound on `data` rules out.
#[verifier::external_body]
fn base64_encode(data: &[u8]) -> (s: String)
    requires
        data@.len() <= usize::MAX / 2,
    ensures
        s@ == spec_base64_encode(data@),
        forall|i: int| 0 <= i < s@.len() ==> is_base64_char(#[trigger] s@[i]),
        spec_base64_decode(encode_utf8(s@)) == Some(data@),
{
    B64.encode(data)
}

/// `STANDARD.decode(text)`, with the crate's error mapped to `None`.
/// Claimed: the outcome is the named decoding of the input bytes.
#[verifier::external_body]
fn base64_decode(text: &[u8]) -> (r: Option<Vec<u8>>)
    ensures
        match r {
            Some(b) => spec_base64_decode(text@) == Some(b@),
            None => spec_base64_decode(text@) is None,
        },
{
    match B64.decode(text) {
        Ok(b) => Some(b),
        Err(_) => None,
    }
}

// ───────────── splitting the stored form ─────────────

/// Index of the first `c` in `s`.
pub open spec fn find_char(s: Seq<char>, c: char) -> Option<int>
    decreases s.len(),
{
    if s.len() == 0 {
        None
    } else if s[0] == c {
        Some(0)
    } else {
        match find_char(s.drop_first(), c) {
            Some(i) => Some(i + 1),
            None => None,
        }
    }
}

/// `str::splitn(n, sep)`: at most `n` pieces, the last holding the rest.
pub open spec fn splitn(s: Seq<char>, n: nat, sep: char) -> Seq<Seq<char>>
    decreases n,
{
    if n == 0 {
        seq![]
    } else if n == 1 {
        seq![s]
    } else {
        match find_char(s, sep) {
            None => seq![s],
            Some(i) => seq![s.take(i)] + splitn(s.skip(i + 1), (n - 1) as nat, sep),
        }
    }
}

proof fn lemma_find_char(s: Seq<char>, c: char, i: int)
    requires
        0 <= i <= s.len(),
        forall|k: int| 0 <= k < i ==> s[k] != c,
    ensures
        i < s.len() && s[i] == c ==> find_char(s, c) == Some(i),
        i == s.len() ==> find_char(s, c) is None,
    decreases i,
{
    if i > 0 {
        lemma_find_char(s.drop_first(), c, i - 1);
    }
}

fn find_char_exec(s: &[char], c: char) -> (r: Option<usize>)
    ensures
        match r {
            Some(i) => find_char(s@, c) == Some(i as int) && i < s@.len(),
            None => find_char(s@, c) is None,
        },
{
    let n = s.len();
    for i in 0..n
        invariant
            n == s@.len(),
            forall|k: int| 0 <= k < i ==> s@[k] != c,
    {
        if s[i] == c {
            proof {
                lemma_find_char(s@, c, i as int);
            }
            return Some(i);
        }
    }
    proof {
        lemma_find_char(s@, c, n as int);
    }
    None
}

fn slice_range(s: &[char], from: usize, to: usize) -> (r: Vec<char>)
    requires
        from <= to <= s@.len(),
    ensures
        r@ == s@.subrange(from as int, to as int),
{
    let mut r: Vec<char> = Vec::new();
    for k in from..to
        invariant
            from <= to <= s@.len(),
            r@ == s@.subrange(from as int, k as int),
    {
        r.push(s[k]);
        assert(s@.subrange(from as int, k + 1) == s@.subrange(from as int, k as int).push(s@[k as int]));
    }
    r
}

/// `splitn(n, sep)` on the given characters.
pub fn splitn_chars(s: &[char], n: usize, sep: char) -> (r: Vec<Vec<char>>)
    ensures
        r@.len() == splitn(s@, n as nat, sep).len(),
        forall|i: int| 0 <= i < r@.len() ==> #[trigger] r@[i]@ == splitn(s@, n as nat, sep)[i],
    decreases n,
{
    if n == 0 {
        return Vec::new();
    }
    let whole = slice_range(s, 0, s.len());
    assert(s@.subrange(0, s@.len() as int) == s@);
    if n == 1 {
        return vec![whole];
    }
    match find_char_exec(s, sep) {
        None => vec![whole],
        Some(i) => {
            let head = slice_range(s, 0, i);
            let rest = slice_range(s, i + 1, s.len());
            let tail = splitn_chars(rest.as_slice(), n - 1, sep);
            let ghost spec_r = splitn(s@, n as nat, sep);
            assert(s@.take(i as int) == s@.subrange(0, i as int));
            assert(s@.skip(i + 1) == rest@);
            let mut r: Vec<Vec<char>> = vec![head];
            let m = tail.len();
            for k in 0..m
                invariant
                    m == tail@.len(),
                    r@.len() == k + 1,
                    spec_r == seq![s@.take(i as int)] + splitn(rest@, (n - 1) as nat, sep),
                    tail@.len() == splitn(rest@, (n - 1) as nat, sep).len(),
                    forall|j: int| 0 <= j < tail@.len() ==> #[trigger] tail@[j]@ == splitn(rest@, (n - 1) as nat, sep)[j],
                    forall|j: int| 0 <= j < r@.len() ==> #[trigger] r@[j]@ == spec_r[j],
            {
                let piece = slice_range(tail[k].as_slice(), 0, tail[k].len());
                assert(tail@[k as int]@.subrange(0, tail@[k as int]@.len() as int) == tail@[k as int]@);
                r.push(piece);
                assert(r@[k + 1]@ == spec_r[k + 1]);
            }
            r
        },
    }
}

// ───────────── the scheme ─────────────

/// `a` and `b` hold the same bytes, compared without early exit.
pub fn constant_time_eq(a: &[u8], b: &[u8]) -> (r: bool)
    ensures
        r == (a@ == b@),
{
    if a.len() != b.len() {
        return false;
    }
    let n = a.len();
    let mut diff: u8 = 0;
    for i in 0..n
        invariant
            n == a@.len(),
            n == b@.len(),
            (diff == 0) == (forall|k: int| 0 <= k < i ==> a@[k] == b@[k]),
    {
        let x = a[i];
        let y = b[i];
        let d = diff;
        assert((d | (x ^ y)) == 0 <==> (d == 0 && x == y)) by (bit_vector);
        diff = diff | (x ^ y);
        proof {
            if diff == 0 {
                assert forall|k: int| 0 <= k < i + 1 implies a@[k] == b@[k] by {
                    if k < i {
                    }
                }
            }
        }
    }
    if diff == 0 {
        assert(a@ =~= b@);
    }
    diff == 0
}

/// PBKDF2-HMAC-SHA256 with a `HASH_LEN`-byte output.
pub fn pbkdf2_sha256(password: &[u8], salt: &[u8], iterations: u32) -> (out: Vec<u8>)
    ensures
        out@ == spec_pbkdf2_hmac_sha256(password@, salt@, iterations, HASH_LEN as nat),
        out@.len() == HASH_LEN,
{
    let mut out: Vec<u8> = Vec::new();
    for _i in 0..HASH_LEN
        invariant
            out@.len() == _i,
    {
        out.push(0u8);
    }
    pbkdf2_hmac_sha256_into(password, salt, iterations, &mut out);
    out
}

/// The lower-case hex of the SHA-256 of the UTF-8 bytes of `s`: the
/// transform that older rows applied before hashing.
pub open spec fn spec_sha256_hex(s: Seq<char>) -> Seq<char> {
    hex_lower(spec_sha256(encode_utf8(s)))
}

pub fn sha256_hex(s: &str) -> (r: String)
    ensures
        r@ == spec_sha256_hex(s@),
{
    let bytes = sha256_digest(s.as_bytes());
    hex_lower_string(bytes.as_slice())
}

/// Whether `stored` is a well-formed PBKDF2-SHA256 hash of `candidate`.
pub open spec fn spec_check(stored: Seq<char>, candidate: Seq<char>) -> bool {
    let parts = splitn(stored, 4, '$');
    &&& parts.len() == 4
    &&& parts[0] == "pbkdf2_sha256"@
    &&& parse_u32(parts[1]) is Some
    &&& spec_base64_decode(encode_utf8(parts[3])) == Some(
        spec_pbkdf2_hmac_sha256(
            encode_utf8(candidate),
            encode_utf8(parts[2]),
            parse_u32(parts[1])->0,
            HASH_LEN as nat,
        ),
    )
}

/// The outcome of checking `candidate` against `stored`.
pub open spec fn spec_verify(stored: Seq<char>, candidate: Seq<char>) -> VerifyOutcome {
    if spec_check(stored, candidate) {
        VerifyOutcome::Plain
    } else if spec_check(stored, spec_sha256_hex(candidate)) {
        VerifyOutcome::Legacy
    } else {
        VerifyOutcome::Failed
    }
}

/// The stored form for `plain` under the given salt and iteration count.
pub open spec fn spec_stored_hash(plain: Seq<char>, salt: Seq<char>, iterations: u32) -> Seq<char> {
    "pbkdf2_sha256$"@ + decimal(iterations as nat) + "$"@ + salt + "$"@
        + spec_base64_encode(
        spec_pbkdf2_hmac_sha256(encode_utf8(plain), encode_utf8(salt), iterations, HASH_LEN as nat),
    )
}

fn check(stored: &str, candidate: &str) -> (r: bool)
    ensures
        r == spec_check(stored@, candidate@),
{
    let s = chars_of(stored);
    let parts = splitn_chars(s.as_slice(), 4, '$');
    if parts.len() != 4 {
        return false;
    }
    let alg = chars_of("pbkdf2_sha256");
    if !chars_eq(parts[0].as_slice(), alg.as_slice()) {
        return false;
    }
    let iterations = match parse_u32_chars(parts[1].as_slice()) {
        Some(n) => n,
        None => return false,
    };
    let salt = string_of(parts[2].as_slice());
    let encoded = string_of(parts[3].as_slice());
    let expected = match base64_decode(encoded.as_str().as_bytes()) {
        Some(b) => b,
        None => return false,
    };
    let actual = pbkdf2_sha256(candidate.as_bytes(), salt.as_str().as_bytes(), iterations);
    constant_time_eq(expected.as_slice(), actual.as_slice())
}

/// Checks `candidate` against `stored`, directly and then in the legacy
/// sha256-hex shape.
pub fn verify(stored: &str, candidate: &str) -> (r: VerifyOutcome)
    ensures
        r == spec_verify(stored@, candidate@),
{
    if check(stored, candidate) {
        return VerifyOutcome::Plain;
    }
    let legacy = sha256_hex(candidate);
    if check(stored, legacy.as_str()) {
        return VerifyOutcome::Legacy;
    }
    VerifyOutcome::Failed
}


// ───────────── making hashes ─────────────

proof fn lemma_find_after_prefix(a: Seq<char>, rest: Seq<char>, c: char)
    requires
        forall|k: int| 0 <= k < a.len() ==> a[k] != c,
    ensures
        find_char(a + seq![c] + rest, c) == Some(a.len() as int),
{
    let s = a + seq![c] + rest;
    assert forall|k: int| 0 <= k < a.len() implies s[k] != c by {
        assert(s[k] == a[k]);
    }
    assert(s[a.len() as int] == c);
    lemma_find_char(s, c, a.len() as int);
}

proof fn lemma_splitn_step(a: Seq<char>, rest: Seq<char>, c: char, n: nat)
    requires
        n >= 2,
        forall|k: int| 0 <= k < a.len() ==> a[k] != c,
    ensures
        splitn(a + seq![c] + rest, n, c) == seq![a] + splitn(rest, (n - 1) as nat, c),
{
    let s = a + seq![c] + rest;
    lemma_find_after_prefix(a, rest, c);
    assert(s.take(a.len() as int) =~= a);
    assert(s.skip(a.len() as int + 1) =~= rest);
}

/// A stored hash built from a salt without `$` checks against the password
/// it was built from, given that base64 decoding undoes the encoding used.
proof fn lemma_stored_hash_checks(plain: Seq<char>, salt: Seq<char>, iterations: u32)
    requires
        forall|k: int| 0 <= k < salt.len() ==> salt[k] != '$',
        ({
            let h = spec_pbkdf2_hmac_sha256(encode_utf8(plain), encode_utf8(salt), iterations, HASH_LEN as nat);
            spec_base64_decode(encode_utf8(spec_base64_encode(h))) == Some(h)
        }),
    ensures
        spec_check(spec_stored_hash(plain, salt, iterations), plain),
{
    reveal_strlit("pbkdf2_sha256$");
    reveal_strlit("pbkdf2_sha256");
    reveal_strlit("$");
    let p = "pbkdf2_sha256"@;
    let d = decimal(iterations as nat);
    let h = spec_pbkdf2_hmac_sha256(encode_utf8(plain), encode_utf8(salt), iterations, HASH_LEN as nat);
    let b = spec_base64_encode(h);
    lemma_decimal(iterations as nat);
    let stored = spec_stored_hash(plain, salt, iterations);
    let r2 = salt + seq!['$'] + b;
    let r1 = d + seq!['$'] + r2;
    assert(stored =~= p + seq!['$'] + r1);
    assert forall|k: int| 0 <= k < p.len() implies p[k] != '$' by {}
    assert forall|k: int| 0 <= k < d.len() implies d[k] != '$' by {
        assert(all_digits(d));
        assert(crate::text::is_ascii_digit(d[k]));
    }
    lemma_splitn_step(p, r1, '$', 4);
    lemma_splitn_step(d, r2, '$', 3);
    lemma_splitn_step(salt, b, '$', 2);
    let parts = splitn(stored, 4, '$');
    assert(parts =~= seq![p, d, salt, b]);
    assert(d[0] != '+');
    assert(parse_u32(d) == Some(iterations));
}

/// The derived key of `plain` under `salt`, as stored.
pub open spec fn derived_key(plain: Seq<char>, salt: Seq<char>, iterations: u32) -> Seq<u8> {
    spec_pbkdf2_hmac_sha256(encode_utf8(plain), encode_utf8(salt), iterations, HASH_LEN as nat)
}

/// The base64 text of the derived key, the last piece of the stored form.
pub open spec fn encoded_key(plain: Seq<char>, salt: Seq<char>, iterations: u32) -> Seq<char> {
    spec_base64_encode(derived_key(plain, salt, iterations))
}

/// The last piece of a stored form is well made: the key is `HASH_LEN`
/// bytes, its text holds only base64 characters (so no `$`), and decoding
/// that text gives the key back.
pub open spec fn key_well_encoded(plain: Seq<char>, salt: Seq<char>, iterations: u32) -> bool {
    &&& derived_key(plain, salt, iterations).len() == HASH_LEN
    &&& forall|k: int| 0 <= k < encoded_key(plain, salt, iterations).len()
        ==> is_base64_char(#[trigger] encoded_key(plain, salt, iterations)[k])
    &&& spec_base64_decode(encode_utf8(encoded_key(plain, salt, iterations)))
        == Some(derived_key(plain, salt, iterations))
}

/// `h` is the stored form of `plain` under `salt`: `pbkdf2_sha256`, the
/// default iteration count, the salt (22 ASCII letters and digits) and the
/// base64 key, joined by `$`, with no `$` inside any piece.
pub open spec fn salted_hash(h: Seq<char>, plain: Seq<char>, salt: Seq<char>) -> bool {
    &&& salt.len() == SALT_LEN
    &&& forall|k: int| 0 <= k < salt.len() ==> is_ascii_alphanumeric(#[trigger] salt[k])
    &&& h == spec_stored_hash(plain, salt, DEFAULT_ITERATIONS)
    &&& key_well_encoded(plain, salt, DEFAULT_ITERATIONS)
}

/// `h` is a fresh stored hash of `plain`, under some salt.
pub open spec fn fresh_hash_of(h: Seq<char>, plain: Seq<char>) -> bool {
    exists|salt: Seq<char>| #[trigger] salted_hash(h, plain, salt)
}

/// The stored form of `plain` under the given salt.
pub fn make_with_salt(plain: &str, salt: &str) -> (r: String)
    ensures
        r@ == spec_stored_hash(plain@, salt@, DEFAULT_ITERATIONS),
        key_well_encoded(plain@, salt@, DEFAULT_ITERATIONS),
        (forall|k: int| 0 <= k < salt@.len() ==> salt@[k] != '$') ==> spec_check(r@, plain@),
{
    let hash = pbkdf2_sha256(plain.as_bytes(), salt.as_bytes(), DEFAULT_ITERATIONS);
    let encoded = base64_encode(hash.as_slice());
    let mut r = String::new();
    r.append("pbkdf2_sha256$");
    let iterations = decimal_string(DEFAULT_ITERATIONS as u64);
    r.append(iterations.as_str());
    r.append("$");
    r.append(salt);
    r.append("$");
    r.append(encoded.as_str());
    proof {
        if forall|k: int| 0 <= k < salt@.len() ==> salt@[k] != '$' {
            lemma_stored_hash_checks(plain@, salt@, DEFAULT_ITERATIONS);
        }
    }
    r
}

/// A fresh stored hash of `plain` under a random 22-character alphanumeric
/// salt. Whatever salt was drawn, the result is well made and checks
/// against `plain`.
pub fn make(plain: &str) -> (r: String)
    ensures
        fresh_hash_of(r@, plain@),
        spec_check(r@, plain@),
{
    let salt = random_alphanumeric(SALT_LEN);
    assert forall|k: int| 0 <= k < salt@.len() implies salt@[k] != '$' by {
        assert(is_ascii_alphanumeric(salt@[k]));
    }
    let r = make_with_salt(plain, salt.as_str());
    assert(salted_hash(r@, plain@, salt@));
    r
}

/// A fresh stored hash is four `$`-free pieces joined by `$`:
/// `pbkdf2_sha256`, the decimal iteration count, the salt and the key text.
pub proof fn lemma_fresh_hash_pieces(h: Seq<char>, plain: Seq<char>)
    requires
        fresh_hash_of(h, plain),
    ensures
        exists|salt: Seq<char>|
            #[trigger] salted_hash(h, plain, salt)
            && h == "pbkdf2_sha256"@ + seq!['$'] + decimal(DEFAULT_ITERATIONS as nat) + seq!['$'] + salt
                + seq!['$'] + encoded_key(plain, salt, DEFAULT_ITERATIONS)
            && (forall|k: int| 0 <= k < salt.len() ==> salt[k] != '$')
            && (forall|k: int| 0 <= k < encoded_key(plain, salt, DEFAULT_ITERATIONS).len()
                ==> encoded_key(plain, salt, DEFAULT_ITERATIONS)[k] != '$'),
{
    reveal_strlit("pbkdf2_sha256$");
    reveal_strlit("pbkdf2_sha256");
    reveal_strlit("$");
    let salt = choose|salt: Seq<char>| #[trigger] salted_hash(h, plain, salt);
    let key = encoded_key(plain, salt, DEFAULT_ITERATIONS);
    assert(h =~= "pbkdf2_sha256"@ + seq!['$'] + decimal(DEFAULT_ITERATIONS as nat) + seq!['$'] + salt + seq!['$'] + key);
    assert forall|k: int| 0 <= k < salt.len() implies salt[k] != '$' by {
        assert(is_ascii_alphanumeric(salt[k]));
    }
    assert forall|k: int| 0 <= k < key.len() implies key[k] != '$' by {
        assert(is_base64_char(key[k]));
    }
}

// ───────────── laws ─────────────

/// A stored hash that checks against a password verifies that password as
/// a direct match; `make(p)` gives such a hash for `p`.
pub proof fn lemma_checked_hash_verifies_plain(stored: Seq<char>, plain: Seq<char>)
    requires
        spec_check(stored, plain),
    ensures
        spec_verify(stored, plain) == VerifyOutcome::Plain,
{
}

/// A row in the legacy shape (the hash of the sha256-hex of the password)
/// never fails for that password: it verifies as `Legacy`, or as `Plain` in
/// the case where it also checks directly.
pub proof fn lemma_legacy_hash_detected(stored: Seq<char>, plain: Seq<char>)
    requires
        spec_check(stored, spec_sha256_hex(plain)),
    ensures
        spec_verify(stored, plain) != VerifyOutcome::Failed,
        spec_verify(stored, plain) == VerifyOutcome::Legacy <==> !spec_check(stored, plain),
{
}

/// A stored hash that checks against neither the password nor its
/// sha256-hex refuses it.
pub proof fn lemma_unrelated_hash_fails(stored: Seq<char>, plain: Seq<char>)
    requires
        !spec_check(stored, plain),
        !spec_check(stored, spec_sha256_hex(plain)),
    ensures
        spec_verify(stored, plain) == VerifyOutcome::Failed,
{
}

} // verus!
