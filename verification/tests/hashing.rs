use listaisto::hashing::{
    constant_time_eq, make, make_with_salt, pbkdf2_sha256, sha256_hex, verify, splitn_chars, VerifyOutcome,
};

#[test]
fn roundtrip() {
    let h = make("hunter2");
    assert!(matches!(verify(&h, "hunter2"), VerifyOutcome::Plain));
    assert!(matches!(verify(&h, "wrong"), VerifyOutcome::Failed));
}

#[test]
fn detects_legacy_double_hash() {
    // Produce a row in the old shape: pbkdf2(sha256(plain)).
    let plain = "secret";
    let derived = sha256_hex(plain);
    let stored = make(&derived);
    match verify(&stored, plain) {
        VerifyOutcome::Legacy => {}
        other => panic!("expected Legacy, got {:?}", match other {
            VerifyOutcome::Plain => "Plain",
            VerifyOutcome::Legacy => "Legacy",
            VerifyOutcome::Failed => "Failed",
        }),
    }
}

#[test]
fn sha256_hex_known_value() {
    assert_eq!(
        sha256_hex("secret"),
        "2bb80d537b1da3e38bd30361aa855686bde0eacd7162fef6a25fe97bf527a25b"
    );
}

#[test]
fn make_with_salt_writes_django_format() {
    let h = make_with_salt("hunter2", "abcdefghijklmnopqrstuv");
    assert_eq!(
        h,
        "pbkdf2_sha256$600000$abcdefghijklmnopqrstuv$nsFDQ93Pq4tYO0KnnIGXG7tPR4nUdZgqty3nPH8F6oQ="
    );
}

#[test]
fn make_uses_fresh_alphanumeric_salt() {
    let a = make("pw");
    let b = make("pw");
    assert_ne!(a, b);
    let parts: Vec<&str> = a.split('$').collect();
    assert_eq!(parts.len(), 4);
    assert!(parts[3].chars().all(|c| c.is_ascii_alphanumeric() || "+/=".contains(c)));
    assert_eq!(parts[3].len(), 44);
    assert_eq!(parts[0], "pbkdf2_sha256");
    assert_eq!(parts[1], "600000");
    assert_eq!(parts[2].len(), 22);
    assert!(parts[2].chars().all(|c| c.is_ascii_alphanumeric()));
}

#[test]
fn verify_accepts_stored_iteration_count() {
    // One iteration, as an older row could carry.
    let stored = "pbkdf2_sha256$1$salt$b0rYx47DZcBg5kjraU7kDepYSEsDcfvWFxWsRBC3OAo=";
    assert!(matches!(verify(stored, "pw"), VerifyOutcome::Plain));
    assert!(matches!(verify(stored, "pW"), VerifyOutcome::Failed));
    // A leading plus sign is accepted by the integer parse.
    let plus = "pbkdf2_sha256$+1$salt$b0rYx47DZcBg5kjraU7kDepYSEsDcfvWFxWsRBC3OAo=";
    assert!(matches!(verify(plus, "pw"), VerifyOutcome::Plain));
}

#[test]
fn verify_legacy_row_with_low_iterations() {
    let stored = "pbkdf2_sha256$2$NaCl$gRGcBEc1qGs0KsijK6CN6LaFQZWszmYEr1ox5JOFCps=";
    assert!(matches!(verify(stored, "old"), VerifyOutcome::Legacy));
    let hex = "cba06b5736faf67e54b07b561eae94395e774c517a7d910a54369e1263ccfbd4";
    assert!(matches!(verify(stored, hex), VerifyOutcome::Plain));
}

#[test]
fn verify_rejects_malformed_rows() {
    assert!(matches!(verify("", "pw"), VerifyOutcome::Failed));
    assert!(matches!(verify("md5$1$salt$abc", "pw"), VerifyOutcome::Failed));
    assert!(matches!(verify("pbkdf2_sha256$x$salt$b0rYx47DZcBg5kjraU7kDepYSEsDcfvWFxWsRBC3OAo=", "pw"), VerifyOutcome::Failed));
    assert!(matches!(verify("pbkdf2_sha256$-1$salt$b0rYx47DZcBg5kjraU7kDepYSEsDcfvWFxWsRBC3OAo=", "pw"), VerifyOutcome::Failed));
    assert!(matches!(verify("pbkdf2_sha256$1$salt$not base64!", "pw"), VerifyOutcome::Failed));
    assert!(matches!(verify("pbkdf2_sha256$1$salt", "pw"), VerifyOutcome::Failed));
}

#[test]
fn constant_time_eq_cases() {
    assert!(constant_time_eq(&[], &[]));
    assert!(constant_time_eq(&[1, 2, 3], &[1, 2, 3]));
    assert!(!constant_time_eq(&[1, 2, 3], &[1, 2, 4]));
    assert!(!constant_time_eq(&[1, 2], &[1, 2, 3]));
}

#[test]
fn pbkdf2_known_vector() {
    let out = pbkdf2_sha256(b"pw", b"salt", 1);
    assert_eq!(out.len(), 32);
    assert_eq!(out[0], 0x6f);
}

#[test]
fn splitn_keeps_rest_in_last_piece() {
    let s: Vec<char> = "a$b$c$d$e".chars().collect();
    let parts = splitn_chars(&s, 4, '$');
    let parts: Vec<String> = parts.iter().map(|p| p.iter().collect()).collect();
    assert_eq!(parts, vec!["a", "b", "c", "d$e"]);
    let empty = splitn_chars(&[], 4, '$');
    assert_eq!(empty.len(), 1);
    assert!(empty[0].is_empty());
}
