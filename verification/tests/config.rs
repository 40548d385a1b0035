use listaisto::config::{cookie_secure, dsn, or_default, port_or, urlencoding};
use listaisto::mailer::{flag, mailer_settings, TransportKind};

#[test]
fn urlencoding_escapes_reserved_and_utf8() {
    assert_eq!(urlencoding("abc-._~XYZ09"), "abc-._~XYZ09");
    assert_eq!(urlencoding("p@ss wörd"), "p%40ss%20w%C3%B6rd");
    assert_eq!(urlencoding("a/b:c"), "a%2Fb%3Ac");
    assert_eq!(urlencoding("€"), "%E2%82%AC");
    assert_eq!(urlencoding(""), "");
}

#[test]
fn dsn_layout() {
    assert_eq!(
        dsn("root", "p@ss", "db", "3306", "lista_compras"),
        "mysql://root:p%40ss@db:3306/lista_compras"
    );
}

#[test]
fn cookie_flag() {
    assert!(cookie_secure(None));
    assert!(cookie_secure(Some(" TRUE ")));
    assert!(cookie_secure(Some("yes")));
    assert!(cookie_secure(Some("On")));
    assert!(cookie_secure(Some("1")));
    assert!(!cookie_secure(Some("false")));
    assert!(!cookie_secure(Some("0")));
}

#[test]
fn ports_and_defaults() {
    assert_eq!(port_or(None, 8766), 8766);
    assert_eq!(port_or(Some("8080"), 8766), 8080);
    assert_eq!(port_or(Some("70000"), 8766), 8766);
    assert_eq!(port_or(Some("x"), 587), 587);
    assert_eq!(or_default(None, "127.0.0.1"), "127.0.0.1");
    assert_eq!(or_default(Some("db".to_string()), "127.0.0.1"), "db");
}

#[test]
fn mail_settings() {
    assert!(flag(Some("TRUE")));
    assert!(flag(Some("1")));
    assert!(!flag(Some("yes")));
    assert!(!flag(None));

    let s = mailer_settings(None, None, None, None, None, None, None, None);
    assert_eq!(s.backend, "django.core.mail.backends.smtp.EmailBackend");
    assert_eq!(s.from, "ListaIsto <geral@listaisto.pt>");
    assert_eq!(s.host, "localhost");
    assert_eq!(s.port, 587);
    assert!(matches!(s.transport, TransportKind::Plain));
    assert!(s.credentials.is_none());

    let c = mailer_settings(
        Some("django.core.mail.backends.console.EmailBackend".to_string()),
        None, None, None, None, None, Some("true"), None,
    );
    assert!(matches!(c.transport, TransportKind::Console));

    let t = mailer_settings(
        None, None, Some("smtp.x".to_string()), Some("465"), Some("me".to_string()),
        Some("pw".to_string()), Some("1"), Some("true"),
    );
    assert!(matches!(t.transport, TransportKind::Relay));
    assert_eq!(t.port, 465);
    assert_eq!(t.credentials, Some(("me".to_string(), "pw".to_string())));

    let s2 = mailer_settings(None, None, None, None, Some(String::new()), None, None, Some("True"));
    assert!(matches!(s2.transport, TransportKind::StartTls));
    assert!(s2.credentials.is_none());
}

#[test]
fn escaped_password_is_url_safe() {
    let e = urlencoding("p@ss:w/rd #ç€ ~ok");
    assert!(e.chars().all(|c| c.is_ascii_alphanumeric() || "-._~%".contains(c)));
    assert_eq!(dsn("u", "a:b@c/d", "h", "1", "n"), "mysql://u:a%3Ab%40c%2Fd@h:1/n");
}

fn percent_decode(s: &str) -> String {
    let b = s.as_bytes();
    let mut out = Vec::new();
    let mut i = 0;
    while i < b.len() {
        if b[i] == b'%' {
            out.push(u8::from_str_radix(std::str::from_utf8(&b[i + 1..i + 3]).unwrap(), 16).unwrap());
            i += 3;
        } else {
            out.push(b[i]);
            i += 1;
        }
    }
    String::from_utf8(out).unwrap()
}

#[test]
fn escaped_password_decodes_back() {
    for p in ["", "plain", "p@ss:w/rd", "%41", "a%b%%c", "ç€😀 ~-._", "%%%"] {
        assert_eq!(percent_decode(&urlencoding(p)), p);
    }
    assert_ne!(urlencoding("%41"), urlencoding("A"));
}
