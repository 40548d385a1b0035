//! How outgoing mail is configured from the environment.
use vstd::prelude::*;

use crate::config::{or_default, parse_u16, port_or};
use crate::text::{chars_of, contains_chars, contains_seq, eq_ignore_ascii_case, eq_ignore_ascii_case_chars, str_eq};

verus! {

broadcast use vstd::string::group_string_axioms;

/// How mail leaves the server.
pub enum TransportKind {
    /// Mail is only logged.
    Console,
    /// SMTP over TLS from the first byte.
    Relay,
    /// SMTP upgraded with STARTTLS.
    StartTls,
    /// Plain SMTP.
    Plain,
}

/// The mail settings, with defaults filled in.
pub struct MailerSettings {
    pub backend: String,
    pub from: String,
    pub transport: TransportKind,
    pub host: String,
    pub port: u16,
    /// User and password, when a user is set.
    pub credentials: Option<(String, String)>,
}

/// A boolean setting: `true` in any ASCII case, or `1`; unset is off.
pub open spec fn spec_flag(value: Option<Seq<char>>) -> bool {
    match value {
        Some(v) => eq_ignore_ascii_case(v, "true"@) || v == "1"@,
        None => false,
    }
}

pub fn flag(value: Option<&str>) -> (r: bool)
    ensures
        r == spec_flag(match value { Some(v) => Some(v@), None => None }),
{
    match value {
        Some(v) => {
            let c = chars_of(v);
            let t = chars_of("true");
            eq_ignore_ascii_case_chars(c.as_slice(), t.as_slice()) || str_eq(v, "1")
        },
        None => false,
    }
}

pub open spec fn view_opt(v: Option<String>) -> Option<Seq<char>> {
    match v {
        Some(s) => Some(s@),
        None => None,
    }
}

/// The transport a configuration selects: the console when the backend
/// names it, else TLS when `use_ssl`, STARTTLS when `use_tls`, else plain.
pub open spec fn spec_transport(backend: Seq<char>, use_ssl: bool, use_tls: bool) -> TransportKind {
    if contains_seq(backend, "console"@) {
        TransportKind::Console
    } else if use_ssl {
        TransportKind::Relay
    } else if use_tls {
        TransportKind::StartTls
    } else {
        TransportKind::Plain
    }
}

/// Settles the mail settings from the raw environment values.
/// The console backend never connects; otherwise `EMAIL_USE_SSL` gives SMTP
/// over TLS (`Relay`) whatever `EMAIL_USE_TLS` says, `EMAIL_USE_TLS` alone
/// gives STARTTLS, and neither gives a plain connection.
pub proof fn lemma_transport_choice(backend: Seq<char>, use_ssl: bool, use_tls: bool)
    ensures
        contains_seq(backend, "console"@) ==> spec_transport(backend, use_ssl, use_tls) is Console,
        !contains_seq(backend, "console"@) && use_ssl ==> spec_transport(backend, use_ssl, use_tls) is Relay,
        !contains_seq(backend, "console"@) && !use_ssl && use_tls ==> spec_transport(backend, use_ssl, use_tls) is StartTls,
        !contains_seq(backend, "console"@) && !use_ssl && !use_tls ==> spec_transport(backend, use_ssl, use_tls) is Plain,
{
}

/// A flag setting is on when it is `true` in any ASCII case or `1`, and off
/// when unset.
pub proof fn lemma_flag_values(v: Seq<char>)
    ensures
        spec_flag(Some(v)) <==> (eq_ignore_ascii_case(v, "true"@) || v == "1"@),
        !spec_flag(None),
{
}

pub fn mailer_settings(
    backend: Option<String>,
    from: Option<String>,
    host: Option<String>,
    port: Option<&str>,
    user: Option<String>,
    pass: Option<String>,
    use_ssl: Option<&str>,
    use_tls: Option<&str>,
) -> (r: MailerSettings)
    ensures
        r.backend@ == match view_opt(backend) { Some(b) => b, None => "django.core.mail.backends.smtp.EmailBackend"@ },
        r.from@ == match view_opt(from) { Some(f) => f, None => "ListaIsto <geral@listaisto.pt>"@ },
        r.transport == spec_transport(r.backend@, spec_flag(match use_ssl { Some(v) => Some(v@), None => None }),
            spec_flag(match use_tls { Some(v) => Some(v@), None => None })),
        !contains_seq(r.backend@, "console"@) && spec_flag(match use_ssl { Some(v) => Some(v@), None => None })
            ==> r.transport is Relay,
        !contains_seq(r.backend@, "console"@) && !spec_flag(match use_ssl { Some(v) => Some(v@), None => None })
            && spec_flag(match use_tls { Some(v) => Some(v@), None => None }) ==> r.transport is StartTls,
        !contains_seq(r.backend@, "console"@) && !spec_flag(match use_ssl { Some(v) => Some(v@), None => None })
            && !spec_flag(match use_tls { Some(v) => Some(v@), None => None }) ==> r.transport is Plain,
        contains_seq(r.backend@, "console"@) ==> r.transport is Console,
        r.host@ == match view_opt(host) { Some(h) => h, None => "localhost"@ },
        r.port == match port { Some(p) => match parse_u16(p@) { Some(n) => n, None => 587 }, None => 587 },
        match r.credentials {
            Some((u, p)) => view_opt(user) == Some(u@) && u@.len() > 0
                && p@ == match view_opt(pass) { Some(x) => x, None => Seq::<char>::empty() },
            None => match view_opt(user) { Some(u) => u.len() == 0, None => true },
        },
{
    let backend = or_default(backend, "django.core.mail.backends.smtp.EmailBackend");
    let from = or_default(from, "ListaIsto <geral@listaisto.pt>");
    let host = or_default(host, "localhost");
    let port = port_or(port, 587);
    let ssl = flag(use_ssl);
    let tls = flag(use_tls);
    let b = chars_of(backend.as_str());
    let console = chars_of("console");
    let transport = if contains_chars(b.as_slice(), console.as_slice()) {
        TransportKind::Console
    } else if ssl {
        TransportKind::Relay
    } else if tls {
        TransportKind::StartTls
    } else {
        TransportKind::Plain
    };
    let user = or_default(user, "");
    let pass = or_default(pass, "");
    let credentials = if user.as_str().is_empty() { None } else { Some((user, pass)) };
    proof {
        reveal_strlit("");
    }
    MailerSettings { backend, from, transport, host, port, credentials }
}

} // verus!
