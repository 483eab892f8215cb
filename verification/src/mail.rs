//! What the e-mail dispatcher needs before anything is sent, and how a
//! failure of the transport is told to the operator. Sending itself is not
//! done here.

use crate::text::{chars_of, trim, trimmed};
use vstd::prelude::*;

verus! {

/// Why a message could not be sent.
#[derive(Clone, Copy, Debug, PartialEq, Eq, Structural)]
pub enum EmailError {
    /// No sender address is configured.
    MissingFrom,
    /// No mail host is configured.
    MissingHost,
    /// No user name is configured.
    MissingUsername,
    /// No password is configured.
    MissingPassword,
    /// The mail host turned the credentials down.
    Authentication,
    /// The mail host could not be reached.
    Connection,
    /// The secure channel could not be set up.
    Tls,
    /// Any other failure of the transport.
    Unknown,
}

/// The mail settings as they are configured, each of which may be missing.
#[derive(Debug)]
pub struct SmtpConfig {
    pub host: Option<String>,
    pub port: Option<u16>,
    pub username: Option<String>,
    pub password: Option<String>,
    pub from: Option<String>,
}

/// Complete mail settings.
#[derive(Debug)]
pub struct SmtpSettings {
    pub host: String,
    pub port: u16,
    pub username: String,
    pub password: String,
    pub from: String,
}

/// The port that is used where none is configured.
pub const DEFAULT_SMTP_PORT: u16 = 587;

/// What is missing from a configuration, if anything: the sender address is
/// looked for first, then the host, the user name and the password.
pub open spec fn first_missing(config: SmtpConfig) -> Option<EmailError> {
    if config.from is None {
        Some(EmailError::MissingFrom)
    } else if config.host is None {
        Some(EmailError::MissingHost)
    } else if config.username is None {
        Some(EmailError::MissingUsername)
    } else if config.password is None {
        Some(EmailError::MissingPassword)
    } else {
        None
    }
}

/// The port of a configuration: the configured one, else the default.
pub open spec fn port_of(config: SmtpConfig) -> u16 {
    match config.port {
        Some(p) => p,
        None => 587,
    }
}

/// The complete settings of a configuration, or what is missing from it.
pub fn smtp_settings(config: &SmtpConfig) -> (r: Result<SmtpSettings, EmailError>)
    ensures
        match r {
            Ok(s) => {
                &&& first_missing(*config) is None
                &&& s.from@ == config.from->0@
                &&& s.host@ == config.host->0@
                &&& s.username@ == config.username->0@
                &&& s.password@ == config.password->0@
                &&& s.port == port_of(*config)
            },
            Err(e) => first_missing(*config) == Some(e),
        },
{
    let from: String = match &config.from {
        Some(f) => f.clone(),
        None => {
            return Err(EmailError::MissingFrom);
        },
    };
    let host: String = match &config.host {
        Some(h) => h.clone(),
        None => {
            return Err(EmailError::MissingHost);
        },
    };
    let username: String = match &config.username {
        Some(u) => u.clone(),
        None => {
            return Err(EmailError::MissingUsername);
        },
    };
    let password: String = match &config.password {
        Some(p) => p.clone(),
        None => {
            return Err(EmailError::MissingPassword);
        },
    };
    let port: u16 = match config.port {
        Some(p) => p,
        None => DEFAULT_SMTP_PORT,
    };
    Ok(SmtpSettings { host, port, username, password, from })
}

/// Whether `needle` stands in `hay` at position `at`.
pub open spec fn occurs_at(needle: Seq<char>, hay: Seq<char>, at: int) -> bool {
    &&& 0 <= at
    &&& at + needle.len() <= hay.len()
    &&& hay.subrange(at, at + needle.len()) == needle
}

/// Whether `needle` stands somewhere in `hay`.
pub open spec fn occurs_in(needle: Seq<char>, hay: Seq<char>) -> bool {
    exists|at: int| occurs_at(needle, hay, at)
}

/// Whether `needle` stands in `hay` at position `at`.
fn matches_at(needle: &Vec<char>, hay: &Vec<char>, at: usize) -> (yes: bool)
    requires
        at + needle.len() <= hay.len(),
    ensures
        yes == occurs_at(needle@, hay@, at as int),
{
    let mut k: usize = 0;
    while k < needle.len()
        invariant
            k <= needle.len(),
            at + needle.len() <= hay.len(),
            forall|j: int| 0 <= j < k ==> hay@[at + j] == needle@[j],
        decreases needle.len() - k,
    {
        if hay[at + k] != needle[k] {
            assert(hay@.subrange(at as int, at + needle.len())[k as int] != needle@[k as int]);
            return false;
        }
        k += 1;
    }
    assert(hay@.subrange(at as int, at + needle.len()) =~= needle@);
    true
}

/// Whether the text `needle` stands somewhere in the text `hay`.
pub fn contains(hay: &str, needle: &str) -> (found: bool)
    ensures
        found == occurs_in(needle@, hay@),
{
    let h: Vec<char> = chars_of(hay);
    let n: Vec<char> = chars_of(needle);
    if n.len() > h.len() {
        assert(forall|at: int| !occurs_at(needle@, hay@, at));
        return false;
    }
    let last: usize = h.len() - n.len();
    let mut at: usize = 0;
    while at < last
        invariant
            at <= last,
            last == h.len() - n.len(),
            h@ == hay@,
            n@ == needle@,
            forall|j: int| 0 <= j < at ==> !occurs_at(needle@, hay@, j),
        decreases last - at,
    {
        if matches_at(&n, &h, at) {
            return true;
        }
        at += 1;
    }
    if matches_at(&n, &h, last) {
        return true;
    }
    assert(forall|j: int| !occurs_at(needle@, hay@, j));
    false
}

/// How a failure of the transport is classed by what its message says:
/// as a failure of authentication where it says `authentication`, else of
/// the connection where it says `connection`, else of the secure channel
/// where it says `tls`, else as unknown.
pub open spec fn failure_class(message: Seq<char>) -> EmailError {
    if occurs_in("authentication"@, message) {
        EmailError::Authentication
    } else if occurs_in("connection"@, message) {
        EmailError::Connection
    } else if occurs_in("tls"@, message) {
        EmailError::Tls
    } else {
        EmailError::Unknown
    }
}

/// How a failure of the transport is classed by what its message says.
pub fn classify_failure(message: &str) -> (class: EmailError)
    ensures
        class == failure_class(message@),
{
    if contains(message, "authentication") {
        EmailError::Authentication
    } else if contains(message, "connection") {
        EmailError::Connection
    } else if contains(message, "tls") {
        EmailError::Tls
    } else {
        EmailError::Unknown
    }
}

/// What the operator is told about an error.
pub open spec fn advice_for(error: EmailError) -> Seq<char> {
    match error {
        EmailError::MissingFrom => "SMTP configuration incomplete: missing FROM address"@,
        EmailError::MissingHost => "SMTP configuration incomplete: missing HOST"@,
        EmailError::MissingUsername => "SMTP configuration incomplete: missing USERNAME"@,
        EmailError::MissingPassword => "SMTP configuration incomplete: missing PASSWORD"@,
        EmailError::Authentication =>
            "SMTP authentication failed. Please check username and password."@,
        EmailError::Connection => "SMTP connection failed. Please check host and port."@,
        EmailError::Tls => "SMTP TLS/SSL connection failed. Please check security settings."@,
        EmailError::Unknown => "Unknown SMTP error occurred."@,
    }
}

/// What the operator is told about an error.
pub fn advice(error: EmailError) -> (text: String)
    ensures
        text@ == advice_for(error),
{
    match error {
        EmailError::MissingFrom => "SMTP configuration incomplete: missing FROM address".to_owned(),
        EmailError::MissingHost => "SMTP configuration incomplete: missing HOST".to_owned(),
        EmailError::MissingUsername => "SMTP configuration incomplete: missing USERNAME".to_owned(),
        EmailError::MissingPassword => "SMTP configuration incomplete: missing PASSWORD".to_owned(),
        EmailError::Authentication =>
            "SMTP authentication failed. Please check username and password.".to_owned(),
        EmailError::Connection => "SMTP connection failed. Please check host and port.".to_owned(),
        EmailError::Tls =>
            "SMTP TLS/SSL connection failed. Please check security settings.".to_owned(),
        EmailError::Unknown => "Unknown SMTP error occurred.".to_owned(),
    }
}

/// What is wrong with a message that is to be sent.
#[derive(Clone, Copy, Debug, PartialEq, Eq, Structural)]
pub enum MessageProblem {
    /// The address is blank or holds no `@`.
    InvalidAddress,
    /// The subject is blank.
    EmptySubject,
    /// The body is blank.
    EmptyBody,
}

/// What is wrong with a message, if anything: the address is looked at
/// first, then the subject, then the body.
pub open spec fn message_problem_of(to: Seq<char>, subject: Seq<char>, body: Seq<char>) -> Option<
    MessageProblem,
> {
    if trimmed(to).len() == 0 || !occurs_in("@"@, to) {
        Some(MessageProblem::InvalidAddress)
    } else if trimmed(subject).len() == 0 {
        Some(MessageProblem::EmptySubject)
    } else if trimmed(body).len() == 0 {
        Some(MessageProblem::EmptyBody)
    } else {
        None
    }
}

/// Whether a text is empty or made of white space only.
pub fn blank(text: &str) -> (yes: bool)
    ensures
        yes == (trimmed(text@).len() == 0),
{
    trim(text).as_str().is_empty()
}

/// What is wrong with a message that is to be sent, if anything.
pub fn message_problem(to: &str, subject: &str, body: &str) -> (r: Option<MessageProblem>)
    ensures
        r == message_problem_of(to@, subject@, body@),
{
    if blank(to) || !contains(to, "@") {
        Some(MessageProblem::InvalidAddress)
    } else if blank(subject) {
        Some(MessageProblem::EmptySubject)
    } else if blank(body) {
        Some(MessageProblem::EmptyBody)
    } else {
        None
    }
}

/// What the sender is told about a problem with a message.
pub open spec fn problem_text_of(problem: MessageProblem) -> Seq<char> {
    match problem {
        MessageProblem::InvalidAddress => "Invalid email address"@,
        MessageProblem::EmptySubject => "Subject cannot be empty"@,
        MessageProblem::EmptyBody => "Body cannot be empty"@,
    }
}

/// What the sender is told about a problem with a message.
pub fn problem_text(problem: MessageProblem) -> (text: String)
    ensures
        text@ == problem_text_of(problem),
{
    match problem {
        MessageProblem::InvalidAddress => "Invalid email address".to_owned(),
        MessageProblem::EmptySubject => "Subject cannot be empty".to_owned(),
        MessageProblem::EmptyBody => "Body cannot be empty".to_owned(),
    }
}

} // verus!
