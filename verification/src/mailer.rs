//! Sending authentication e-mail through Resend: configuration checks, the
//! message body, and the idempotency key each message is sent with.
use vstd::prelude::*;
use vstd::utf8::encode_utf8;
use sha2::Digest;

use crate::hexcode::{encode_hex, hex_encoded};
use crate::text::{concat, decimal_string, decimal_text, extend_bytes, trim, trim_seq};

verus! {

/// Resend's endpoint for sending e-mail.
pub const RESEND_EMAILS_URL: &'static str = "https://api.resend.com/emails";

/// An HTTP client used to reach the provider.
#[verifier::external_type_specification]
#[verifier::external_body]
pub struct ExHttpClient(reqwest::Client);

/// Why the mailer could not be configured.
#[derive(Clone, Copy, Debug, PartialEq, Eq)]
pub enum MailerConfigError {
    MissingApiKey,
    MissingFrom,
    InvalidHeaderValue(&'static str),
    Client,
}

impl MailerConfigError {
    /// The message shown for this error.
    pub open spec fn spec_message(&self) -> Seq<char> {
        match self {
            MailerConfigError::MissingApiKey => "RESEND_API_KEY is required outside Dev/Test"@,
            MailerConfigError::MissingFrom => "RESEND_FROM_EMAIL is required when Resend is enabled"@,
            MailerConfigError::InvalidHeaderValue(name) => name@ + " contains invalid newline characters"@,
            MailerConfigError::Client => "failed to initialize the Resend HTTP client"@,
        }
    }

    /// The message shown for this error.
    pub fn message(&self) -> (r: String)
        ensures
            r@ == self.spec_message(),
    {
        match self {
            MailerConfigError::MissingApiKey => "RESEND_API_KEY is required outside Dev/Test".to_string(),
            MailerConfigError::MissingFrom => "RESEND_FROM_EMAIL is required when Resend is enabled".to_string(),
            MailerConfigError::InvalidHeaderValue(name) => concat(name, " contains invalid newline characters"),
            MailerConfigError::Client => "failed to initialize the Resend HTTP client".to_string(),
        }
    }
}

/// Whether `value` holds a carriage return or a line feed.
pub open spec fn has_line_break(value: Seq<char>) -> bool {
    exists|i: int| 0 <= i < value.len() && (value[i] == '\r' || value[i] == '\n')
}

/// A header value may not hold a line break; `name` names the setting it came from.
pub fn validate_header_value(name: &'static str, value: &str) -> (r: Result<(), MailerConfigError>)
    ensures
        r == (if has_line_break(value@) {
            Err::<(), MailerConfigError>(MailerConfigError::InvalidHeaderValue(name))
        } else {
            Ok::<(), MailerConfigError>(())
        }),
{
    let chars = crate::text::chars_of(value);
    let mut i: usize = 0;
    while i < chars.len()
        invariant
            i <= chars@.len(),
            chars@ == value@,
            forall|j: int| 0 <= j < i ==> !(value@[j] == '\r' || value@[j] == '\n'),
        decreases chars@.len() - i,
    {
        if chars[i] == '\r' || chars[i] == '\n' {
            return Err(MailerConfigError::InvalidHeaderValue(name));
        }
        i = i + 1;
    }
    Ok(())
}

/// A setting's value trimmed of surrounding white space, or nothing when unset or
/// blank.
pub fn nonempty_setting(raw: Option<String>) -> (r: Option<String>)
    ensures
        match raw {
            None => r is None,
            Some(v) => if trim_seq(v@).len() == 0 { r is None } else { r matches Some(t) && t@ == trim_seq(v@) },
        },
{
    match raw {
        None => None,
        Some(v) => {
            let t = trim(v.as_str());
            if t.unicode_len() == 0 {
                None
            } else {
                Some(t.to_string())
            }
        },
    }
}

/// How long, in seconds, a request to Resend may take before it is abandoned.
pub const RESEND_TIMEOUT_SECS: u64 = 10u64;

/// `reqwest::Client::builder().timeout(Duration::from_secs(timeout_secs)).build()`;
/// `None` when the client cannot be built. Whether it can depends on the machine,
/// and the client is opaque, so nothing is stated of the result.
#[verifier::external_body]
fn build_http_client(timeout_secs: u64) -> (r: Option<reqwest::Client>) {
    reqwest::Client::builder().timeout(std::time::Duration::from_secs(timeout_secs)).build().ok()
}

/// A Resend mailer: the client and the request timeout it was built with, the API
/// key, the sender, the optional reply-to address, and the endpoint.
pub struct ResendMailer {
    client: reqwest::Client,
    timeout_secs: u64,
    api_key: String,
    from: String,
    reply_to: Option<String>,
    endpoint: String,
}

/// Which authentication flow an e-mail belongs to, with that flow's data.
#[derive(Clone, Debug, PartialEq, Eq)]
pub enum MailKind {
    EmailVerification { code: String },
    PasswordReset { reset_url: String },
    Other,
}

/// An authentication e-mail to send.
#[derive(Clone, Debug, PartialEq, Eq)]
pub struct OutgoingMail {
    pub to: String,
    pub username: String,
    pub kind: MailKind,
    pub subject: String,
    pub html: String,
    pub text: String,
}

/// The JSON body Resend receives for one e-mail; `reply_to` is left out when
/// absent.
#[derive(Clone, Debug, PartialEq, Eq)]
pub struct ResendEmail {
    pub from: String,
    pub to: Vec<String>,
    pub subject: String,
    pub html: String,
    pub text: String,
    pub reply_to: Option<String>,
}

/// The optional string's characters.
pub open spec fn opt_chars(s: Option<String>) -> Option<Seq<char>> {
    match s {
        Some(v) => Some(v@),
        None => None,
    }
}

impl ResendMailer {
    /// The API key.
    pub closed spec fn api_key(self) -> Seq<char> {
        self.api_key@
    }

    /// The sender address.
    pub closed spec fn sender(self) -> Seq<char> {
        self.from@
    }

    /// The reply-to address.
    pub closed spec fn reply_address(self) -> Option<Seq<char>> {
        opt_chars(self.reply_to)
    }

    /// The endpoint.
    pub closed spec fn endpoint_url(self) -> Seq<char> {
        self.endpoint@
    }

    /// The request timeout, in seconds, the mailer's client was built with.
    pub closed spec fn timeout(self) -> u64 {
        self.timeout_secs
    }

    /// The HTTP client the mailer holds.
    pub closed spec fn http_client(self) -> reqwest::Client {
        self.client
    }

    /// The mailer for the configured values. With no API key: refused as
    /// `MissingApiKey` when a mailer is required or when a sender or reply-to
    /// address is set without it (a partial configuration fails in every
    /// environment), else no mailer. With a key but no sender, `MissingFrom`;
    /// otherwise as `new` builds it.
    pub fn from_config(
        required: bool,
        api_key: Option<String>,
        from: Option<String>,
        reply_to: Option<String>,
    ) -> (r: Result<Option<Self>, MailerConfigError>)
        ensures
            api_key is None && (required || from is Some || reply_to is Some)
                ==> r == Err::<Option<Self>, MailerConfigError>(MailerConfigError::MissingApiKey),
            api_key is None && !required && from is None && reply_to is None ==> r matches Ok(None),
            api_key is Some && from is None ==> r == Err::<Option<Self>, MailerConfigError>(MailerConfigError::MissingFrom),
            api_key is Some && from is Some ==> Self::new_outcome(api_key->0@, from->0@, opt_chars(reply_to), r),
    {
        let api_key = match api_key {
            Some(k) => k,
            None => {
                return if required || from.is_some() || reply_to.is_some() {
                    Err(MailerConfigError::MissingApiKey)
                } else {
                    Ok(None)
                };
            },
        };
        let from = match from {
            Some(f) => f,
            None => return Err(MailerConfigError::MissingFrom),
        };
        match Self::new(api_key, from, reply_to) {
            Ok(m) => Ok(Some(m)),
            Err(e) => Err(e),
        }
    }

    /// What `from_config` returns for a key and a sender.
    pub open spec fn new_outcome(
        api_key: Seq<char>,
        from: Seq<char>,
        reply_to: Option<Seq<char>>,
        r: Result<Option<Self>, MailerConfigError>,
    ) -> bool {
        if has_line_break(api_key) {
            r matches Err(MailerConfigError::InvalidHeaderValue(n)) && n@ == "RESEND_API_KEY"@
        } else if has_line_break(from) {
            r matches Err(MailerConfigError::InvalidHeaderValue(n)) && n@ == "RESEND_FROM_EMAIL"@
        } else if reply_to matches Some(t) && has_line_break(t) {
            r matches Err(MailerConfigError::InvalidHeaderValue(n)) && n@ == "RESEND_REPLY_TO"@
        } else {
            r == Err::<Option<Self>, MailerConfigError>(MailerConfigError::Client) || (r matches Ok(Some(m)) && {
                &&& m.api_key() == api_key
                &&& m.sender() == from
                &&& m.reply_address() == reply_to
                &&& m.endpoint_url() == RESEND_EMAILS_URL@
                &&& m.timeout() == RESEND_TIMEOUT_SECS
            })
        }
    }

    /// A mailer sending as `from` with `api_key`: refused when the key, the sender
    /// or the reply-to address holds a line break (checked in that order), or when
    /// the HTTP client, with a `RESEND_TIMEOUT_SECS` request timeout, cannot be
    /// built.
    pub fn new(api_key: String, from: String, reply_to: Option<String>) -> (r: Result<Self, MailerConfigError>)
        ensures
            Self::new_outcome(api_key@, from@, opt_chars(reply_to), match r { Ok(m) => Ok(Some(m)), Err(e) => Err(e) }),
    {
        if let Err(e) = validate_header_value("RESEND_API_KEY", api_key.as_str()) {
            return Err(e);
        }
        if let Err(e) = validate_header_value("RESEND_FROM_EMAIL", from.as_str()) {
            return Err(e);
        }
        if let Some(t) = &reply_to {
            if let Err(e) = validate_header_value("RESEND_REPLY_TO", t.as_str()) {
                return Err(e);
            }
        }
        let timeout_secs = RESEND_TIMEOUT_SECS;
        let client = match build_http_client(timeout_secs) {
            Some(c) => c,
            None => return Err(MailerConfigError::Client),
        };
        Ok(ResendMailer { client, timeout_secs, api_key, from, reply_to, endpoint: RESEND_EMAILS_URL.to_string() })
    }

    /// The request timeout, in seconds, of the mailer's client.
    pub fn timeout_secs(&self) -> (r: u64)
        ensures
            r == self.timeout(),
    {
        self.timeout_secs
    }

    /// The client the mailer sends with: the one it holds, built when the mailer
    /// was made.
    pub fn client(&self) -> (r: &reqwest::Client)
        ensures
            *r == self.http_client(),
    {
        &self.client
    }

    /// The API key the mailer authenticates with.
    pub fn api_key_text(&self) -> (r: &str)
        ensures
            r@ == self.api_key(),
    {
        self.api_key.as_str()
    }

    /// The endpoint the mailer posts to.
    pub fn endpoint(&self) -> (r: &str)
        ensures
            r@ == self.endpoint_url(),
    {
        self.endpoint.as_str()
    }

    /// The mailer described for logs, with the API key redacted:
    /// `ResendMailer { api_key: "<redacted>", from: …, reply_to: …, endpoint: …, .. }`,
    /// each value quoted as `Debug` quotes it.
    pub fn debug_text(&self) -> (r: String)
        ensures
            r@ == "ResendMailer { api_key: \"<redacted>\", from: "@ + debug_escaped(self.sender())
                + ", reply_to: "@ + match self.reply_address() {
                    Some(t) => "Some("@ + debug_escaped(t) + ")"@,
                    None => "None"@,
                }
                + ", endpoint: "@ + debug_escaped(self.endpoint_url()) + ", .. }"@,
    {
        let text = concat("ResendMailer { api_key: \"<redacted>\", from: ", debug_quoted(self.from.as_str()).as_str());
        let text = concat(text.as_str(), ", reply_to: ");
        let text = match &self.reply_to {
            Some(t) => {
                let inner = concat("Some(", debug_quoted(t.as_str()).as_str());
                let inner = concat(inner.as_str(), ")");
                concat(text.as_str(), inner.as_str())
            },
            None => concat(text.as_str(), "None"),
        };
        let text = concat(text.as_str(), ", endpoint: ");
        let text = concat(text.as_str(), debug_quoted(self.endpoint.as_str()).as_str());
        concat(text.as_str(), ", .. }")
    }

    /// The body sent for `mail`: the mailer's sender and reply-to address, the
    /// mail's recipient as the only one, and its subject, HTML and text bodies.
    pub fn payload(&self, mail: &OutgoingMail) -> (r: ResendEmail)
        ensures
            r.from@ == self.sender(),
            r.to@.len() == 1 && r.to@[0]@ == mail.to@,
            r.subject@ == mail.subject@,
            r.html@ == mail.html@,
            r.text@ == mail.text@,
            opt_chars(r.reply_to) == self.reply_address(),
    {
        ResendEmail {
            from: self.from.clone(),
            to: vec![mail.to.clone()],
            subject: mail.subject.clone(),
            html: mail.html.clone(),
            text: mail.text.clone(),
            reply_to: match &self.reply_to {
                Some(t) => Some(t.clone()),
                None => None,
            },
        }
    }
}

/// The text `Debug` formats for the string `s`: quoted, with escapes.
pub uninterp spec fn debug_escaped(s: Seq<char>) -> Seq<char>;

/// `format!("{:?}", s)` for a string.
#[verifier::external_body]
fn debug_quoted(s: &str) -> (r: String)
    ensures
        r@ == debug_escaped(s@),
{
    format!("{:?}", s)
}

/// The SHA-256 digest of `data`.
pub uninterp spec fn sha256_digest(data: Seq<u8>) -> Seq<u8>;

/// `Sha256::digest`: the 32-byte SHA-256 digest of `data`.
#[verifier::external_body]
fn sha256(data: &[u8]) -> (r: Vec<u8>)
    ensures
        r@ == sha256_digest(data@),
        r@.len() == 32,
{
    sha2::Sha256::digest(data).to_vec()
}

/// The flow's name in an idempotency key.
pub open spec fn kind_label(kind: MailKind) -> Seq<char> {
    match kind {
        MailKind::EmailVerification { .. } => "verify"@,
        MailKind::PasswordReset { .. } => "reset"@,
        MailKind::Other => "auth"@,
    }
}

/// The bytes an idempotency key hashes: the recipient, a zero byte, then the
/// verification code, the reset link, or for any other flow the subject and the
/// text body.
pub open spec fn key_material(mail: OutgoingMail) -> Seq<u8> {
    encode_utf8(mail.to@) + seq![0u8] + match mail.kind {
        MailKind::EmailVerification { code } => encode_utf8(code@),
        MailKind::PasswordReset { reset_url } => encode_utf8(reset_url@),
        MailKind::Other => encode_utf8(mail.subject@) + encode_utf8(mail.text@),
    }
}

/// The idempotency key for a flow's label and a digest:
/// `turfzone-<label>-<digest in lower-case hex>`.
pub open spec fn key_text(label: Seq<char>, digest: Seq<u8>) -> Seq<char> {
    "turfzone-"@ + label + "-"@ + hex_encoded(digest)
}

/// The idempotency key for a digest already computed.
pub fn idempotency_key_from_digest(kind: &MailKind, digest: &[u8]) -> (r: String)
    ensures
        r@ == key_text(kind_label(*kind), digest@),
{
    let label = match kind {
        MailKind::EmailVerification { .. } => "verify",
        MailKind::PasswordReset { .. } => "reset",
        MailKind::Other => "auth",
    };
    let head = concat("turfzone-", label);
    let head = concat(head.as_str(), "-");
    let hex = encode_hex(digest);
    concat(head.as_str(), hex.as_str())
}

/// The key Resend deduplicates a message by: the flow's label and the SHA-256 of
/// `key_material`, so the same message always gets the same key.
pub fn idempotency_key(mail: &OutgoingMail) -> (r: String)
    ensures
        r@ == key_text(kind_label(mail.kind), sha256_digest(key_material(*mail))),
        r@.len() == 10 + kind_label(mail.kind).len() + 64,
        r@.len() <= 256,
{
    let mut data: Vec<u8> = Vec::new();
    extend_bytes(&mut data, mail.to.as_str().as_bytes());
    data.push(0u8);
    match &mail.kind {
        MailKind::EmailVerification { code } => extend_bytes(&mut data, code.as_str().as_bytes()),
        MailKind::PasswordReset { reset_url } => extend_bytes(&mut data, reset_url.as_str().as_bytes()),
        MailKind::Other => {
            extend_bytes(&mut data, mail.subject.as_str().as_bytes());
            extend_bytes(&mut data, mail.text.as_str().as_bytes());
        },
    }
    proof {
        let tail = match &mail.kind {
            MailKind::EmailVerification { code } => encode_utf8(code@),
            MailKind::PasswordReset { reset_url } => encode_utf8(reset_url@),
            MailKind::Other => encode_utf8(mail.subject@) + encode_utf8(mail.text@),
        };
        assert(data@ =~= encode_utf8(mail.to@) + seq![0u8] + tail);
    }
    let digest = sha256(data.as_slice());
    let key = idempotency_key_from_digest(&mail.kind, digest.as_slice());
    proof {
        reveal_strlit("turfzone-");
        reveal_strlit("-");
        lemma_idempotency_key_fits(mail.kind, digest@);
    }
    key
}

/// Every idempotency key fits Resend's 256-character limit.
pub proof fn lemma_idempotency_key_fits(kind: MailKind, digest: Seq<u8>)
    requires
        digest.len() == 32,
    ensures
        key_text(kind_label(kind), digest).len() <= 256,
{
    reveal_strlit("turfzone-");
    reveal_strlit("-");
    reveal_strlit("verify");
    reveal_strlit("reset");
    reveal_strlit("auth");
}

/// The message a rejection by the provider carries: only the HTTP status, never
/// the response body.
pub fn provider_rejection_message(status: u16) -> (r: String)
    ensures
        r@ == "email provider rejected request with status "@ + decimal_text(status as nat),
{
    let digits = decimal_string(status as u64);
    concat("email provider rejected request with status ", digits.as_str())
}

/// Two texts with the same UTF-8 bytes are the same text.
proof fn lemma_utf8_injective(a: Seq<char>, b: Seq<char>)
    requires
        encode_utf8(a) == encode_utf8(b),
    ensures
        a == b,
{
    vstd::utf8::encode_utf8_decode_utf8(a);
    vstd::utf8::encode_utf8_decode_utf8(b);
}

/// The bytes a verification mail's key is made from: the recipient's UTF-8
/// bytes, a zero byte, then exactly the code's UTF-8 bytes.
pub proof fn lemma_verification_key_material_holds_the_code(mail: OutgoingMail)
    requires
        mail.kind is EmailVerification,
    ensures
        ({
            let m = key_material(mail);
            let n = encode_utf8(mail.to@).len();
            &&& m.take(n as int) == encode_utf8(mail.to@)
            &&& m[n as int] == 0u8
            &&& m.skip((n + 1) as int) == encode_utf8(mail.kind->code@)
        }),
{
    let m = key_material(mail);
    let n = encode_utf8(mail.to@).len();
    assert(m.take(n as int) =~= encode_utf8(mail.to@));
    assert(m.skip((n + 1) as int) =~= encode_utf8(mail.kind->code@));
}

/// A new verification code for the same recipient gives new key material, so a
/// resent code is never taken for the earlier mail; likewise a new reset link.
pub proof fn lemma_new_secret_gives_new_key_material(first: OutgoingMail, second: OutgoingMail)
    requires
        first.to@ == second.to@,
        (first.kind matches MailKind::EmailVerification { code: a } && second.kind matches MailKind::EmailVerification { code: b } && a@ != b@)
            || (first.kind matches MailKind::PasswordReset { reset_url: a } && second.kind matches MailKind::PasswordReset { reset_url: b } && a@ != b@),
    ensures
        key_material(first) != key_material(second),
{
    let n: int = (encode_utf8(first.to@).len() + 1) as int;
    let prefix = encode_utf8(first.to@) + seq![0u8];
    let (a, b) = match (first.kind, second.kind) {
        (MailKind::EmailVerification { code: a }, MailKind::EmailVerification { code: b }) => (a@, b@),
        (MailKind::PasswordReset { reset_url: a }, MailKind::PasswordReset { reset_url: b }) => (a@, b@),
        _ => (Seq::<char>::empty(), Seq::<char>::empty()),
    };
    assert(key_material(first) == prefix + encode_utf8(a));
    assert(key_material(second) == prefix + encode_utf8(b));
    if key_material(first) == key_material(second) {
        assert((prefix + encode_utf8(a)).skip(n) =~= encode_utf8(a));
        assert((prefix + encode_utf8(b)).skip(n) =~= encode_utf8(b));
        lemma_utf8_injective(a, b);
    }
}

} // verus!

