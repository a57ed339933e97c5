//! The client's configuration and the parts of each remote call that decide:
//! the URL, the authorization header, and whether a response is a success.
//! Sending the request is left to the caller.
use vstd::prelude::*;
use vstd::string::StringSliceAdditionalSpecFns;
use crate::formatters::text_or;
use crate::text::{contains, decimal, decimal_string, trim_end_slashes, trim_trailing_slashes};

verus! {

/// The standard, padded base64 encoding of `bytes`.
pub uninterp spec fn base64_standard(bytes: Seq<u8>) -> Seq<char>;

/// The reason phrase that HTTP registers for a status code, if any.
pub uninterp spec fn canonical_reason_of(code: u16) -> Option<Seq<char>>;

/// `reason` is the registered reason phrase of `code`, or none when there is none.
pub open spec fn is_canonical_reason(reason: Option<String>, code: u16) -> bool {
    match reason {
        Some(s) => canonical_reason_of(code) == Some(s@),
        None => canonical_reason_of(code) is None,
    }
}

/// Relies on base64's `STANDARD.encode`: the padded base64 text of the bytes.
/// It panics when the encoded length overflows `usize`, which the bound rules out.
#[verifier::external_body]
fn encode_base64(bytes: &[u8]) -> (r: String)
    requires
        bytes@.len() <= usize::MAX / 2,
    ensures
        r@ == base64_standard(bytes@),
{
    base64::Engine::encode(&base64::engine::general_purpose::STANDARD, bytes)
}

/// Relies on `reqwest::StatusCode::canonical_reason`: the registered reason
/// phrase of a status code; none for a code outside 100 to 999.
#[verifier::external_body]
fn status_reason(code: u16) -> (r: Option<String>)
    ensures
        match r {
            Some(s) => canonical_reason_of(code) == Some(s@),
            None => canonical_reason_of(code) is None,
        },
{
    match reqwest::StatusCode::from_u16(code) {
        Ok(s) => s.canonical_reason().map(String::from),
        Err(_) => None,
    }
}

/// The bytes of `account:token`, which Basic authorization encodes.
pub open spec fn credential_bytes(account: &str, token: &str) -> Seq<u8> {
    account.spec_bytes() + seq![58u8] + token.spec_bytes()
}

/// The path under the service's base URL where its API lives.
pub open spec fn api_root() -> Seq<char> {
    "/wiki/api/v2"@
}

/// The configuration shared by every call: the service's base URL, without
/// trailing slashes, and the precomputed authorization header value.
pub struct ConfluenceClient {
    pub base_url: String,
    pub auth_header: String,
}

/// The status codes that mean success.
pub open spec fn is_success_code(status: u16) -> bool {
    200 <= status < 300
}

/// Why a remote call failed.
#[derive(Debug)]
pub enum ClientError {
    /// The request could not be sent or its response not read.
    Transport { message: String },
    /// The service answered with a status that is not a success.
    Api { status: u16, reason: Option<String>, body: String },
    /// A success response does not have the expected shape.
    Parse { message: String },
}

/// How an HTTP status is shown: its code and its reason phrase.
pub open spec fn status_text(status: u16, reason: Option<String>) -> Seq<char> {
    decimal(status as nat) + " "@ + text_or(reason, "<unknown status code>"@)
}

/// The message that describes a failure.
pub open spec fn error_text(e: ClientError) -> Seq<char> {
    match e {
        ClientError::Transport { message } => message@,
        ClientError::Api { status, reason, body } => "Confluence API error ("@ + status_text(
            status,
            reason,
        ) + "): "@ + body@,
        ClientError::Parse { message } => message@,
    }
}

impl ClientError {
    /// The message that describes this failure.
    pub fn message(&self) -> (r: String)
        ensures
            r@ == error_text(*self),
    {
        match self {
            ClientError::Transport { message } => message.clone(),
            ClientError::Api { status, reason, body } => {
                let mut out = String::from_str("Confluence API error (");
                out.append(decimal_string(*status as u64).as_str());
                out.append(" ");
                match reason {
                    Some(s) => out.append(s.as_str()),
                    None => out.append("<unknown status code>"),
                }
                out.append("): ");
                out.append(body.as_str());
                out
            },
            ClientError::Parse { message } => message.clone(),
        }
    }
}

/// A non-success response is reported with its numeric status and its body,
/// verbatim.
pub proof fn api_error_names_status_and_body(status: u16, reason: Option<String>, body: String)
    ensures
        contains(error_text(ClientError::Api { status, reason, body }), decimal(status as nat)),
        contains(error_text(ClientError::Api { status, reason, body }), body@),
{
    let prefix = "Confluence API error ("@;
    let msg = error_text(ClientError::Api { status, reason, body });
    let d = decimal(status as nat);
    assert(msg.subrange(prefix.len() as int, (prefix.len() + d.len()) as int) =~= d);
    assert(msg.subrange(msg.len() - body@.len(), msg.len() as int) =~= body@);
}

/// Checks a response: its body when `status` is a success, else the failure
/// that carries the status and the body.
pub fn check_response(status: u16, body: String) -> (r: Result<String, ClientError>)
    ensures
        match r {
            Ok(b) => is_success_code(status) && b@ == body@,
            Err(ClientError::Api { status: s, reason, body: b }) => {
                &&& !is_success_code(status)
                &&& s == status
                &&& b@ == body@
                &&& is_canonical_reason(reason, status)
            },
            Err(_) => false,
        },
{
    if 200 <= status && status < 300 {
        Ok(body)
    } else {
        let reason = status_reason(status);
        Err(ClientError::Api { status, reason, body })
    }
}

impl ConfluenceClient {
    /// The configuration for the service at `base_url`, authenticating as
    /// `account` with `api_token` by HTTP Basic authorization.
    pub fn new(base_url: &str, account: &str, api_token: &str) -> (r: Self)
        requires
            account.spec_bytes().len() + api_token.spec_bytes().len() < usize::MAX / 2,
        ensures
            r.base_url@ == trim_trailing_slashes(base_url@),
            r.auth_header@ == "Basic "@ + base64_standard(credential_bytes(account, api_token)),
    {
        let a = account.as_bytes();
        let t = api_token.as_bytes();
        let mut credentials: Vec<u8> = Vec::new();
        let mut i: usize = 0;
        while i < a.len()
            invariant
                i <= a@.len(),
                credentials@ == a@.take(i as int),
            decreases a@.len() - i,
        {
            credentials.push(a[i]);
            assert(a@.take(i + 1) =~= a@.take(i as int).push(a@[i as int]));
            i = i + 1;
        }
        assert(a@.take(a@.len() as int) =~= a@);
        credentials.push(58u8);
        let ghost head = credentials@;
        let mut j: usize = 0;
        while j < t.len()
            invariant
                j <= t@.len(),
                credentials@ == head + t@.take(j as int),
            decreases t@.len() - j,
        {
            credentials.push(t[j]);
            assert(t@.take(j + 1) =~= t@.take(j as int).push(t@[j as int]));
            j = j + 1;
        }
        assert(t@.take(t@.len() as int) =~= t@);
        assert(credentials@ =~= credential_bytes(account, api_token));
        let mut auth_header = String::from_str("Basic ");
        auth_header.append(encode_base64(credentials.as_slice()).as_str());
        ConfluenceClient { base_url: trim_end_slashes(base_url), auth_header }
    }

    /// The URL that fetches page `page_id` with its storage content.
    pub fn page_url(&self, page_id: &str) -> (r: String)
        ensures
            r@ == self.base_url@ + api_root() + "/pages/"@ + page_id@ + "?body-format=storage"@,
    {
        let mut out = self.base_url.clone();
        out.append("/wiki/api/v2");
        out.append("/pages/");
        out.append(page_id);
        out.append("?body-format=storage");
        out
    }

    /// The URL that creates pages.
    pub fn pages_url(&self) -> (r: String)
        ensures
            r@ == self.base_url@ + api_root() + "/pages"@,
    {
        let mut out = self.base_url.clone();
        out.append("/wiki/api/v2");
        out.append("/pages");
        out
    }

    /// The URL that updates page `page_id`.
    pub fn page_update_url(&self, page_id: &str) -> (r: String)
        ensures
            r@ == self.base_url@ + api_root() + "/pages/"@ + page_id@,
    {
        let mut out = self.base_url.clone();
        out.append("/wiki/api/v2");
        out.append("/pages/");
        out.append(page_id);
        out
    }

    /// The URL that lists at most `limit` pages of the space `space_id`.
    pub fn space_pages_url(&self, space_id: &str, limit: u32) -> (r: String)
        ensures
            r@ == self.base_url@ + api_root() + "/spaces/"@ + space_id@ + "/pages?limit="@
                + decimal(limit as nat),
    {
        let mut out = self.base_url.clone();
        out.append("/wiki/api/v2");
        out.append("/spaces/");
        out.append(space_id);
        out.append("/pages?limit=");
        out.append(decimal_string(limit as u64).as_str());
        out
    }
}

} // verus!
