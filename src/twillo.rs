//! Client-side logic for the provider's "Attempts Summary" endpoint: the
//! configuration, the request to send, and the interpretation of the reply.
use base64::Engine;
use vstd::prelude::*;
use vstd::utf8::encode_utf8;

verus! {

/// Root of the provider's REST API.
pub const BASE_URL: &'static str = "https://verify.twilio.com/v2/";

/// Path of the attempts-summary endpoint, relative to `BASE_URL`.
pub const API_ATTEMPTS_SUMMARY: &'static str = "Attempts/Summary";

/// Errors of one fetch, each scoped to the request that met it.
#[derive(Debug)]
pub enum Errors {
    /// The call failed in transport or the provider answered with a non-success status.
    APIError(String),
    /// A required configuration value is missing; carries its name.
    ConfigError(String),
    /// A success reply whose body does not have the summary's shape.
    DecodeError(String),
}

/// Counters of verification attempts reported by the provider.
#[derive(Debug, Clone)]
pub struct AttemptSummary {
    pub total_attempts: usize,
    pub total_converted: usize,
    pub total_unconverted: usize,
    pub conversion_rate_percentage: String,
}

/// What a client holds: the application name and the account credentials.
pub struct CredentialsModel {
    pub app_name: Seq<char>,
    pub sid: Seq<char>,
    pub token: Seq<char>,
}

/// A client of the provider's API for one account.
#[derive(Debug, Clone)]
pub struct TwilloAPI {
    app_name: String,
    sid: String,
    token: String,
}

impl View for TwilloAPI {
    type V = CredentialsModel;

    closed spec fn view(&self) -> CredentialsModel {
        CredentialsModel { app_name: self.app_name@, sid: self.sid@, token: self.token@ }
    }
}

/// Name of the query parameter that filters attempts by creation date.
pub const DATE_FILTER_PARAM: &'static str = "DateCreatedAfter";

/// Configuration key of the application name.
pub const APP_NAME_VAR: &'static str = "APP_NAME";

/// Configuration key of the account identifier.
pub const SID_VAR: &'static str = "SID";

/// Configuration key of the account's auth token.
pub const TOKEN_VAR: &'static str = "TOKEN";

/// Reported when the credential pair is too long to encode.
pub const CREDENTIALS_TOO_LONG: &'static str = "credentials too long to encode";

/// Name of the first configuration value that is absent.
pub open spec fn missing_config(has_app_name: bool, has_sid: bool, has_token: bool) -> Seq<char> {
    if !has_app_name {
        APP_NAME_VAR@
    } else if !has_sid {
        SID_VAR@
    } else if !has_token {
        TOKEN_VAR@
    } else {
        Seq::empty()
    }
}

/// Prefix of the value of an HTTP Basic `Authorization` header.
pub const BASIC_PREFIX: &'static str = "Basic ";

/// Prefix of the diagnostic text of an `APIError`.
pub const API_ERROR_PREFIX: &'static str = "Something happened ";

/// The standard, padded base64 encoding of `bytes`.
pub uninterp spec fn base64_of(bytes: Seq<u8>) -> Seq<char>;

/// Relies on base64's `STANDARD.encode`: the padded standard encoding of the
/// bytes, which depends on the bytes alone; it panics only when the encoded
/// length overflows `usize`, which the bound on the input rules out.
#[verifier::external_body]
fn base64_standard(bytes: &[u8]) -> (r: String)
    requires
        bytes@.len() <= usize::MAX / 2,
    ensures
        r@ == base64_of(bytes@),
{
    base64::engine::general_purpose::STANDARD.encode(bytes)
}

/// The credential pair `sid:token` of HTTP Basic authentication.
pub open spec fn credential_pair(sid: Seq<char>, token: Seq<char>) -> Seq<char> {
    sid + seq![':'] + token
}

/// The `Authorization` header value for an already encoded credential pair.
pub open spec fn basic_header(encoded: Seq<char>) -> Seq<char> {
    BASIC_PREFIX@ + encoded
}

/// The `Authorization` header value for the account `sid` with `token`.
pub open spec fn authorization_of(sid: Seq<char>, token: Seq<char>) -> Seq<char> {
    basic_header(base64_of(encode_utf8(credential_pair(sid, token))))
}

/// Whether the UTF-8 form of the credential pair is small enough to encode.
pub open spec fn encodable(sid: Seq<char>, token: Seq<char>) -> bool {
    encode_utf8(credential_pair(sid, token)).len() <= usize::MAX / 2
}

/// `Authorization` header value for a credential pair already in base64.
pub fn basic_authorization(encoded: &str) -> (r: String)
    ensures
        r@ == basic_header(encoded@),
{
    let mut value = String::from_str(BASIC_PREFIX);
    value.append(encoded);
    value
}

/// The diagnostic text of an `APIError` raised for `detail`.
pub open spec fn api_error_text(detail: Seq<char>) -> Seq<char> {
    API_ERROR_PREFIX@ + detail
}

/// Whether the provider accepted the request.
pub open spec fn is_success(status: u16) -> bool {
    status == 200
}

/// Whether a reply with this HTTP status carries a summary to decode.
pub fn accepts_status(status: u16) -> (r: bool)
    ensures
        r == is_success(status),
{
    status == 200
}

/// What came back from one call to the endpoint, as seen by the caller.
pub enum UpstreamReply {
    /// The request did not complete; carries the transport error text.
    Unreachable(String),
    /// A non-success status; carries the response body text.
    Rejected(String),
    /// A success status; carries the decoded summary or the decoder's error text.
    Delivered(Result<AttemptSummary, String>),
}

/// Turns the reply of one call into the fetch's result: the summary when it
/// was delivered and decoded, else the error of that request.
pub fn summary_from_reply(reply: UpstreamReply) -> (r: Result<AttemptSummary, Errors>)
    ensures
        match (reply, r) {
            (UpstreamReply::Unreachable(t), Err(Errors::APIError(m))) => m@ == api_error_text(t@),
            (UpstreamReply::Rejected(t), Err(Errors::APIError(m))) => m@ == api_error_text(t@),
            (UpstreamReply::Delivered(Ok(s)), Ok(v)) => v == s,
            (UpstreamReply::Delivered(Err(t)), Err(Errors::DecodeError(m))) => m@ == t@,
            _ => false,
        },
{
    match reply {
        UpstreamReply::Unreachable(t) => Err(Errors::APIError(api_error(&t))),
        UpstreamReply::Rejected(t) => Err(Errors::APIError(api_error(&t))),
        UpstreamReply::Delivered(Ok(s)) => Ok(s),
        UpstreamReply::Delivered(Err(t)) => Err(Errors::DecodeError(t)),
    }
}

fn api_error(detail: &String) -> (r: String)
    ensures
        r@ == api_error_text(detail@),
{
    let mut text = String::from_str(API_ERROR_PREFIX);
    text.append(detail.as_str());
    text
}

/// The request to send for one fetch of the attempts summary.
pub struct SummaryRequest {
    /// Absolute URL of the endpoint.
    pub url: String,
    /// Value of the `Authorization` header.
    pub authorization: String,
    /// Name and value of the single query parameter.
    pub query_name: String,
    pub query_value: String,
}

/// `base` followed by `path`.
pub open spec fn joined(base: Seq<char>, path: Seq<char>) -> Seq<char> {
    base + path
}

impl TwilloAPI {
    pub fn new(app_name: &str, sid: &str, token: &str) -> (r: TwilloAPI)
        ensures
            r@.app_name == app_name@,
            r@.sid == sid@,
            r@.token == token@,
    {
        TwilloAPI { app_name: app_name.to_owned(), sid: sid.to_owned(), token: token.to_owned() }
    }

    /// A client from the configuration values as found, in the order
    /// `APP_NAME`, `SID`, `TOKEN`; the first one missing is reported by name.
    pub fn from_config(app_name: Option<String>, sid: Option<String>, token: Option<String>) -> (r:
        Result<TwilloAPI, Errors>)
        ensures
            r is Ok <==> (app_name is Some && sid is Some && token is Some),
            r is Ok ==> r->Ok_0@.app_name == app_name->Some_0@ && r->Ok_0@.sid == sid->Some_0@
                && r->Ok_0@.token == token->Some_0@,
            r is Err ==> (r->Err_0 matches Errors::ConfigError(name) && name@ == missing_config(
                app_name is Some,
                sid is Some,
                token is Some,
            )),
    {
        match (app_name, sid, token) {
            (Some(app_name), Some(sid), Some(token)) => Ok(TwilloAPI { app_name, sid, token }),
            (None, _, _) => Err(Errors::ConfigError(String::from_str(APP_NAME_VAR))),
            (_, None, _) => Err(Errors::ConfigError(String::from_str(SID_VAR))),
            (_, _, None) => Err(Errors::ConfigError(String::from_str(TOKEN_VAR))),
        }
    }

    /// The absolute URL of `path` under the API root.
    pub fn get_with_base(&self, path: &str) -> (r: String)
        ensures
            r@ == joined(BASE_URL@, path@),
    {
        let mut url = String::from_str(BASE_URL);
        url.append(path);
        url
    }

    /// The credential pair `sid:token` of this client.
    fn credentials(&self) -> (r: String)
        ensures
            r@ == credential_pair(self@.sid, self@.token),
    {
        let mut creds = self.sid.clone();
        creds.append(":");
        creds.append(self.token.as_str());
        proof {
            reveal_strlit(":");
            assert(creds@ =~= credential_pair(self@.sid, self@.token));
        }
        creds
    }

    /// The value of the HTTP Basic `Authorization` header of this client;
    /// `None` when the credential pair is too long to encode.
    pub fn authorization(&self) -> (r: Option<String>)
        ensures
            r is Some <==> encodable(self@.sid, self@.token),
            r is Some ==> r->Some_0@ == authorization_of(self@.sid, self@.token),
    {
        let creds = self.credentials();
        let bytes = creds.as_str().as_bytes();
        if bytes.len() > usize::MAX / 2 {
            return None;
        }
        let encoded = base64_standard(bytes);
        Some(basic_authorization(encoded.as_str()))
    }

    /// The request for the attempts summary created after `after_date`.
    /// The country filter is accepted and not sent.
    pub fn summary_request(&self, after_date: &str, _country: Option<&str>) -> (r: Result<
        SummaryRequest,
        Errors,
    >)
        ensures
            r is Ok <==> encodable(self@.sid, self@.token),
            r is Ok ==> r->Ok_0.url@ == joined(BASE_URL@, API_ATTEMPTS_SUMMARY@)
                && r->Ok_0.authorization@ == authorization_of(self@.sid, self@.token)
                && r->Ok_0.query_name@ == DATE_FILTER_PARAM@ && r->Ok_0.query_value@
                == after_date@,
            r is Err ==> (r->Err_0 matches Errors::ConfigError(m) && m@ == CREDENTIALS_TOO_LONG@),
    {
        match self.authorization() {
            Some(authorization) => Ok(
                SummaryRequest {
                    url: self.get_with_base(API_ATTEMPTS_SUMMARY),
                    authorization,
                    query_name: String::from_str(DATE_FILTER_PARAM),
                    query_value: after_date.to_owned(),
                },
            ),
            None => Err(Errors::ConfigError(String::from_str(CREDENTIALS_TOO_LONG))),
        }
    }
}

} // verus!
