//! A thin Redfish client: where requests go, and what their failures say.
//!
//! Redfish is plain REST with HTTP Basic auth, so every request carries the
//! credentials and there is no session to renew. Sending requests is the
//! program's business; this module builds the HTTP client, the URLs, and reads
//! the error envelopes that come back.

use vstd::prelude::*;
use serde_json::Value;
use std::cell::OnceCell;
use crate::config::Config;
use crate::text::{copy, decimal, join, owned, push_decimal, strip_suffix_char, take_chars, first_chars, trim_end_matches, views, join_strings};

verus! {

broadcast use vstd::string::group_string_axioms;

// ------------------------------------------------------------------ JSON ---

/// A JSON document as the program received it: the shape that `serde_json`
/// parsed, with numbers kept as their text.
#[derive(Debug)]
pub enum Json {
    Null,
    Bool(bool),
    Number(String),
    Str(String),
    Array(Vec<Json>),
    Object(Vec<(String, Json)>),
}

/// The value under `key` among the members of an object, the first one that
/// has that key.
pub open spec fn field_of(fields: Seq<(String, Json)>, key: Seq<char>) -> Option<Json>
    decreases fields.len(),
{
    if fields.len() == 0 {
        None
    } else if fields[0].0@ == key {
        Some(fields[0].1)
    } else {
        field_of(fields.drop_first(), key)
    }
}

/// `Value::get(key)`: a member of an object; nothing for any other value.
pub open spec fn json_get(j: Json, key: Seq<char>) -> Option<Json> {
    match j {
        Json::Object(fields) => field_of(fields@, key),
        _ => None,
    }
}

/// `Option::and_then(|v| v.get(key))`.
pub open spec fn json_get_opt(j: Option<Json>, key: Seq<char>) -> Option<Json> {
    match j {
        Some(v) => json_get(v, key),
        None => None,
    }
}

/// `Value::as_str` on an optional value.
pub open spec fn json_str(j: Option<Json>) -> Option<Seq<char>> {
    match j {
        Some(Json::Str(s)) => Some(s@),
        _ => None,
    }
}

/// `Value::as_array` on an optional value.
pub open spec fn json_array(j: Option<Json>) -> Option<Seq<Json>> {
    match j {
        Some(Json::Array(items)) => Some(items@),
        _ => None,
    }
}

fn find_field<'a>(fields: &'a Vec<(String, Json)>, key: &str) -> (r: Option<&'a Json>)
    ensures
        match r {
            Some(v) => field_of(fields@, key@) == Some(*v),
            None => field_of(fields@, key@) is None,
        },
{
    let mut i: usize = 0;
    assert(fields@.skip(0) =~= fields@);
    while i < fields.len()
        invariant
            i <= fields@.len(),
            field_of(fields@, key@) == field_of(fields@.skip(i as int), key@),
        decreases fields@.len() - i,
    {
        if crate::text::same_text(fields[i].0.as_str(), key) {
            return Some(&fields[i].1);
        }
        assert(fields@.skip(i as int).drop_first() =~= fields@.skip(i + 1));
        i = i + 1;
    }
    None
}

impl Json {
    /// `Value::get`: the member `key` of an object.
    pub fn get<'a>(&'a self, key: &str) -> (r: Option<&'a Json>)
        ensures
            match r {
                Some(v) => json_get(*self, key@) == Some(*v),
                None => json_get(*self, key@) is None,
            },
    {
        match self {
            Json::Object(fields) => find_field(fields, key),
            _ => None,
        }
    }

    /// `Value::as_str`.
    pub fn as_str<'a>(&'a self) -> (r: Option<&'a str>)
        ensures
            match r {
                Some(s) => json_str(Some(*self)) == Some(s@),
                None => json_str(Some(*self)) is None,
            },
    {
        match self {
            Json::Str(s) => Some(s.as_str()),
            _ => None,
        }
    }

    /// `Value::as_array`.
    pub fn as_array<'a>(&'a self) -> (r: Option<&'a Vec<Json>>)
        ensures
            match r {
                Some(v) => json_array(Some(*self)) == Some(v@),
                None => json_array(Some(*self)) is None,
            },
    {
        match self {
            Json::Array(items) => Some(items),
            _ => None,
        }
    }
}

/// `j.and_then(|v| v.get(key))` on references.
pub fn get_opt<'a>(j: Option<&'a Json>, key: &str) -> (r: Option<&'a Json>)
    ensures
        match r {
            Some(v) => json_get_opt(opt_value(j), key@) == Some(*v),
            None => json_get_opt(opt_value(j), key@) is None,
        },
{
    match j {
        Some(v) => v.get(key),
        None => None,
    }
}

/// The value behind an optional reference.
pub open spec fn opt_value(j: Option<&Json>) -> Option<Json> {
    match j {
        Some(v) => Some(*v),
        None => None,
    }
}

/// `j.and_then(|v| v.as_str())` on references, copied out.
pub fn str_opt(j: Option<&Json>) -> (r: Option<String>)
    ensures
        match r {
            Some(s) => json_str(opt_value(j)) == Some(s@),
            None => json_str(opt_value(j)) is None,
        },
{
    match j {
        Some(v) => match v.as_str() {
            Some(s) => Some(owned(s)),
            None => None,
        },
        None => None,
    }
}

/// A text member of a JSON object, or `default` when it is missing or not text.
pub open spec fn text_field(j: Json, key: Seq<char>, default: Seq<char>) -> Seq<char> {
    match json_str(json_get(j, key)) {
        Some(s) => s,
        None => default,
    }
}

/// `j.get(key).and_then(|s| s.as_str()).unwrap_or(default).to_string()`.
pub fn text_or(j: &Json, key: &str, default: &str) -> (r: String)
    ensures
        r@ == text_field(*j, key@, default@),
{
    match str_opt(j.get(key)) {
        Some(s) => s,
        None => owned(default),
    }
}

// ------------------------------------------------------- error envelopes ---

/// The `Message` of each entry that has a text one, in order.
pub open spec fn extended_messages(items: Seq<Json>) -> Seq<Seq<char>>
    decreases items.len(),
{
    if items.len() == 0 {
        Seq::empty()
    } else {
        extended_messages(items.drop_last()) + match json_str(json_get(items.last(), "Message"@)) {
            Some(m) => seq![m],
            None => Seq::empty(),
        }
    }
}

/// The human-readable part of a failed response. Redfish wraps its errors in a
/// deep envelope: the messages under `error.@Message.ExtendedInfo` come first,
/// one per line; failing those, `error.message`; failing that, the body itself.
/// A body that is not JSON is shown as its first 400 characters.
pub open spec fn described(body: Seq<char>, parsed: Option<Json>) -> Seq<char> {
    match parsed {
        None => take_chars(body, 400),
        Some(v) => {
            let err = json_get(v, "error"@);
            let info = json_array(json_get_opt(err, "@Message.ExtendedInfo"@));
            if info is Some && extended_messages(info->0).len() > 0 {
                join(extended_messages(info->0), "\n"@)
            } else {
                match json_str(json_get_opt(err, "message"@)) {
                    Some(m) => m,
                    None => body,
                }
            }
        },
    }
}

fn collect_messages(items: &Vec<Json>) -> (r: Vec<String>)
    ensures
        views(r@) == extended_messages(items@),
{
    let mut r: Vec<String> = Vec::new();
    let mut i: usize = 0;
    while i < items.len()
        invariant
            i <= items@.len(),
            views(r@) == extended_messages(items@.take(i as int)),
        decreases items@.len() - i,
    {
        let m = str_opt(items[i].get("Message"));
        assert(items@.take(i + 1).drop_last() =~= items@.take(i as int));
        match m {
            Some(s) => {
                r.push(s);
            },
            None => {},
        }
        i = i + 1;
        assert(views(r@) =~= extended_messages(items@.take(i as int)));
    }
    assert(items@.take(items@.len() as int) =~= items@);
    r
}

/// Digs the human-readable message out of a failed response's `body`, given
/// the body as JSON if it is JSON.
pub fn describe_parsed(body: &str, parsed: Option<&Json>) -> (r: String)
    ensures
        r@ == described(body@, opt_value(parsed)),
{
    match parsed {
        None => first_chars(body, 400),
        Some(v) => {
            let err = v.get("error");
            let info = get_opt(err, "@Message.ExtendedInfo");
            let items = match info {
                Some(x) => x.as_array(),
                None => None,
            };
            match items {
                Some(list) => {
                    let msgs = collect_messages(list);
                    if msgs.len() > 0 {
                        return join_strings(&msgs, "\n");
                    }
                },
                None => {},
            }
            match str_opt(get_opt(err, "message")) {
                Some(m) => m,
                None => owned(body),
            }
        },
    }
}

/// The JSON document a text holds, as `serde_json::from_str` reads it into a
/// `serde_json::Value`; nothing when the text is not JSON.
pub uninterp spec fn json_of(body: Seq<char>) -> Option<Json>;

#[verifier::external_type_specification]
#[verifier::external_body]
pub struct ExJsonError(serde_json::Error);

/// Calls `serde_json::from_str` into a `serde_json::Value` and converts the
/// value into the library's shape, one node for one node. Claims that the
/// outcome is `json_of` of the text (the same text always parses the same
/// way); of the parser's error, which says where the text stopped being JSON,
/// nothing is claimed.
#[verifier::external_body]
pub fn parse_json(body: &str) -> (r: Result<Json, serde_json::Error>)
    ensures
        match r {
            Ok(j) => json_of(body@) == Some(j),
            Err(_) => json_of(body@) is None,
        },
{
    let knot: OnceCell<&dyn Fn(Value) -> Json> = OnceCell::new();
    let node = |v| match v {
        Value::Bool(b) => Json::Bool(b),
        Value::Number(n) => Json::Number(n.to_string()),
        Value::String(t) => Json::Str(t),
        Value::Array(a) => Json::Array(a.into_iter().map(knot.get().unwrap()).collect()),
        Value::Object(m) => Json::Object(m.into_iter().map(|(k, x)| (k, knot.get().unwrap()(x))).collect()),
        _ => Json::Null,
    };
    let _ = knot.set(&node);
    serde_json::from_str(body).map(&node)
}

/// Digs the human-readable message out of a failed response's `body`.
pub fn describe(body: &str) -> (r: String)
    ensures
        r@ == described(body@, json_of(body@)),
{
    match parse_json(body) {
        Ok(j) => describe_parsed(body, Some(&j)),
        Err(_) => describe_parsed(body, None),
    }
}

// ---------------------------------------------------------------- client ---

#[verifier::external_type_specification]
#[verifier::external_body]
pub struct ExHttpClient(reqwest::Client);

#[verifier::external_type_specification]
#[verifier::external_body]
pub struct ExHttpError(reqwest::Error);

/// How the HTTP client treats the BMC.
#[derive(Clone, Copy, PartialEq, Eq, Structural, Debug)]
pub struct HttpSettings {
    /// Whether certificates that do not verify are accepted.
    pub accept_invalid_certs: bool,
    /// How long a request may take, in seconds.
    pub timeout_secs: u64,
}

/// Calls `reqwest::Client::builder`, sets `danger_accept_invalid_certs` and
/// `timeout` (through `std::time::Duration::from_secs`) from `s`, and calls
/// `build`. Claims only that a client that was built was built with exactly
/// these settings, which it hands back beside the client; whether building
/// succeeds depends on the TLS backend and the platform, and is not claimed.
#[verifier::external_body]
fn build_http(s: &HttpSettings) -> (r: reqwest::Result<(reqwest::Client, HttpSettings)>)
    ensures
        r matches Ok((_, used)) ==> used == *s,
{
    reqwest::Client::builder()
        .danger_accept_invalid_certs(s.accept_invalid_certs)
        .timeout(std::time::Duration::from_secs(s.timeout_secs))
        .build()
        .map(|c| (c, *s))
}

/// Why a client could not be made.
#[derive(Debug)]
pub enum ClientError {
    /// The HTTP client could not be built.
    Build(reqwest::Error),
}

impl ClientError {
    /// The context shown above the cause.
    pub fn message(&self) -> (r: String)
        ensures
            r@ == "could not build the HTTP client"@,
    {
        owned("could not build the HTTP client")
    }
}

/// Everything a request to the BMC needs. (Named apart from `reqwest::Client`,
/// which it holds.)
pub struct RedfishClient {
    pub http: reqwest::Client,
    /// What `http` was built with.
    pub settings: HttpSettings,
    /// `https://` and the host, without a trailing slash.
    pub base: String,
    pub user: String,
    pub password: String,
}

/// The base URL for a configured host.
pub open spec fn base_url(host: Seq<char>) -> Seq<char> {
    "https://"@ + strip_suffix_char(host, '/')
}

impl RedfishClient {
    /// A client for the configured BMC: certificates are checked only when
    /// `verify_tls` is set, and requests time out after `timeout_secs`.
    pub fn new(cfg: &Config) -> (r: Result<RedfishClient, ClientError>)
        ensures
            r matches Ok(c) ==> {
                &&& c.settings == (HttpSettings {
                    accept_invalid_certs: !cfg.verify_tls,
                    timeout_secs: cfg.timeout_secs,
                })
                &&& c.base@ == base_url(cfg.host@)
                &&& c.user@ == cfg.user@
                &&& c.password@ == cfg.password@
            },
    {
        let wanted = HttpSettings { accept_invalid_certs: !cfg.verify_tls, timeout_secs: cfg.timeout_secs };
        match build_http(&wanted) {
            Ok((http, settings)) => {
                let mut base = owned("https://");
                let host = trim_end_matches(cfg.host.as_str(), '/');
                base.append(host.as_str());
                Ok(RedfishClient { http, settings, base, user: copy(&cfg.user), password: copy(&cfg.password) })
            },
            Err(e) => Err(ClientError::Build(e)),
        }
    }

    /// The full URL of a Redfish path on this BMC.
    pub fn url(&self, path: &str) -> (r: String)
        ensures
            r@ == self.base@ + path@,
    {
        let mut r = copy(&self.base);
        r.append(path);
        r
    }
}

/// An HTTP status in the 2xx range, as `StatusCode::is_success` reads it.
pub fn is_success(status: u16) -> (r: bool)
    ensures
        r == (200 <= status <= 299),
{
    200 <= status && status <= 299
}

/// The error for a response that came back with a failing status.
pub open spec fn failure_text(status: u16, path: Seq<char>, body: Seq<char>, parsed: Option<Json>) -> Seq<char> {
    decimal(status as nat) + " "@ + path + "\n"@ + described(body, parsed)
}

/// `"{status} {path}\n{describe(body)}"`.
pub fn failure_message(status: u16, path: &str, body: &str) -> (r: String)
    ensures
        r@ == failure_text(status, path@, body@, json_of(body@)),
{
    let mut r = String::new();
    push_decimal(&mut r, status as u64);
    r.append(" ");
    r.append(path);
    r.append("\n");
    let d = describe(body);
    r.append(d.as_str());
    r
}

/// Why a response gave no JSON document.
#[derive(Debug)]
pub enum ResponseError {
    /// The BMC answered with a failing status: the whole message.
    Failed(String),
    /// The body is not JSON: the context, and the parser's error.
    NotJson { context: String, cause: serde_json::Error },
}

/// What a response with `status` and `body`, to a request for `path`, gives:
/// the body's JSON after a 2xx status; the failure message after any other;
/// and `not_json` with the parser's message when a 2xx body is not JSON.
pub fn read_json(path: &str, status: u16, body: &str) -> (r: Result<Json, ResponseError>)
    ensures
        !(200 <= status <= 299) ==> (r matches Err(ResponseError::Failed(m))
            && m@ == failure_text(status, path@, body@, json_of(body@))),
        200 <= status <= 299 ==> match json_of(body@) {
            Some(j) => r matches Ok(k) && k == j,
            None => (r matches Err(ResponseError::NotJson { context, .. })
                && context@ == path@ + " did not return JSON"@),
        },
{
    if !is_success(status) {
        return Err(ResponseError::Failed(failure_message(status, path, body)));
    }
    match parse_json(body) {
        Ok(j) => Ok(j),
        Err(cause) => Err(ResponseError::NotJson { context: not_json(path), cause }),
    }
}

/// The context of a request that did not complete: `"{method} {url} failed"`.
pub fn request_failed(method: &str, url: &str) -> (r: String)
    ensures
        r@ == method@ + " "@ + url@ + " failed"@,
{
    let mut r = owned(method);
    r.append(" ");
    r.append(url);
    r.append(" failed");
    r
}

/// The context of a body that is not JSON.
pub fn not_json(path: &str) -> (r: String)
    ensures
        r@ == path@ + " did not return JSON"@,
{
    let mut r = owned(path);
    r.append(" did not return JSON");
    r
}

/// The context of JSON that does not have the expected fields.
pub fn unexpected_shape(path: &str) -> (r: String)
    ensures
        r@ == path@ + " did not have the expected shape"@,
{
    let mut r = owned(path);
    r.append(" did not have the expected shape");
    r
}

} // verus!
