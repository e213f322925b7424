//! What is sent to the service and how its answers are read.
//!
//! Nothing here touches the network. A request is described as a value, to
//! be sent by the caller; an answer is judged by its status and its body,
//! which the caller hands in.

pub mod api_paths;

use vstd::prelude::*;
use vstd::string::*;
use crate::config::Config;
use crate::error::Error;
use crate::text::{decimal_string, decimal_text, join, slice_view, text_view};

verus! {

/// The name under which the client presents itself.
pub const USER_AGENT: &'static str = "realitydefender-go-sdk/1.0";

/// The message of the error for an answer that refuses the API key.
pub const UNAUTHORIZED_MESSAGE: &'static str = "Authentication failed: Invalid API key";

/// The message of the error for an answer that reports a failure of the
/// server.
pub const SERVER_ERROR_MESSAGE: &'static str = "Server error";

/// The key under which an answer's body names what went wrong.
pub const ERROR_KEY: &'static str = "error";

/// What `serde_json::from_slice` makes of a body: the JSON value, or nothing
/// where the body is no JSON text.
pub uninterp spec fn parsed_json(body: Seq<u8>) -> Option<serde_json::Value>;

/// What `serde_json::Value::get` finds in a value under a key.
pub uninterp spec fn json_member(value: serde_json::Value, key: Seq<char>) -> Option<
    serde_json::Value,
>;

/// What `serde_json::Value::as_str` gives for a value: its text where it is a
/// string.
pub uninterp spec fn json_text(value: serde_json::Value) -> Option<Seq<char>>;

/// `serde_json::from_slice` for a JSON value: the value that the bytes spell,
/// or `None` where the crate reports an error. The result depends on the
/// bytes alone.
#[verifier::external_body]
fn parse_json(body: &[u8]) -> (r: Option<serde_json::Value>)
    ensures
        r == parsed_json(body@),
{
    match serde_json::from_slice::<serde_json::Value>(body) {
        Ok(value) => Some(value),
        Err(_) => None,
    }
}

/// `serde_json::Value::get` with a text as the index: the member of an
/// object under `key`, or `None` where the value is no object or has no such
/// member.
#[verifier::external_body]
fn member_of<'a>(value: &'a serde_json::Value, key: &str) -> (r: Option<&'a serde_json::Value>)
    ensures
        match r {
            Some(member) => json_member(*value, key@) == Some(*member),
            None => json_member(*value, key@) is None,
        },
{
    value.get(key)
}

/// `serde_json::Value::as_str`: the text of a value that is a string, or
/// `None` for any other value.
#[verifier::external_body]
fn text_of<'a>(value: &'a serde_json::Value) -> (r: Option<&'a str>)
    ensures
        match r {
            Some(text) => json_text(*value) == Some(text@),
            None => json_text(*value) is None,
        },
{
    value.as_str()
}

/// The method of a request.
#[derive(Debug, Clone, Copy, PartialEq, Eq, Structural)]
pub enum Method {
    Get,
    Post,
    Put,
}

/// A request to be sent: where to, with which headers and query parameters,
/// and with which body.
#[derive(Debug)]
pub struct HttpRequest {
    pub method: Method,
    pub url: String,
    pub headers: Vec<(String, String)>,
    pub query: Vec<(String, String)>,
    pub body: Option<Vec<u8>>,
}

pub struct HttpRequestView {
    pub method: Method,
    pub url: Seq<char>,
    pub headers: Seq<(Seq<char>, Seq<char>)>,
    pub query: Seq<(Seq<char>, Seq<char>)>,
    pub body: Option<Seq<u8>>,
}

/// The views of pairs of texts.
pub open spec fn pair_views(pairs: Seq<(String, String)>) -> Seq<(Seq<char>, Seq<char>)> {
    pairs.map_values(|p: (String, String)| (p.0@, p.1@))
}

impl View for HttpRequest {
    type V = HttpRequestView;

    open spec fn view(&self) -> HttpRequestView {
        HttpRequestView {
            method: self.method,
            url: self.url@,
            headers: pair_views(self.headers@),
            query: pair_views(self.query@),
            body: match self.body {
                Some(bytes) => Some(bytes@),
                None => None,
            },
        }
    }
}

/// The headers of a request that reads from the API.
pub open spec fn read_headers(api_key: Seq<char>) -> Seq<(Seq<char>, Seq<char>)> {
    seq![
        ("X-API-KEY"@, api_key),
        ("Accept"@, "application/json"@),
        ("Accept-Encoding"@, "gzip"@),
    ]
}

/// The headers of a request that sends JSON to the API.
pub open spec fn write_headers(api_key: Seq<char>) -> Seq<(Seq<char>, Seq<char>)> {
    seq![
        ("X-API-KEY"@, api_key),
        ("Content-Type"@, "application/json"@),
        ("Accept"@, "application/json"@),
        ("Accept-Encoding"@, "gzip"@),
    ]
}

/// The headers of a request that puts a file's bytes at a presigned URL. The
/// API key is not among them.
pub open spec fn upload_headers(content_type: Seq<char>, length: nat) -> Seq<
    (Seq<char>, Seq<char>),
> {
    seq![("Content-Type"@, content_type), ("Content-Length"@, decimal_text(length))]
}

/// Whether a status says that a request was carried out: 200 to 299.
pub open spec fn is_success(status: u16) -> bool {
    200 <= status <= 299
}

/// What an answer's body says went wrong: the text under `error`, where the
/// body is a JSON object that holds a text there.
pub open spec fn declared_error(body: Seq<u8>) -> Option<Seq<char>> {
    match parsed_json(body) {
        Some(value) => match json_member(value, "error"@) {
            Some(member) => json_text(member),
            None => None,
        },
        None => None,
    }
}

/// The message for an answer with a status that has no error of its own:
/// what the body says went wrong, else the status.
pub open spec fn unknown_error_message(declared: Option<Seq<char>>, status_text: Seq<char>) -> Seq<
    char,
> {
    match declared {
        Some(message) => message,
        None => "Unknown error (HTTP "@ + status_text + ")"@,
    }
}

/// The message for an upload that the presigned URL did not accept.
pub open spec fn upload_failed_message(status_text: Seq<char>, body: Seq<char>) -> Seq<char> {
    "Failed to upload to presigned URL. Status: "@ + status_text + " Body: "@ + body
}

/// Whether `r` is how an answer of the API with this status is read. 200 and
/// 201 are successes, whose body is left for the caller to decode. 401 and
/// 403 refuse the key, 404 finds nothing, 500 is a failure of the server.
/// Any other status gives an unknown error, worded by `other`.
pub open spec fn answer_read_as(status: u16, other: Seq<char>, r: Result<(), Error>) -> bool {
    if status == 200 || status == 201 {
        r is Ok
    } else if status == 401 || status == 403 {
        r matches Err(Error::Unauthorized(message)) && message@
            == "Authentication failed: Invalid API key"@
    } else if status == 404 {
        r matches Err(Error::NotFound)
    } else if status == 500 {
        r matches Err(Error::ServerError(message)) && message@ == "Server error"@
    } else {
        r matches Err(Error::UnknownError(message)) && message@ == other
    }
}

/// The message for an answer with a status that has no error of its own.
/// `declared` is what the body says went wrong, if it says so.
pub fn unknown_error(declared: Option<&str>, status_text: &str) -> (r: Error)
    ensures
        r matches Error::UnknownError(message) && message@ == unknown_error_message(
            slice_view(declared),
            status_text@,
        ),
{
    match declared {
        Some(message) => Error::UnknownError(message.to_owned()),
        None => {
            let mut message = join("Unknown error (HTTP ", status_text);
            message.append(")");
            Error::UnknownError(message)
        },
    }
}

/// What an answer's body says went wrong, if it says so.
pub fn error_in_body(body: &[u8]) -> (r: Option<String>)
    ensures
        text_view(r) == declared_error(body@),
{
    match parse_json(body) {
        Some(value) => match member_of(&value, ERROR_KEY) {
            Some(member) => match text_of(member) {
                Some(text) => Some(text.to_owned()),
                None => None,
            },
            None => None,
        },
        None => None,
    }
}

/// Reads an answer of the API by its status, which is also given as the text
/// shown for it, and its body. `Ok` says that the body holds what was asked
/// for and is to be decoded.
pub fn handle_response(status: u16, status_text: &str, body: &[u8]) -> (r: Result<(), Error>)
    ensures
        answer_read_as(status, unknown_error_message(declared_error(body@), status_text@), r),
{
    if status == 200 || status == 201 {
        Ok(())
    } else if status == 401 || status == 403 {
        Err(Error::Unauthorized(UNAUTHORIZED_MESSAGE.to_owned()))
    } else if status == 404 {
        Err(Error::NotFound)
    } else if status == 500 {
        Err(Error::ServerError(SERVER_ERROR_MESSAGE.to_owned()))
    } else {
        let declared = error_in_body(body);
        let error = match &declared {
            Some(message) => unknown_error(Some(message.as_str()), status_text),
            None => unknown_error(None, status_text),
        };
        Err(error)
    }
}

/// Reads the answer to an upload at a presigned URL: any status from 200 to
/// 299 is a success, any other a failed upload, reported with the status
/// and the body.
pub fn check_upload_response(status: u16, status_text: &str, body: &str) -> (r: Result<(), Error>)
    ensures
        is_success(status) ==> r is Ok,
        !is_success(status) ==> (r matches Err(Error::UploadFailed(message)) && message@
            == upload_failed_message(status_text@, body@)),
{
    if 200 <= status && status <= 299 {
        Ok(())
    } else {
        let mut message = join("Failed to upload to presigned URL. Status: ", status_text);
        message.append(" Body: ");
        message.append(body);
        Err(Error::UploadFailed(message))
    }
}

fn header(name: &str, value: &str) -> (r: (String, String))
    ensures
        r.0@ == name@,
        r.1@ == value@,
{
    (name.to_owned(), value.to_owned())
}

/// HTTP client for making API requests
#[derive(Debug)]
pub struct HttpClient {
    config: Config,
}

impl HttpClient {
    /// The configuration the client was made with.
    pub closed spec fn spec_config(self) -> Config {
        self.config
    }

    #[verifier::type_invariant]
    spec fn valid(self) -> bool {
        self.config.fault() is None
    }

    /// Create a new HTTP client with the given configuration, which must be
    /// valid.
    pub fn new(config: Config) -> (r: Result<HttpClient, Error>)
        ensures
            match r {
                Ok(client) => config.fault() is None && client.spec_config() == config,
                Err(e) => e matches Error::InvalidConfig(message) && config.fault() == Some(
                    message@,
                ),
            },
    {
        match config.validate() {
            Ok(_) => Ok(HttpClient { config }),
            Err(e) => Err(e),
        }
    }

    /// The configuration the client was made with.
    pub fn config(&self) -> (r: &Config)
        ensures
            *r == self.spec_config(),
            r.fault() is None,
    {
        proof {
            use_type_invariant(self);
        }
        &self.config
    }

    /// The time that a request may take, in seconds.
    pub fn timeout_seconds(&self) -> (r: u64)
        ensures
            r == self.spec_config().spec_timeout_seconds(),
    {
        self.config.get_timeout_seconds()
    }

    /// A GET request to the specified endpoint
    pub fn get(&self, endpoint: &str) -> (r: HttpRequest)
        ensures
            r@ == (HttpRequestView {
                method: Method::Get,
                url: self.spec_config().spec_base_url() + endpoint@,
                headers: read_headers(self.spec_config().api_key@),
                query: Seq::empty(),
                body: None,
            }),
    {
        let params: Vec<(String, String)> = Vec::new();
        proof {
            assert(pair_views(params@) =~= Seq::empty());
        }
        self.get_with_params(endpoint, params)
    }

    /// A GET request to the specified endpoint, with query parameters
    pub fn get_with_params(&self, endpoint: &str, params: Vec<(String, String)>) -> (r:
        HttpRequest)
        ensures
            r@ == (HttpRequestView {
                method: Method::Get,
                url: self.spec_config().spec_base_url() + endpoint@,
                headers: read_headers(self.spec_config().api_key@),
                query: pair_views(params@),
                body: None,
            }),
    {
        let base = self.config.get_base_url();
        let url = join(base.as_str(), endpoint);
        let mut headers: Vec<(String, String)> = Vec::new();
        headers.push(header("X-API-KEY", self.config.api_key.as_str()));
        headers.push(header("Accept", "application/json"));
        headers.push(header("Accept-Encoding", "gzip"));
        proof {
            assert(pair_views(headers@) =~= read_headers(self.config.api_key@));
        }
        HttpRequest { method: Method::Get, url, headers, query: params, body: None }
    }

    /// A POST request with JSON data to the specified endpoint
    pub fn post(&self, endpoint: &str, data: Vec<u8>) -> (r: HttpRequest)
        ensures
            r@ == (HttpRequestView {
                method: Method::Post,
                url: self.spec_config().spec_base_url() + endpoint@,
                headers: write_headers(self.spec_config().api_key@),
                query: Seq::empty(),
                body: Some(data@),
            }),
    {
        let base = self.config.get_base_url();
        let url = join(base.as_str(), endpoint);
        let mut headers: Vec<(String, String)> = Vec::new();
        headers.push(header("X-API-KEY", self.config.api_key.as_str()));
        headers.push(header("Content-Type", "application/json"));
        headers.push(header("Accept", "application/json"));
        headers.push(header("Accept-Encoding", "gzip"));
        let query: Vec<(String, String)> = Vec::new();
        proof {
            assert(pair_views(headers@) =~= write_headers(self.config.api_key@));
            assert(pair_views(query@) =~= Seq::empty());
        }
        HttpRequest { method: Method::Post, url, headers, query, body: Some(data) }
    }

    /// A PUT request to upload data to a URL (used for presigned URLs)
    pub fn put(&self, url: &str, data: Vec<u8>, content_type: &str) -> (r: HttpRequest)
        ensures
            r@ == (HttpRequestView {
                method: Method::Put,
                url: url@,
                headers: upload_headers(content_type@, data@.len()),
                query: Seq::empty(),
                body: Some(data@),
            }),
    {
        let length = decimal_string(data.len() as u64);
        let mut headers: Vec<(String, String)> = Vec::new();
        headers.push(header("Content-Type", content_type));
        headers.push(header("Content-Length", length.as_str()));
        let query: Vec<(String, String)> = Vec::new();
        proof {
            assert(pair_views(headers@) =~= upload_headers(content_type@, data@.len()));
            assert(pair_views(query@) =~= Seq::empty());
        }
        HttpRequest { method: Method::Put, url: url.to_owned(), headers, query, body: Some(data) }
    }
}

} // verus!
