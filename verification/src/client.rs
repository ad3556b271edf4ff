//! The transport client: which request carries a document to the server, and
//! what the server's answer means.

use crate::datum::Datum;
use crate::error::{EmitterError, EmitterResult};
use crate::metadata::Metadata;
use crate::text::starts_with;
use vstd::prelude::*;

verus! {

/// What a URL holds, as far as a request depends on it.
pub struct UrlParts {
    /// The scheme, without the colon.
    pub scheme: String,
    /// Whether the scheme is followed by an authority.
    pub has_authority: bool,
    /// The user name in the authority, empty where there is none.
    pub username: String,
    /// The password in the authority, if there is one.
    pub password: Option<String>,
}

/// `UrlParts` as contracts see them.
pub ghost struct UrlPartsView {
    pub scheme: Seq<char>,
    pub has_authority: bool,
    pub username: Seq<char>,
    pub password: Option<Seq<char>>,
}

impl View for UrlParts {
    type V = UrlPartsView;

    open spec fn view(&self) -> UrlPartsView {
        UrlPartsView {
            scheme: self.scheme@,
            has_authority: self.has_authority,
            username: self.username@,
            password: match self.password {
                Some(p) => Some(p@),
                None => None,
            },
        }
    }
}

/// What `hyper::Url::parse` makes of a text: `None` where it reports an error,
/// else the parsed URL's `scheme`, `has_authority`, `username` and `password`.
pub uninterp spec fn url_parts(uri: Seq<char>) -> Option<UrlPartsView>;

/// Calls `hyper::Url::parse` and takes from the URL its `scheme`, `has_authority`,
/// `username` and `password`; an error is handed on as the text it displays. The
/// contract claims that the outcome depends on the text alone and gives it the
/// name `url_parts`.
#[verifier::external_body]
pub(crate) fn parse_url(uri: &str) -> (r: Result<UrlParts, String>)
    ensures
        match r {
            Ok(parts) => url_parts(uri@) == Some(parts@),
            Err(_) => url_parts(uri@) is None,
        },
{
    match hyper::Url::parse(uri) {
        Ok(url) => Ok(
            UrlParts {
                scheme: url.scheme().to_string(),
                has_authority: url.has_authority(),
                username: url.username().to_string(),
                password: url.password().map(String::from),
            },
        ),
        Err(e) => Err(e.to_string()),
    }
}

/// A user name and a password for HTTP Basic authentication.
#[derive(Debug)]
pub struct Credentials {
    pub username: String,
    pub password: String,
}

/// An HTTP POST that is ready to be sent.
#[derive(Debug)]
pub struct Request {
    /// The URL to post to.
    pub url: String,
    /// Whether the transport has to be capable of TLS.
    pub secure: bool,
    /// The value of the `Content-Type` header.
    pub content_type: String,
    /// The credentials of the `Authorization` header, if one is to be set.
    pub credentials: Option<Credentials>,
    /// The JSON document to post.
    pub body: String,
}

/// What became of a request.
#[derive(Debug)]
pub enum Delivery {
    /// It could not be sent, or no connection could be made; carries the reason.
    Failed(String),
    /// The server answered.
    Answered {
        /// The status code of the answer.
        status: u16,
        /// The status as the transport displays it.
        status_text: String,
    },
}

/// The host starts with a scheme prefix: with `http://` or with `https://`.
pub open spec fn has_scheme(host: Seq<char>) -> bool {
    "http://"@.is_prefix_of(host) || "https://"@.is_prefix_of(host)
}

/// The URL of an API path on a host: the host and the path, after `http://`
/// where the host brings no scheme of its own.
pub open spec fn target_url(host: Seq<char>, path: Seq<char>) -> Seq<char> {
    if has_scheme(host) {
        host + path
    } else {
        "http://"@ + host + path
    }
}

/// The credentials a URL carries: its user name and password, where it has an
/// authority with a password.
pub open spec fn embedded_credentials(parts: UrlPartsView) -> Option<(Seq<char>, Seq<char>)> {
    if parts.has_authority && parts.password is Some {
        Some((parts.username, parts.password.unwrap()))
    } else {
        None
    }
}

impl Request {
    /// The credentials as a pair of user name and password.
    pub open spec fn credentials_view(&self) -> Option<(Seq<char>, Seq<char>)> {
        match self.credentials {
            Some(c) => Some((c.username@, c.password@)),
            None => None,
        }
    }

    /// The request posts a document to a URL with the given parts: over TLS
    /// exactly if the scheme is `https`, as JSON in UTF-8, and with the
    /// credentials that the URL carries.
    pub open spec fn posts(&self, url: Seq<char>, parts: UrlPartsView, json: Seq<char>) -> bool {
        &&& self.url@ == url
        &&& self.secure == (parts.scheme == "https"@)
        &&& self.content_type@ == "application/json; charset=utf-8"@
        &&& self.credentials_view() == embedded_credentials(parts)
        &&& self.body@ == json
    }

    /// Makes the request that posts a JSON document to a URL, given the URL's parts.
    pub fn new(url: String, parts: &UrlParts, json: &str) -> (request: Request)
        ensures
            request.posts(url@, parts@, json@),
    {
        let secure = parts.scheme == String::from_str("https");
        let credentials = if parts.has_authority {
            match &parts.password {
                Some(p) => Some(Credentials { username: parts.username.clone(), password: p.clone() }),
                None => None,
            }
        } else {
            None
        };
        Request {
            url: url,
            secure: secure,
            content_type: String::from_str("application/json; charset=utf-8"),
            credentials: credentials,
            body: String::from_str(json),
        }
    }
}

/// Builds the URL of an API path on a host.
pub fn build_url(host: &str, path: &str) -> (url: String)
    ensures
        url@ == target_url(host@, path@),
{
    if starts_with(host, "http://") || starts_with(host, "https://") {
        let mut url = String::from_str(host);
        url.append(path);
        url
    } else {
        let mut url = String::from_str("http://");
        url.append(host);
        url.append(path);
        url
    }
}

/// The meaning of what became of a request: an answer with status 204 is
/// success, an answer with any other status is a rejection that carries the
/// status, and a request that could not be delivered is a failed send that
/// carries the reason.
pub open spec fn classified(delivery: Delivery, r: EmitterResult) -> bool {
    match delivery {
        Delivery::Failed(reason) => r matches Err(EmitterError::EmitError(detail)) && detail@
            == reason@,
        Delivery::Answered { status, status_text } => if status == 204 {
            r is Ok
        } else {
            r matches Err(EmitterError::ReceiveError(detail)) && detail@ == status_text@
        },
    }
}

/// Encapsulates Bosun server connection.
#[derive(Debug)]
pub struct BosunClient {
    /// `<HOSTNAME|IP ADDR>:<PORT>`
    pub host: String,
}

impl BosunClient {
    /// Creates a new BosunClient.
    pub fn new(host: &str) -> (client: BosunClient)
        ensures
            client.host@ == host@,
    {
        BosunClient { host: String::from_str(host) }
    }

    /// What `emit_metadata` and `emit_datum` return for a document: the request
    /// that posts it to the API path on the host, or the failed send where the
    /// URL of that path cannot be parsed.
    pub open spec fn prepared(
        host: Seq<char>,
        path: Seq<char>,
        json: Seq<char>,
        r: Result<Request, EmitterError>,
    ) -> bool {
        let url = target_url(host, path);
        match r {
            Ok(request) => url_parts(url) is Some && request.posts(url, url_parts(url).unwrap(), json),
            Err(e) => url_parts(url) is None && e is EmitError,
        }
    }

    /// Prepares the request that sends metric meta data to the Bosun server: a
    /// POST of the meta data's JSON document to `/api/metadata/put`.
    pub fn emit_metadata(&self, metadata: &Metadata) -> (r: Result<Request, EmitterError>)
        ensures
            Self::prepared(self.host@, "/api/metadata/put"@, metadata.document(), r),
    {
        let encoded = match metadata.to_json() {
            Ok(text) => text,
            Err(e) => { return Err(e); },
        };
        BosunClient::send_to_bosun_api(self.host.as_str(), "/api/metadata/put", encoded.as_str())
    }

    /// Prepares the request that sends a metric datum to the Bosun server: a POST
    /// of the datum's JSON document to `/api/put`.
    pub fn emit_datum(&self, datum: &Datum) -> (r: Result<Request, EmitterError>)
        ensures
            Self::prepared(self.host@, "/api/put"@, datum.document(), r),
    {
        let encoded = match datum.to_json() {
            Ok(text) => text,
            Err(e) => { return Err(e); },
        };
        BosunClient::send_to_bosun_api(self.host.as_str(), "/api/put", encoded.as_str())
    }

    /// Prepares the POST of a JSON document to an API path on a host.
    pub fn send_to_bosun_api(host: &str, path: &str, json: &str) -> (r: Result<
        Request,
        EmitterError,
    >)
        ensures
            Self::prepared(host@, path@, json@, r),
    {
        let uri = build_url(host, path);
        match parse_url(uri.as_str()) {
            Ok(parts) => Ok(Request::new(uri, &parts, json)),
            Err(reason) => Err(EmitterError::EmitError(reason)),
        }
    }

    /// Classifies what became of a request.
    pub fn receive(delivery: Delivery) -> (r: EmitterResult)
        ensures
            classified(delivery, r),
    {
        match delivery {
            Delivery::Failed(reason) => Err(EmitterError::EmitError(reason)),
            Delivery::Answered { status, status_text } => {
                if status == 204 {
                    Ok(())
                } else {
                    Err(EmitterError::ReceiveError(status_text))
                }
            },
        }
    }
}

} // verus!
