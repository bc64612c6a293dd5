//! Requests and replies as plain values. The library builds the one and reads the other;
//! the caller carries them over the wire.

use crate::codec::{encode, encode_spec};
use crate::config::{Config, ConfigView};
use crate::json::{Json, JsonValue};
use crate::text::{join, join3};
use crate::Error;
use vstd::prelude::*;

verus! {

/// One header of a request.
#[derive(Debug, Clone, PartialEq, Eq)]
pub struct Header {
    /// The header's name.
    pub name: String,
    /// The header's value.
    pub value: String,
}

/// A request for the backend. Every request is an HTTP `POST`.
#[derive(Debug, Clone, PartialEq, Eq)]
pub struct Request {
    /// The address to post to.
    pub url: String,
    /// The headers, in the order in which they are set.
    pub headers: Vec<Header>,
    /// The body: JSON text.
    pub body: String,
}

/// The mathematical value of a [`Request`].
pub struct RequestView {
    pub url: Seq<char>,
    pub headers: Seq<(Seq<char>, Seq<char>)>,
    pub body: Seq<char>,
}

impl View for Header {
    type V = (Seq<char>, Seq<char>);

    open spec fn view(&self) -> (Seq<char>, Seq<char>) {
        (self.name@, self.value@)
    }
}

impl View for Request {
    type V = RequestView;

    open spec fn view(&self) -> RequestView {
        RequestView {
            url: self.url@,
            headers: Seq::new(self.headers@.len(), |i: int| self.headers@[i]@),
            body: self.body@,
        }
    }
}

/// Builds a header.
pub fn header(name: &str, value: String) -> (h: Header)
    ensures
        h@ == (name@, value@),
{
    Header { name: name.to_owned(), value }
}

/// How a request says who sends it.
#[derive(Debug, Clone, PartialEq, Eq)]
pub enum AuthMode {
    /// A launcher call before there is any credential.
    Anonymous,
    /// A launcher call that carries an access token.
    Bearer(String),
    /// A game call that carries the session as a cookie.
    SessionCookie(String),
}

/// The mathematical value of an [`AuthMode`].
pub enum AuthModeView {
    Anonymous,
    Bearer(Seq<char>),
    SessionCookie(Seq<char>),
}

impl View for AuthMode {
    type V = AuthModeView;

    open spec fn view(&self) -> AuthModeView {
        match self {
            AuthMode::Anonymous => AuthModeView::Anonymous,
            AuthMode::Bearer(token) => AuthModeView::Bearer(token@),
            AuthMode::SessionCookie(session) => AuthModeView::SessionCookie(session@),
        }
    }
}

/// The `User-Agent` of the launcher.
pub open spec fn launcher_agent(config: ConfigView) -> Seq<char> {
    "BSG Launcher "@ + config.launcher_version
}

/// The `User-Agent` of the game client.
pub open spec fn game_agent(config: ConfigView) -> Seq<char> {
    "UnityPlayer/"@ + config.unity_version + " (UnityWebRequest/1.0, libcurl/7.52.0-DEV)"@
}

/// The headers of a request, in order. Every request says that its body is JSON. A
/// launcher call names the launcher as its agent and carries the access token, if there
/// is one, under `Authorization`. A game call names the game client and its versions and
/// carries the session in the cookie `PHPSESSID`.
pub open spec fn headers_spec(config: ConfigView, auth: AuthModeView) -> Seq<
    (Seq<char>, Seq<char>),
> {
    match auth {
        AuthModeView::Anonymous => seq![
            ("Content-Type"@, "application/json"@),
            ("User-Agent"@, launcher_agent(config)),
        ],
        AuthModeView::Bearer(token) => seq![
            ("Content-Type"@, "application/json"@),
            ("User-Agent"@, launcher_agent(config)),
            ("Authorization"@, token),
        ],
        AuthModeView::SessionCookie(session) => seq![
            ("Content-Type"@, "application/json"@),
            ("User-Agent"@, game_agent(config)),
            ("App-Version"@, "EFT Client "@ + config.game_version),
            ("X-Unity-Version"@, config.unity_version),
            ("Cookie"@, "PHPSESSID="@ + session),
        ],
    }
}

/// The request that posts `body` to `url` in the given mode.
pub open spec fn request_spec(
    config: ConfigView,
    url: Seq<char>,
    body: Seq<char>,
    auth: AuthModeView,
) -> RequestView {
    RequestView { url, headers: headers_spec(config, auth), body }
}

/// Builds the request that posts `body` to `url` in the given mode.
pub fn build_request(config: &Config, url: String, body: String, auth: &AuthMode) -> (request:
    Request)
    ensures
        request@ == request_spec(config@, url@, body@, auth@),
{
    let mut headers: Vec<Header> = Vec::new();
    headers.push(header("Content-Type", "application/json".to_owned()));
    match auth {
        AuthMode::Anonymous => {
            let agent = join("BSG Launcher ", config.launcher_version.as_str());
            headers.push(header("User-Agent", agent));
        },
        AuthMode::Bearer(token) => {
            let agent = join("BSG Launcher ", config.launcher_version.as_str());
            headers.push(header("User-Agent", agent));
            headers.push(header("Authorization", token.clone()));
        },
        AuthMode::SessionCookie(session) => {
            headers.push(
                header(
                    "User-Agent",
                    join3(
                        "UnityPlayer/",
                        config.unity_version.as_str(),
                        " (UnityWebRequest/1.0, libcurl/7.52.0-DEV)",
                    ),
                ),
            );
            headers.push(header("App-Version", join("EFT Client ", config.game_version.as_str())));
            headers.push(header("X-Unity-Version", config.unity_version.clone()));
            headers.push(header("Cookie", join("PHPSESSID=", session.as_str())));
        },
    }
    let request = Request { url, headers, body };
    assert(request@.headers =~= headers_spec(config@, auth@));
    request
}

/// The request that posts a JSON value to `url` in the given mode, or the error with
/// which the value fails to be written.
pub open spec fn post_spec(
    config: ConfigView,
    url: Seq<char>,
    body: JsonValue,
    auth: AuthModeView,
) -> Result<RequestView, Error> {
    match encode_spec(body) {
        Ok(text) => Ok(request_spec(config, url, text, auth)),
        Err(e) => Err(e),
    }
}

/// Whether a result holds the request, or the error, that is expected of it.
pub open spec fn request_result_is(
    r: Result<Request, Error>,
    expected: Result<RequestView, Error>,
) -> bool {
    match r {
        Ok(request) => expected == Ok::<RequestView, Error>(request@),
        Err(e) => expected == Err::<RequestView, Error>(e),
    }
}

/// Builds the request that posts a JSON value to `url` in the given mode.
pub fn post(config: &Config, url: String, body: &Json, auth: &AuthMode) -> (r: Result<
    Request,
    Error,
>)
    ensures
        request_result_is(r, post_spec(config@, url@, body@, auth@)),
{
    match encode(body) {
        Ok(text) => Ok(build_request(config, url, text, auth)),
        Err(e) => Err(e),
    }
}

/// What came back for a request: the HTTP status and the body as it was received.
#[derive(Debug, Clone, PartialEq, Eq)]
pub struct Response {
    /// The HTTP status code.
    pub status: u16,
    /// The bytes of the body.
    pub body: Vec<u8>,
}

/// The outcome of sending a request.
#[derive(Debug, Clone, PartialEq, Eq)]
pub enum Reply {
    /// The backend answered.
    Received(Response),
    /// The request could not be put on the wire.
    Rejected,
    /// The connection failed before an answer came.
    Failed,
}

/// Whether an HTTP status is a success: one of the 2xx codes.
pub open spec fn is_success(status: u16) -> bool {
    200 <= status < 300
}

} // verus!
