//! The login handshake and the session it ends in.
//!
//! A login is a short exchange: the credentials go to the launcher, which answers with an
//! access token; the token goes to the game backend, which answers with a session. A login
//! with a two-factor code sends that code first. The library decides each step and the
//! caller sends it: [`Handshake::begin`] gives the first [`Step`], and
//! [`Handshake::advance`] gives the next one for each [`Reply`].

use crate::config::{Config, ConfigView};
use crate::digest::{md5_hex_of_str, md5_hex_spec};
use crate::http::{
    post, post_spec, request_result_is, AuthMode, AuthModeView, Reply, Request, RequestView,
};
use crate::hwid::{generate_hwid, is_hwid};
use crate::json::{member, object, optional_text, texts_of, Json, JsonValue, Member};
use crate::text::{join, join4};
use crate::{
    call_spec, read_reply, read_reply_spec, reply_data, reply_data_spec, reply_status,
    reply_status_spec, status_of_reply, status_of_reply_spec, Error, Tarkov, TarkovView,
};
use vstd::prelude::*;
use vstd::utf8::encode_utf8;

verus! {

/// An error of the login calls.
#[derive(Debug, Clone, Copy, PartialEq, Eq, Structural)]
pub enum LoginError {
    /// Wrong email or password.
    BadLogin,
    /// A two-factor code is needed to go on.
    TwoFactorRequired,
    /// A captcha answer is needed to go on.
    CaptchaRequired,
    /// The two-factor code was wrong.
    BadTwoFactorCode,
    /// Too many login attempts.
    RateLimited,
    /// The backend expects another major version of the client.
    WrongMajorVersion,
}

/// A session with the backend, as the exchange of an access token returns it.
#[derive(Debug, Clone, PartialEq, Eq)]
pub struct Session {
    /// Whether the backend has put the login in a queue.
    pub queued: bool,
    /// The session cookie.
    pub session: String,
}

/// The mathematical value of a [`Session`].
pub struct SessionView {
    pub queued: bool,
    pub session: Seq<char>,
}

impl View for Session {
    type V = SessionView;

    open spec fn view(&self) -> SessionView {
        SessionView { queued: self.queued, session: self.session@ }
    }
}

/// The session that the data of a reply holds: a truth value under `queued` and a string
/// under `session`. Anything else is rejected with [`Error::Json`].
pub open spec fn session_spec(data: JsonValue) -> Result<SessionView, Error> {
    match (data.bool_at("queued"@), data.text_at("session"@)) {
        (Some(queued), Some(session)) => Ok(SessionView { queued, session }),
        _ => Err(Error::Json),
    }
}

impl Session {
    /// Reads a session from the data of a reply.
    pub fn from_json(data: &Json) -> (r: Result<Session, Error>)
        ensures
            match r {
                Ok(s) => session_spec(data@) == Ok::<SessionView, Error>(s@),
                Err(e) => session_spec(data@) == Err::<SessionView, Error>(e),
            },
    {
        match (data.bool_at("queued"), data.text_at("session")) {
            (Some(queued), Some(session)) => Ok(Session { queued, session }),
            _ => Err(Error::Json),
        }
    }
}

/// What the launcher returns for a login that it accepts.
#[derive(Debug, Clone, PartialEq, Eq)]
pub struct Auth {
    /// The account ID.
    pub aid: String,
    /// The language of the account.
    pub lang: String,
    /// The region of the account.
    pub region: Option<String>,
    /// The edition of the game that the account owns.
    pub game_version: Option<String>,
    /// The data centers that the account may use.
    pub data_centers: Vec<String>,
    /// The region of the address that logged in.
    pub ip_region: String,
    /// The kind of the access token.
    pub token_type: String,
    /// The number of seconds for which the access token is good.
    pub expires_in: u64,
    /// The access token.
    pub access_token: String,
    /// The token that renews the access token.
    pub refresh_token: String,
}

/// The mathematical value of an [`Auth`].
pub struct AuthView {
    pub aid: Seq<char>,
    pub lang: Seq<char>,
    pub region: Option<Seq<char>>,
    pub game_version: Option<Seq<char>>,
    pub data_centers: Seq<Seq<char>>,
    pub ip_region: Seq<char>,
    pub token_type: Seq<char>,
    pub expires_in: u64,
    pub access_token: Seq<char>,
    pub refresh_token: Seq<char>,
}

impl View for Auth {
    type V = AuthView;

    open spec fn view(&self) -> AuthView {
        AuthView {
            aid: self.aid@,
            lang: self.lang@,
            region: optional_text(self.region),
            game_version: optional_text(self.game_version),
            data_centers: texts_of(self.data_centers@),
            ip_region: self.ip_region@,
            token_type: self.token_type@,
            expires_in: self.expires_in,
            access_token: self.access_token@,
            refresh_token: self.refresh_token@,
        }
    }
}

/// Whether the data of a reply holds every field of an [`Auth`] in its type: strings
/// under `aid`, `lang`, `ipRegion`, `token_type`, `access_token` and `refresh_token`, a
/// string or nothing under `region` and `gameVersion`, an array of strings under
/// `dataCenters` and a whole number under `expires_in`.
pub open spec fn is_auth(data: JsonValue) -> bool {
    &&& data.text_at("aid"@) is Some
    &&& data.text_at("lang"@) is Some
    &&& data.optional_text_at("region"@) is Some
    &&& data.optional_text_at("gameVersion"@) is Some
    &&& data.texts_at("dataCenters"@) is Some
    &&& data.text_at("ipRegion"@) is Some
    &&& data.text_at("token_type"@) is Some
    &&& data.u64_at("expires_in"@) is Some
    &&& data.text_at("access_token"@) is Some
    &&& data.text_at("refresh_token"@) is Some
}

/// The login that the data of a reply holds. Data that lacks a field, or holds one in
/// another type, is rejected with [`Error::Json`].
pub open spec fn auth_spec(data: JsonValue) -> Result<AuthView, Error> {
    if is_auth(data) {
        Ok(
            AuthView {
                aid: data.text_at("aid"@)->Some_0,
                lang: data.text_at("lang"@)->Some_0,
                region: data.optional_text_at("region"@)->Some_0,
                game_version: data.optional_text_at("gameVersion"@)->Some_0,
                data_centers: data.texts_at("dataCenters"@)->Some_0,
                ip_region: data.text_at("ipRegion"@)->Some_0,
                token_type: data.text_at("token_type"@)->Some_0,
                expires_in: data.u64_at("expires_in"@)->Some_0,
                access_token: data.text_at("access_token"@)->Some_0,
                refresh_token: data.text_at("refresh_token"@)->Some_0,
            },
        )
    } else {
        Err(Error::Json)
    }
}

impl Auth {
    /// Reads a login from the data of a reply.
    pub fn from_json(data: &Json) -> (r: Result<Auth, Error>)
        ensures
            match r {
                Ok(a) => auth_spec(data@) == Ok::<AuthView, Error>(a@),
                Err(e) => auth_spec(data@) == Err::<AuthView, Error>(e),
            },
    {
        let aid = match data.text_at("aid") {
            Some(x) => x,
            None => return Err(Error::Json),
        };
        let lang = match data.text_at("lang") {
            Some(x) => x,
            None => return Err(Error::Json),
        };
        let region = match data.optional_text_at("region") {
            Some(x) => x,
            None => return Err(Error::Json),
        };
        let game_version = match data.optional_text_at("gameVersion") {
            Some(x) => x,
            None => return Err(Error::Json),
        };
        let data_centers = match data.texts_at("dataCenters") {
            Some(x) => x,
            None => return Err(Error::Json),
        };
        let ip_region = match data.text_at("ipRegion") {
            Some(x) => x,
            None => return Err(Error::Json),
        };
        let token_type = match data.text_at("token_type") {
            Some(x) => x,
            None => return Err(Error::Json),
        };
        let expires_in = match data.u64_at("expires_in") {
            Some(x) => x,
            None => return Err(Error::Json),
        };
        let access_token = match data.text_at("access_token") {
            Some(x) => x,
            None => return Err(Error::Json),
        };
        let refresh_token = match data.text_at("refresh_token") {
            Some(x) => x,
            None => return Err(Error::Json),
        };
        Ok(
            Auth {
                aid,
                lang,
                region,
                game_version,
                data_centers,
                ip_region,
                token_type,
                expires_in,
                access_token,
                refresh_token,
            },
        )
    }
}

/// The form in which a password goes to the backend: the MD5 digest of its UTF-8 bytes in
/// lower-case hexadecimal.
pub open spec fn password_hash(password: Seq<char>) -> Seq<char> {
    md5_hex_spec(encode_utf8(password))
}

/// The address of the login call.
pub open spec fn login_url(config: ConfigView) -> Seq<char> {
    config.launcher_endpoint + "/launcher/login?launcherVersion="@ + config.launcher_version
        + "&branch=live"@
}

/// The body of the login call.
pub open spec fn login_body(
    email: Seq<char>,
    pass: Seq<char>,
    captcha: Option<Seq<char>>,
    hwid: Seq<char>,
) -> JsonValue {
    JsonValue::Object(
        seq![
            ("email"@, JsonValue::Text(email)),
            ("pass"@, JsonValue::Text(pass)),
            ("hw_code"@, JsonValue::Text(hwid)),
            (
                "captcha"@,
                match captcha {
                    Some(c) => JsonValue::Text(c),
                    None => JsonValue::Null,
                },
            ),
        ],
    )
}

/// The login call for a password that is hashed already: it carries no credential in its
/// headers.
pub open spec fn login_request_spec(
    config: ConfigView,
    email: Seq<char>,
    pass: Seq<char>,
    captcha: Option<Seq<char>>,
    hwid: Seq<char>,
) -> Result<RequestView, Error> {
    post_spec(
        config,
        login_url(config),
        login_body(email, pass, captcha, hwid),
        AuthModeView::Anonymous,
    )
}

/// The characters of a string slice that may be absent.
pub open spec fn optional_str(text: Option<&str>) -> Option<Seq<char>> {
    match text {
        Some(t) => Some(t@),
        None => None,
    }
}

/// Builds the login call for a password that is hashed already.
pub fn login_request_hashed(
    config: &Config,
    email: &str,
    pass: &str,
    captcha: Option<&str>,
    hwid: &str,
) -> (r: Result<Request, Error>)
    ensures
        request_result_is(
            r,
            login_request_spec(config@, email@, pass@, optional_str(captcha), hwid@),
        ),
{
    let url = join4(
        config.launcher_endpoint.as_str(),
        "/launcher/login?launcherVersion=",
        config.launcher_version.as_str(),
        "&branch=live",
    );
    let mut members: Vec<Member> = Vec::new();
    members.push(member("email", Json::text(email)));
    members.push(member("pass", Json::text(pass)));
    members.push(member("hw_code", Json::text(hwid)));
    members.push(member("captcha", Json::text_or_null(captcha)));
    let body = object(members);
    assert(body@->Object_0 =~= login_body(email@, pass@, optional_str(captcha), hwid@)->Object_0);
    post(config, url, &body, &AuthMode::Anonymous)
}

/// Builds the login call: hashes the password and sends the hash in its place.
pub fn login_request(
    config: &Config,
    email: &str,
    password: &str,
    captcha: Option<&str>,
    hwid: &str,
) -> (r: Result<Request, Error>)
    ensures
        request_result_is(
            r,
            login_request_spec(
                config@,
                email@,
                password_hash(password@),
                optional_str(captcha),
                hwid@,
            ),
        ),
{
    let pass = md5_hex_of_str(password);
    login_request_hashed(config, email, pass.as_str(), captcha, hwid)
}

/// What the reply to the login call gives: the error of the reply, else the login that
/// its data holds.
pub open spec fn login_result_spec(reply: Result<JsonValue, Error>) -> Result<AuthView, Error> {
    match reply {
        Ok(tree) => match reply_data_spec(tree) {
            Ok(data) => auth_spec(data),
            Err(e) => Err(e),
        },
        Err(e) => Err(e),
    }
}

/// The address of the call that binds a hardware ID to an account.
pub open spec fn activate_url(config: ConfigView) -> Seq<char> {
    config.launcher_endpoint + "/launcher/hardwareCode/activate?launcherVersion="@
        + config.launcher_version
}

/// The body of the call that binds a hardware ID to an account.
pub open spec fn activate_body(email: Seq<char>, code: Seq<char>, hwid: Seq<char>) -> JsonValue {
    JsonValue::Object(
        seq![
            ("email"@, JsonValue::Text(email)),
            ("hw_code"@, JsonValue::Text(hwid)),
            ("activate_code"@, JsonValue::Text(code)),
        ],
    )
}

/// The call that binds a hardware ID to an account with a two-factor code.
pub open spec fn activate_request_spec(
    config: ConfigView,
    email: Seq<char>,
    code: Seq<char>,
    hwid: Seq<char>,
) -> Result<RequestView, Error> {
    post_spec(
        config,
        activate_url(config),
        activate_body(email, code, hwid),
        AuthModeView::Anonymous,
    )
}

/// Builds the call that binds a hardware ID to an account with a two-factor code.
pub fn activate_hardware(config: &Config, email: &str, code: &str, hwid: &str) -> (r: Result<
    Request,
    Error,
>)
    ensures
        request_result_is(r, activate_request_spec(config@, email@, code@, hwid@)),
{
    let url = join(
        config.launcher_endpoint.as_str(),
        "/launcher/hardwareCode/activate?launcherVersion=",
    ).concat(config.launcher_version.as_str());
    let mut members: Vec<Member> = Vec::new();
    members.push(member("email", Json::text(email)));
    members.push(member("hw_code", Json::text(hwid)));
    members.push(member("activate_code", Json::text(code)));
    let body = object(members);
    assert(body@->Object_0 =~= activate_body(email@, code@, hwid@)->Object_0);
    post(config, url, &body, &AuthMode::Anonymous)
}

/// The address of the call that exchanges an access token for a session.
pub open spec fn exchange_url(config: ConfigView) -> Seq<char> {
    config.prod_endpoint + "/launcher/game/start?launcherVersion="@ + config.launcher_version
        + "&branch=live"@
}

/// The body of the call that exchanges an access token for a session.
pub open spec fn exchange_body(config: ConfigView, hwid: Seq<char>) -> JsonValue {
    JsonValue::Object(
        seq![
            (
                "version"@,
                JsonValue::Object(
                    seq![
                        ("major"@, JsonValue::Text(config.game_version)),
                        ("game"@, JsonValue::Text("live"@)),
                        ("backend"@, JsonValue::Text("6"@)),
                    ],
                ),
            ),
            ("hw_code"@, JsonValue::Text(hwid)),
        ],
    )
}

/// The call that exchanges an access token for a session: it carries the token under
/// `Authorization`.
pub open spec fn exchange_request_spec(
    config: ConfigView,
    access_token: Seq<char>,
    hwid: Seq<char>,
) -> Result<RequestView, Error> {
    post_spec(
        config,
        exchange_url(config),
        exchange_body(config, hwid),
        AuthModeView::Bearer(access_token),
    )
}

/// Builds the call that exchanges an access token for a session.
pub fn exchange_access_token(config: &Config, access_token: &str, hwid: &str) -> (r: Result<
    Request,
    Error,
>)
    ensures
        request_result_is(r, exchange_request_spec(config@, access_token@, hwid@)),
{
    let url = join4(
        config.prod_endpoint.as_str(),
        "/launcher/game/start?launcherVersion=",
        config.launcher_version.as_str(),
        "&branch=live",
    );
    let mut version: Vec<Member> = Vec::new();
    version.push(member("major", Json::text(config.game_version.as_str())));
    version.push(member("game", Json::text("live")));
    version.push(member("backend", Json::text("6")));
    let version = object(version);
    assert(version@->Object_0 =~= exchange_body(config@, hwid@)->Object_0[0].1->Object_0);
    let mut members: Vec<Member> = Vec::new();
    members.push(member("version", version));
    members.push(member("hw_code", Json::text(hwid)));
    let body = object(members);
    assert(body@->Object_0 =~= exchange_body(config@, hwid@)->Object_0);
    post(config, url, &body, &AuthMode::Bearer(access_token.to_owned()))
}

/// What a login starts from.
#[derive(Debug, Clone, PartialEq, Eq)]
pub enum AuthInput {
    /// Email and password.
    Credentials { email: String, password: String, hwid: String },
    /// Email, password and the answer to a captcha.
    CredentialsWithCaptcha { email: String, password: String, captcha: String, hwid: String },
    /// Email, password and a two-factor code, which binds the hardware ID first.
    TwoFactorActivation { email: String, password: String, code: String, hwid: String },
    /// An access token: only its exchange for a session is left.
    BearerToken { token: String, hwid: String },
    /// A session that exists already: nothing is sent.
    ExistingSession { session: String },
}

/// The mathematical value of an [`AuthInput`].
pub enum AuthInputView {
    Credentials { email: Seq<char>, password: Seq<char>, hwid: Seq<char> },
    CredentialsWithCaptcha {
        email: Seq<char>,
        password: Seq<char>,
        captcha: Seq<char>,
        hwid: Seq<char>,
    },
    TwoFactorActivation { email: Seq<char>, password: Seq<char>, code: Seq<char>, hwid: Seq<char> },
    BearerToken { token: Seq<char>, hwid: Seq<char> },
    ExistingSession { session: Seq<char> },
}

impl View for AuthInput {
    type V = AuthInputView;

    open spec fn view(&self) -> AuthInputView {
        match self {
            AuthInput::Credentials { email, password, hwid } => AuthInputView::Credentials {
                email: email@,
                password: password@,
                hwid: hwid@,
            },
            AuthInput::CredentialsWithCaptcha {
                email,
                password,
                captcha,
                hwid,
            } => AuthInputView::CredentialsWithCaptcha {
                email: email@,
                password: password@,
                captcha: captcha@,
                hwid: hwid@,
            },
            AuthInput::TwoFactorActivation {
                email,
                password,
                code,
                hwid,
            } => AuthInputView::TwoFactorActivation {
                email: email@,
                password: password@,
                code: code@,
                hwid: hwid@,
            },
            AuthInput::BearerToken { token, hwid } => AuthInputView::BearerToken {
                token: token@,
                hwid: hwid@,
            },
            AuthInput::ExistingSession { session } => AuthInputView::ExistingSession {
                session: session@,
            },
        }
    }
}

/// The call that a login waits on.
#[derive(Debug, Clone, PartialEq, Eq)]
pub enum Stage {
    /// The two-factor code was sent to bind the hardware ID; the credentials come next.
    /// The password is held as its hash only.
    HardwareActivation { email: String, pass: String },
    /// The credentials were sent; the exchange of the access token comes next.
    CredentialsSubmitted,
    /// The access token was sent; the session comes next.
    TokenExchangePending,
}

/// The mathematical value of a [`Stage`].
pub enum StageView {
    HardwareActivation { email: Seq<char>, pass: Seq<char> },
    CredentialsSubmitted,
    TokenExchangePending,
}

impl View for Stage {
    type V = StageView;

    open spec fn view(&self) -> StageView {
        match self {
            Stage::HardwareActivation { email, pass } => StageView::HardwareActivation {
                email: email@,
                pass: pass@,
            },
            Stage::CredentialsSubmitted => StageView::CredentialsSubmitted,
            Stage::TokenExchangePending => StageView::TokenExchangePending,
        }
    }
}

/// A login under way: a call has been asked for and its reply is awaited. The hardware
/// ID of a login is never empty.
#[derive(Debug, PartialEq, Eq)]
pub struct Handshake {
    pub(crate) config: Config,
    pub(crate) hwid: String,
    pub(crate) stage: Stage,
}

/// The mathematical value of a [`Handshake`].
pub struct HandshakeView {
    pub config: ConfigView,
    pub hwid: Seq<char>,
    pub stage: StageView,
}

impl View for Handshake {
    type V = HandshakeView;

    closed spec fn view(&self) -> HandshakeView {
        HandshakeView { config: self.config@, hwid: self.hwid@, stage: self.stage@ }
    }
}

/// What a login asks of its caller next.
#[derive(Debug, PartialEq, Eq)]
pub enum Step {
    /// Send the request, and hand the reply to [`Handshake::advance`] of the login.
    Send(Handshake, Request),
    /// The login is done: this is the session.
    Established(Tarkov),
    /// The login has failed. Nothing more is sent; the caller may start again, with a
    /// captcha or a two-factor code where the error asks for one.
    Failed(Error),
}

/// The mathematical value of a [`Step`].
pub enum StepView {
    Send(HandshakeView, RequestView),
    Established(TarkovView),
    Failed(Error),
}

impl View for Step {
    type V = StepView;

    open spec fn view(&self) -> StepView {
        match self {
            Step::Send(next, request) => StepView::Send(next@, request@),
            Step::Established(t) => StepView::Established(t@),
            Step::Failed(e) => StepView::Failed(*e),
        }
    }
}

/// The step that asks for a request to be sent, or the failure to build that request.
pub open spec fn send_or_fail(
    next: HandshakeView,
    request: Result<RequestView, Error>,
) -> StepView {
    match request {
        Ok(r) => StepView::Send(next, r),
        Err(e) => StepView::Failed(e),
    }
}

/// The first step of a login. An input with an empty part fails with
/// [`Error::InvalidParameters`] before anything is sent. Credentials go to the launcher,
/// with the captcha if there is one; a two-factor code goes first and the credentials
/// wait; an access token goes straight to its exchange. An existing session is final at
/// once, with `fresh` for its hardware ID.
pub open spec fn begin_spec(
    config: ConfigView,
    input: AuthInputView,
    fresh: Seq<char>,
) -> StepView {
    match input {
        AuthInputView::Credentials { email, password, hwid } => {
            if email.len() == 0 || password.len() == 0 || hwid.len() == 0 {
                StepView::Failed(Error::InvalidParameters)
            } else {
                send_or_fail(
                    HandshakeView { config, hwid, stage: StageView::CredentialsSubmitted },
                    login_request_spec(config, email, password_hash(password), None, hwid),
                )
            }
        },
        AuthInputView::CredentialsWithCaptcha { email, password, captcha, hwid } => {
            if email.len() == 0 || password.len() == 0 || captcha.len() == 0 || hwid.len() == 0 {
                StepView::Failed(Error::InvalidParameters)
            } else {
                send_or_fail(
                    HandshakeView { config, hwid, stage: StageView::CredentialsSubmitted },
                    login_request_spec(
                        config,
                        email,
                        password_hash(password),
                        Some(captcha),
                        hwid,
                    ),
                )
            }
        },
        AuthInputView::TwoFactorActivation { email, password, code, hwid } => {
            if email.len() == 0 || password.len() == 0 || code.len() == 0 || hwid.len() == 0 {
                StepView::Failed(Error::InvalidParameters)
            } else {
                send_or_fail(
                    HandshakeView {
                        config,
                        hwid,
                        stage: StageView::HardwareActivation {
                            email,
                            pass: password_hash(password),
                        },
                    },
                    activate_request_spec(config, email, code, hwid),
                )
            }
        },
        AuthInputView::BearerToken { token, hwid } => {
            if token.len() == 0 || hwid.len() == 0 {
                StepView::Failed(Error::InvalidParameters)
            } else {
                send_or_fail(
                    HandshakeView { config, hwid, stage: StageView::TokenExchangePending },
                    exchange_request_spec(config, token, hwid),
                )
            }
        },
        AuthInputView::ExistingSession { session } => {
            if session.len() == 0 || fresh.len() == 0 {
                StepView::Failed(Error::InvalidParameters)
            } else {
                StepView::Established(TarkovView { config, hwid: fresh, session })
            }
        },
    }
}

/// The step that follows a reply. A reply that could not be opened, or that carries an
/// error code, ends the login with that error, whatever the stage. After the hardware ID
/// is bound, the credentials are sent. After the credentials, the access token of the
/// reply's data is sent to be exchanged. After the exchange, the session of the reply's
/// data is final. Data that says success and holds an empty token or session counts as
/// missing.
pub open spec fn advance_spec(login: HandshakeView, reply: Result<JsonValue, Error>) -> StepView {
    match reply {
        Err(e) => StepView::Failed(e),
        Ok(tree) => match login.stage {
            StageView::HardwareActivation { email, pass } => match reply_status_spec(tree) {
                Err(e) => StepView::Failed(e),
                Ok(_) => send_or_fail(
                    HandshakeView {
                        config: login.config,
                        hwid: login.hwid,
                        stage: StageView::CredentialsSubmitted,
                    },
                    login_request_spec(login.config, email, pass, None, login.hwid),
                ),
            },
            StageView::CredentialsSubmitted => match login_result_spec(reply) {
                Err(e) => StepView::Failed(e),
                Ok(auth) => if auth.access_token.len() == 0 {
                    StepView::Failed(Error::MissingData)
                } else {
                    send_or_fail(
                        HandshakeView {
                            config: login.config,
                            hwid: login.hwid,
                            stage: StageView::TokenExchangePending,
                        },
                        exchange_request_spec(login.config, auth.access_token, login.hwid),
                    )
                },
            },
            StageView::TokenExchangePending => match exchange_result_spec(reply) {
                Err(e) => StepView::Failed(e),
                Ok(session) => if session.session.len() == 0 {
                    StepView::Failed(Error::MissingData)
                } else {
                    StepView::Established(
                        TarkovView {
                            config: login.config,
                            hwid: login.hwid,
                            session: session.session,
                        },
                    )
                },
            },
        },
    }
}

/// What the reply to the exchange of an access token gives: the error of the reply, else
/// the session that its data holds.
pub open spec fn exchange_result_spec(reply: Result<JsonValue, Error>) -> Result<
    SessionView,
    Error,
> {
    match reply {
        Ok(tree) => match reply_data_spec(tree) {
            Ok(data) => session_spec(data),
            Err(e) => Err(e),
        },
        Err(e) => Err(e),
    }
}

/// A login that starts from credentials or a token never ends at once: it fails, or it
/// asks for a request to be sent. With an empty part it fails with
/// [`Error::InvalidParameters`], whatever the other parts are.
pub proof fn begin_sends_or_fails(config: ConfigView, input: AuthInputView, fresh: Seq<char>)
    requires
        !(input is ExistingSession),
    ensures
        !(begin_spec(config, input, fresh) is Established),
        input matches AuthInputView::Credentials { email, password, hwid } && (email.len() == 0
            || password.len() == 0 || hwid.len() == 0) ==> begin_spec(config, input, fresh)
            == StepView::Failed(Error::InvalidParameters),
        input matches AuthInputView::CredentialsWithCaptcha { email, password, captcha, hwid }
            && (email.len() == 0 || password.len() == 0 || captcha.len() == 0 || hwid.len() == 0)
            ==> begin_spec(config, input, fresh) == StepView::Failed(Error::InvalidParameters),
        input matches AuthInputView::TwoFactorActivation { email, password, code, hwid } && (
        email.len() == 0 || password.len() == 0 || code.len() == 0 || hwid.len() == 0)
            ==> begin_spec(config, input, fresh) == StepView::Failed(Error::InvalidParameters),
        input matches AuthInputView::BearerToken { token, hwid } && (token.len() == 0 || hwid.len()
            == 0) ==> begin_spec(config, input, fresh) == StepView::Failed(
            Error::InvalidParameters,
        ),
        begin_spec(config, input, fresh) matches StepView::Send(next, _) ==> next.hwid.len() > 0
            && next.config == config,
{
}

/// A session comes out of a login only from the reply to the exchange of the token, and
/// it is the session that the reply holds: never an empty one. The hardware ID and the
/// configuration of the login go on into it unchanged.
pub proof fn established_session_is_not_empty(login: HandshakeView, reply: Result<JsonValue, Error>)
    ensures
        advance_spec(login, reply) matches StepView::Established(t) ==> {
            &&& login.stage is TokenExchangePending
            &&& t.session.len() > 0
            &&& exchange_result_spec(reply) matches Ok(session) && session.session == t.session
            &&& t.hwid == login.hwid
            &&& t.config == login.config
        },
        advance_spec(login, reply) matches StepView::Send(next, _) ==> next.hwid == login.hwid
            && next.config == login.config,
{
}

/// Where a login stands after some replies: each reply goes to the login that waits for
/// it, and a login that has ended stays as it is.
pub open spec fn run_spec(step: StepView, replies: Seq<Result<JsonValue, Error>>) -> StepView
    decreases replies.len(),
{
    if replies.len() == 0 {
        step
    } else {
        match step {
            StepView::Send(login, _) => run_spec(
                advance_spec(login, replies[0]),
                replies.drop_first(),
            ),
            ended => ended,
        }
    }
}

/// Whether a step belongs to a login with the given configuration and hardware ID, and
/// holds no empty session.
pub open spec fn step_keeps(step: StepView, config: ConfigView, hwid: Seq<char>) -> bool {
    match step {
        StepView::Send(login, _) => login.config == config && login.hwid == hwid,
        StepView::Established(t) => t.config == config && t.hwid == hwid && t.session.len() > 0,
        StepView::Failed(_) => true,
    }
}

proof fn run_keeps(
    step: StepView,
    replies: Seq<Result<JsonValue, Error>>,
    config: ConfigView,
    hwid: Seq<char>,
)
    requires
        step_keeps(step, config, hwid),
    ensures
        step_keeps(run_spec(step, replies), config, hwid),
    decreases replies.len(),
{
    if replies.len() > 0 {
        if let StepView::Send(login, _) = step {
            established_session_is_not_empty(login, replies[0]);
            run_keeps(advance_spec(login, replies[0]), replies.drop_first(), config, hwid);
        }
    }
}

/// Whatever the backend replies, and however many replies there are, a login that starts
/// from credentials or a token with no empty part never ends in a session that is empty:
/// it ends in a session with the hardware ID and the configuration that it started with,
/// or in an error, or it still waits for a reply.
pub proof fn login_never_ends_in_an_empty_session(
    config: ConfigView,
    input: AuthInputView,
    replies: Seq<Result<JsonValue, Error>>,
)
    requires
        !(input is ExistingSession),
    ensures
        run_spec(begin_spec(config, input, Seq::empty()), replies) matches StepView::Established(
            t,
        ) ==> t.session.len() > 0 && t.hwid.len() > 0 && t.config == config,
        input matches AuthInputView::Credentials { hwid, .. } ==> step_keeps(
            run_spec(begin_spec(config, input, Seq::empty()), replies),
            config,
            hwid,
        ),
{
    let first = begin_spec(config, input, Seq::empty());
    begin_sends_or_fails(config, input, Seq::empty());
    match input {
        AuthInputView::Credentials { hwid, .. } => {
            run_keeps(first, replies, config, hwid);
        },
        AuthInputView::CredentialsWithCaptcha { hwid, .. } => {
            run_keeps(first, replies, config, hwid);
        },
        AuthInputView::TwoFactorActivation { hwid, .. } => {
            run_keeps(first, replies, config, hwid);
        },
        AuthInputView::BearerToken { hwid, .. } => {
            run_keeps(first, replies, config, hwid);
        },
        AuthInputView::ExistingSession { .. } => {},
    }
}

/// A reply that carries an error code ends the login with the error that stands for the
/// code, at every stage and whatever else the reply holds: nothing more is sent. So a
/// login with a two-factor code whose activation is refused never sends the credentials.
pub proof fn error_code_ends_the_login(login: HandshakeView, reply: JsonValue, code: u64)
    requires
        reply.u64_at("err"@) == Some(code),
        reply.optional_text_at("errmsg"@) is Some,
        code != 0,
    ensures
        crate::classify_spec(code).error() is Some,
        advance_spec(login, Ok(reply)) == StepView::Failed(
            crate::classify_spec(code).error()->Some_0,
        ),
{
}

/// A reply that could not be opened ends the login with the error of the opening, at
/// every stage.
pub proof fn unread_reply_ends_the_login(login: HandshakeView, e: Error)
    ensures
        advance_spec(login, Err(e)) == StepView::Failed(e),
{
}

/// The value of a decoded reply, or the error with which it could not be opened.
pub open spec fn reply_view(reply: Result<Json, Error>) -> Result<JsonValue, Error> {
    match reply {
        Ok(tree) => Ok(tree@),
        Err(e) => Err(e),
    }
}

/// Reads the login that a decoded reply to the login call holds.
pub fn login_result(reply: Result<Json, Error>) -> (r: Result<Auth, Error>)
    ensures
        match r {
            Ok(a) => login_result_spec(reply_view(reply)) == Ok::<AuthView, Error>(a@),
            Err(e) => login_result_spec(reply_view(reply)) == Err::<AuthView, Error>(e),
        },
{
    match reply {
        Ok(tree) => match reply_data(tree) {
            Ok(data) => Auth::from_json(&data),
            Err(e) => Err(e),
        },
        Err(e) => Err(e),
    }
}

/// Reads the session that a decoded reply to the exchange of an access token holds.
pub fn exchange_result(reply: Result<Json, Error>) -> (r: Result<Session, Error>)
    ensures
        match r {
            Ok(s) => exchange_result_spec(reply_view(reply)) == Ok::<SessionView, Error>(s@),
            Err(e) => exchange_result_spec(reply_view(reply)) == Err::<SessionView, Error>(e),
        },
{
    match reply {
        Ok(tree) => match reply_data(tree) {
            Ok(data) => Session::from_json(&data),
            Err(e) => Err(e),
        },
        Err(e) => Err(e),
    }
}

impl Handshake {
    #[verifier::type_invariant]
    spec fn valid(self) -> bool {
        self.hwid@.len() > 0
    }

    /// The hardware ID of this login. It is never empty.
    pub fn hwid(&self) -> (hwid: &str)
        ensures
            hwid@ == self@.hwid,
            hwid@.len() > 0,
    {
        proof {
            use_type_invariant(self);
        }
        self.hwid.as_str()
    }

    /// The call that this login waits on.
    pub fn stage(&self) -> (stage: &Stage)
        ensures
            stage@ == self@.stage,
    {
        &self.stage
    }

    /// The configuration of this login.
    pub fn config(&self) -> (config: &Config)
        ensures
            config@ == self@.config,
    {
        &self.config
    }

    fn send(config: Config, hwid: String, stage: Stage, request: Result<Request, Error>) -> (step:
        Step)
        requires
            hwid@.len() > 0,
        ensures
            step@ == send_or_fail(
                HandshakeView { config: config@, hwid: hwid@, stage: stage@ },
                match request {
                    Ok(r) => Ok::<RequestView, Error>(r@),
                    Err(e) => Err::<RequestView, Error>(e),
                },
            ),
    {
        match request {
            Ok(r) => Step::Send(Handshake { config, hwid, stage }, r),
            Err(e) => Step::Failed(e),
        }
    }

    /// The first step of a login, where `fresh` is the hardware ID for a session that
    /// exists already.
    pub fn begin_with(config: Config, input: AuthInput, fresh: String) -> (step: Step)
        ensures
            step@ == begin_spec(config@, input@, fresh@),
            step@ is Established ==> input@ is ExistingSession,
    {
        match input {
            AuthInput::Credentials { email, password, hwid } => {
                if email.as_str().is_empty() || password.as_str().is_empty()
                    || hwid.as_str().is_empty() {
                    return Step::Failed(Error::InvalidParameters);
                }
                let request = login_request(
                    &config,
                    email.as_str(),
                    password.as_str(),
                    None,
                    hwid.as_str(),
                );
                Handshake::send(config, hwid, Stage::CredentialsSubmitted, request)
            },
            AuthInput::CredentialsWithCaptcha { email, password, captcha, hwid } => {
                if email.as_str().is_empty() || password.as_str().is_empty()
                    || captcha.as_str().is_empty() || hwid.as_str().is_empty() {
                    return Step::Failed(Error::InvalidParameters);
                }
                let request = login_request(
                    &config,
                    email.as_str(),
                    password.as_str(),
                    Some(captcha.as_str()),
                    hwid.as_str(),
                );
                Handshake::send(config, hwid, Stage::CredentialsSubmitted, request)
            },
            AuthInput::TwoFactorActivation { email, password, code, hwid } => {
                if email.as_str().is_empty() || password.as_str().is_empty()
                    || code.as_str().is_empty() || hwid.as_str().is_empty() {
                    return Step::Failed(Error::InvalidParameters);
                }
                let request = activate_hardware(
                    &config,
                    email.as_str(),
                    code.as_str(),
                    hwid.as_str(),
                );
                let pass = md5_hex_of_str(password.as_str());
                Handshake::send(
                    config,
                    hwid,
                    Stage::HardwareActivation { email, pass },
                    request,
                )
            },
            AuthInput::BearerToken { token, hwid } => {
                if token.as_str().is_empty() || hwid.as_str().is_empty() {
                    return Step::Failed(Error::InvalidParameters);
                }
                let request = exchange_access_token(&config, token.as_str(), hwid.as_str());
                Handshake::send(config, hwid, Stage::TokenExchangePending, request)
            },
            AuthInput::ExistingSession { session } => {
                if session.as_str().is_empty() || fresh.as_str().is_empty() {
                    return Step::Failed(Error::InvalidParameters);
                }
                Step::Established(Tarkov::established(config, fresh, session))
            },
        }
    }

    /// The first step of a login. A session that exists already gets a hardware ID that
    /// is made for it.
    pub fn begin(config: Config, input: AuthInput) -> (step: Step)
        ensures
            match input@ {
                AuthInputView::ExistingSession { .. } => exists|fresh: Seq<char>|
                    is_hwid(fresh) && fresh.len() == 258 && step@ == #[trigger] begin_spec(
                        config@,
                        input@,
                        fresh,
                    ),
                _ => step@ == begin_spec(config@, input@, Seq::empty()),
            },
    {
        match input {
            AuthInput::ExistingSession { .. } => {
                let fresh = generate_hwid();
                Handshake::begin_with(config, input, fresh)
            },
            _ => Handshake::begin_with(config, input, String::new()),
        }
    }

    /// The step that follows a reply which is opened already.
    ///
    /// A session that comes out of a login is never empty, and neither is its hardware
    /// ID.
    pub fn advance_with(self, reply: Result<Json, Error>) -> (step: Step)
        ensures
            step@ == advance_spec(self@, reply_view(reply)),
            step@ matches StepView::Established(t) ==> t.session.len() > 0 && t.hwid.len() > 0,
    {
        proof {
            use_type_invariant(&self);
        }
        let Handshake { config, hwid, stage } = self;
        match stage {
            Stage::HardwareActivation { email, pass } => {
                let tree = match reply {
                    Ok(tree) => tree,
                    Err(e) => return Step::Failed(e),
                };
                match reply_status(&tree) {
                    Err(e) => Step::Failed(e),
                    Ok(_) => {
                        let request = login_request_hashed(
                            &config,
                            email.as_str(),
                            pass.as_str(),
                            None,
                            hwid.as_str(),
                        );
                        Handshake::send(config, hwid, Stage::CredentialsSubmitted, request)
                    },
                }
            },
            Stage::CredentialsSubmitted => match login_result(reply) {
                Err(e) => Step::Failed(e),
                Ok(auth) => {
                    if auth.access_token.as_str().is_empty() {
                        return Step::Failed(Error::MissingData);
                    }
                    let request = exchange_access_token(
                        &config,
                        auth.access_token.as_str(),
                        hwid.as_str(),
                    );
                    Handshake::send(config, hwid, Stage::TokenExchangePending, request)
                },
            },
            Stage::TokenExchangePending => match exchange_result(reply) {
                Err(e) => Step::Failed(e),
                Ok(session) => {
                    if session.session.as_str().is_empty() {
                        return Step::Failed(Error::MissingData);
                    }
                    Step::Established(Tarkov::established(config, hwid, session.session))
                },
            },
        }
    }

    /// The step that follows a reply: the reply is opened, and the login goes on from
    /// what it holds.
    pub fn advance(self, reply: &Reply) -> (step: Step)
        ensures
            step@ == advance_spec(self@, read_reply_spec(*reply)),
            step@ matches StepView::Established(t) ==> t.session.len() > 0 && t.hwid.len() > 0,
    {
        let opened = read_reply(reply);
        self.advance_with(opened)
    }
}

/// The address of the call that keeps a session alive.
pub open spec fn keep_alive_url(config: ConfigView) -> Seq<char> {
    config.prod_endpoint + "/client/game/keepalive"@
}

impl Tarkov {
    /// The call that keeps this session alive. The backend drops a session that is idle
    /// for about thirty seconds, so the caller sends this more often than that.
    pub fn keep_alive(&self) -> (r: Result<Request, Error>)
        ensures
            request_result_is(
                r,
                call_spec(self@, keep_alive_url(self@.config), JsonValue::Null),
            ),
    {
        let url = join(self.config().prod_endpoint.as_str(), "/client/game/keepalive");
        self.post_json(url, &Json::Null)
    }

    /// What the reply to [`Tarkov::keep_alive`] means: nothing on success, else the error
    /// of the reply. A session that has run out gives [`Error::NotAuthorized`].
    pub fn keep_alive_result(reply: &Reply) -> (r: Result<(), Error>)
        ensures
            r == status_of_reply_spec(*reply),
    {
        status_of_reply(reply)
    }
}

} // verus!
