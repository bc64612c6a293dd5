//! A client library for the Escape from Tarkov backend, written without I/O of its own.
//!
//! The library decides what is sent and what an answer means: it builds every request
//! (address, headers, body), inflates and parses every reply, maps the error code that a
//! reply carries to a typed error, and drives the login handshake step by step. The caller
//! owns the connection: it sends each [`http::Request`] and hands back a [`http::Reply`].
//!
//! To log in, start with [`Tarkov::login`], [`Tarkov::login_with_captcha`],
//! [`Tarkov::login_with_2fa`] or [`Tarkov::from_access_token`] and follow the
//! [`auth::Step`]s with [`auth::Handshake::advance`]; or take an existing session with
//! [`Tarkov::from_session`].

use vstd::prelude::*;

pub mod auth;
pub mod bad_json;
pub mod codec;
pub mod config;
pub mod constant;
pub mod digest;
pub mod friend;
pub mod http;
pub mod hwid;
pub mod inventory;
pub mod json;
pub mod market_filter;
pub mod profile;
pub mod ragfair;
pub mod text;
pub mod trading;

use crate::auth::{
    begin_spec, AuthInput, AuthInputView, Handshake, LoginError, Step, StepView,
};
use crate::codec::{decode, decode_spec};
use crate::config::{live_config, Config, ConfigView};
use crate::http::{
    is_success, post, post_spec, request_result_is, AuthMode, AuthModeView, Reply, Request,
    RequestView,
};
use crate::hwid::{generate_hwid, is_hwid};
use crate::json::{json_result_is, optional_text, Json, JsonValue};
use crate::profile::ProfileError;
use crate::ragfair::RagfairError;
use crate::trading::TradingError;

verus! {

/// What the error code of a reply means.
#[derive(Debug, Clone, Copy, PartialEq, Eq, Structural)]
pub enum ErrorKind {
    /// The call succeeded.
    Success,
    /// Not authorized, or no game profile is selected.
    NotAuthorized,
    /// The selected user does not exist.
    InvalidUserSelection,
    /// Wrong email or password.
    BadCredentials,
    /// Invalid or missing parameters.
    InvalidParameters,
    /// A two-factor code is needed to go on.
    TwoFactorRequired,
    /// The two-factor code was wrong.
    BadTwoFactorCode,
    /// A captcha answer is needed to go on.
    CaptchaRequired,
    /// Too many login attempts.
    RateLimited,
    /// The backend expects another client version.
    WrongClientVersion,
    /// The items offered in barter were not found or do not suffice.
    MarketInvalidBarterItems,
    /// The player has as many open offers as the market allows.
    MarketMaxOfferCount,
    /// The player cannot pay the market fee.
    MarketInsufficientFunds,
    /// The market offer does not exist.
    MarketOfferNotFound,
    /// The trader's loyalty level is too low for this item.
    TradeBadLoyaltyLevel,
    /// The market offer cannot be bought yet.
    MarketOfferNotAvailableYet,
    /// The trade failed.
    TradeTransactionError,
    /// The backend is down for maintenance.
    Maintenance,
    /// The backend failed and said no more.
    BackendError,
    /// A code that this library has no name for; the code is kept.
    UnknownApiError(u64),
}

/// The meaning of each error code. Every code but those listed is unknown, and `0` alone
/// is success.
pub open spec fn classify_spec(code: u64) -> ErrorKind {
    if code == 0 {
        ErrorKind::Success
    } else if code == 201 {
        ErrorKind::NotAuthorized
    } else if code == 205 {
        ErrorKind::InvalidUserSelection
    } else if code == 206 {
        ErrorKind::BadCredentials
    } else if code == 207 {
        ErrorKind::InvalidParameters
    } else if code == 209 {
        ErrorKind::TwoFactorRequired
    } else if code == 211 {
        ErrorKind::BadTwoFactorCode
    } else if code == 214 {
        ErrorKind::CaptchaRequired
    } else if code == 228 {
        ErrorKind::MarketInvalidBarterItems
    } else if code == 230 {
        ErrorKind::RateLimited
    } else if code == 232 {
        ErrorKind::WrongClientVersion
    } else if code == 263 {
        ErrorKind::Maintenance
    } else if code == 1000 {
        ErrorKind::BackendError
    } else if code == 1501 {
        ErrorKind::MarketMaxOfferCount
    } else if code == 1502 {
        ErrorKind::MarketInsufficientFunds
    } else if code == 1507 {
        ErrorKind::MarketOfferNotFound
    } else if code == 1510 {
        ErrorKind::TradeBadLoyaltyLevel
    } else if code == 1512 {
        ErrorKind::MarketOfferNotAvailableYet
    } else if code == 1514 {
        ErrorKind::TradeTransactionError
    } else {
        ErrorKind::UnknownApiError(code)
    }
}

/// Maps the error code of a reply to its meaning.
pub fn classify(code: u64) -> (kind: ErrorKind)
    ensures
        kind == classify_spec(code),
{
    match code {
        0 => ErrorKind::Success,
        201 => ErrorKind::NotAuthorized,
        205 => ErrorKind::InvalidUserSelection,
        206 => ErrorKind::BadCredentials,
        207 => ErrorKind::InvalidParameters,
        209 => ErrorKind::TwoFactorRequired,
        211 => ErrorKind::BadTwoFactorCode,
        214 => ErrorKind::CaptchaRequired,
        228 => ErrorKind::MarketInvalidBarterItems,
        230 => ErrorKind::RateLimited,
        232 => ErrorKind::WrongClientVersion,
        263 => ErrorKind::Maintenance,
        1000 => ErrorKind::BackendError,
        1501 => ErrorKind::MarketMaxOfferCount,
        1502 => ErrorKind::MarketInsufficientFunds,
        1507 => ErrorKind::MarketOfferNotFound,
        1510 => ErrorKind::TradeBadLoyaltyLevel,
        1512 => ErrorKind::MarketOfferNotAvailableYet,
        1514 => ErrorKind::TradeTransactionError,
        _ => ErrorKind::UnknownApiError(code),
    }
}

/// The error that most functions of this library return.
#[derive(Debug, Clone, Copy, PartialEq, Eq, Structural)]
pub enum Error {
    /// The body of a reply could not be inflated, or what it held was not UTF-8.
    Io,
    /// The request could not be put on the wire.
    Http,
    /// The connection failed before a reply came.
    Hyper,
    /// A reply was not the JSON that was expected, or a body could not be written as JSON.
    Json,
    /// The reply's HTTP status was not a success; the status is kept.
    Status(u16),
    /// Invalid or missing parameters.
    InvalidParameters,
    /// A reply said success and held no data where data was due.
    MissingData,
    /// An error code that this library has no name for; the code is kept.
    UnknownAPIError(u64),
    /// Not authorized, or no game profile is selected.
    NotAuthorized,
    /// The backend is down for maintenance.
    Maintenance,
    /// The backend failed and said no more.
    BackendError,
    /// An error of the login calls.
    LoginError(LoginError),
    /// An error of the profile calls.
    ProfileError(ProfileError),
    /// An error of the trading calls.
    TradingError(TradingError),
    /// An error of the flea market calls.
    RagfairError(RagfairError),
}

impl Error {
    /// Whether this error says that no reply came, or one with an HTTP status that is no
    /// success.
    pub open spec fn is_transport(self) -> bool {
        self is Http || self is Hyper || self is Status
    }

    /// Whether this error says that a reply could not be opened or was not what was
    /// expected.
    pub open spec fn is_codec(self) -> bool {
        self is Io || self is Json
    }

    /// Whether this error stands for an error code of the backend.
    pub open spec fn is_api(self) -> bool {
        exists|code: u64| #[trigger] classify_spec(code).error() == Some(self)
    }
}

impl ErrorKind {
    /// The error that stands for a kind; `None` for success.
    pub open spec fn error(self) -> Option<Error> {
        match self {
            ErrorKind::Success => None,
            ErrorKind::NotAuthorized => Some(Error::NotAuthorized),
            ErrorKind::InvalidUserSelection => Some(
                Error::ProfileError(ProfileError::InvalidUserID),
            ),
            ErrorKind::BadCredentials => Some(Error::LoginError(LoginError::BadLogin)),
            ErrorKind::InvalidParameters => Some(Error::InvalidParameters),
            ErrorKind::TwoFactorRequired => Some(Error::LoginError(LoginError::TwoFactorRequired)),
            ErrorKind::BadTwoFactorCode => Some(Error::LoginError(LoginError::BadTwoFactorCode)),
            ErrorKind::CaptchaRequired => Some(Error::LoginError(LoginError::CaptchaRequired)),
            ErrorKind::RateLimited => Some(Error::LoginError(LoginError::RateLimited)),
            ErrorKind::WrongClientVersion => Some(Error::LoginError(LoginError::WrongMajorVersion)),
            ErrorKind::MarketInvalidBarterItems => Some(
                Error::RagfairError(RagfairError::InvalidBarterItems),
            ),
            ErrorKind::MarketMaxOfferCount => Some(
                Error::RagfairError(RagfairError::MaxOfferCount),
            ),
            ErrorKind::MarketInsufficientFunds => Some(
                Error::RagfairError(RagfairError::InsufficientTaxFunds),
            ),
            ErrorKind::MarketOfferNotFound => Some(
                Error::RagfairError(RagfairError::OfferNotFound),
            ),
            ErrorKind::TradeBadLoyaltyLevel => Some(
                Error::TradingError(TradingError::BadLoyaltyLevel),
            ),
            ErrorKind::MarketOfferNotAvailableYet => Some(
                Error::RagfairError(RagfairError::OfferNotAvailableYet),
            ),
            ErrorKind::TradeTransactionError => Some(
                Error::TradingError(TradingError::TransactionError),
            ),
            ErrorKind::Maintenance => Some(Error::Maintenance),
            ErrorKind::BackendError => Some(Error::BackendError),
            ErrorKind::UnknownApiError(code) => Some(Error::UnknownAPIError(code)),
        }
    }

    /// The error that stands for this kind, if it is one.
    pub fn into_error(self) -> (e: Option<Error>)
        ensures
            e == self.error(),
    {
        match self {
            ErrorKind::Success => None,
            ErrorKind::NotAuthorized => Some(Error::NotAuthorized),
            ErrorKind::InvalidUserSelection => Some(
                Error::ProfileError(ProfileError::InvalidUserID),
            ),
            ErrorKind::BadCredentials => Some(Error::LoginError(LoginError::BadLogin)),
            ErrorKind::InvalidParameters => Some(Error::InvalidParameters),
            ErrorKind::TwoFactorRequired => Some(Error::LoginError(LoginError::TwoFactorRequired)),
            ErrorKind::BadTwoFactorCode => Some(Error::LoginError(LoginError::BadTwoFactorCode)),
            ErrorKind::CaptchaRequired => Some(Error::LoginError(LoginError::CaptchaRequired)),
            ErrorKind::RateLimited => Some(Error::LoginError(LoginError::RateLimited)),
            ErrorKind::WrongClientVersion => Some(Error::LoginError(LoginError::WrongMajorVersion)),
            ErrorKind::MarketInvalidBarterItems => Some(
                Error::RagfairError(RagfairError::InvalidBarterItems),
            ),
            ErrorKind::MarketMaxOfferCount => Some(
                Error::RagfairError(RagfairError::MaxOfferCount),
            ),
            ErrorKind::MarketInsufficientFunds => Some(
                Error::RagfairError(RagfairError::InsufficientTaxFunds),
            ),
            ErrorKind::MarketOfferNotFound => Some(
                Error::RagfairError(RagfairError::OfferNotFound),
            ),
            ErrorKind::TradeBadLoyaltyLevel => Some(
                Error::TradingError(TradingError::BadLoyaltyLevel),
            ),
            ErrorKind::MarketOfferNotAvailableYet => Some(
                Error::RagfairError(RagfairError::OfferNotAvailableYet),
            ),
            ErrorKind::TradeTransactionError => Some(
                Error::TradingError(TradingError::TransactionError),
            ),
            ErrorKind::Maintenance => Some(Error::Maintenance),
            ErrorKind::BackendError => Some(Error::BackendError),
            ErrorKind::UnknownApiError(code) => Some(Error::UnknownAPIError(code)),
        }
    }
}

/// The error part of a reply: the code, and the message if the backend gave one.
#[derive(Debug, Clone, PartialEq, Eq)]
pub struct ErrorResponse {
    /// The error code; `0` where the call succeeded.
    pub code: u64,
    /// The message that came with the code.
    pub message: Option<String>,
}

/// The code and the message that a reply carries under `err` and `errmsg`. A reply that
/// is no object, or has no whole number under `err`, or has anything but a string or
/// `null` under `errmsg`, is rejected with [`Error::Json`].
pub open spec fn envelope_spec(reply: JsonValue) -> Result<(u64, Option<Seq<char>>), Error> {
    match (reply.u64_at("err"@), reply.optional_text_at("errmsg"@)) {
        (Some(code), Some(message)) => Ok((code, message)),
        _ => Err(Error::Json),
    }
}

impl ErrorResponse {
    /// Reads the error part of a reply.
    pub fn from_json(reply: &Json) -> (r: Result<ErrorResponse, Error>)
        ensures
            match r {
                Ok(e) => envelope_spec(reply@) == Ok::<(u64, Option<Seq<char>>), Error>(
                    (e.code, optional_text(e.message)),
                ),
                Err(e) => envelope_spec(reply@) == Err::<(u64, Option<Seq<char>>), Error>(e),
            },
    {
        match (reply.u64_at("err"), reply.optional_text_at("errmsg")) {
            (Some(code), Some(message)) => Ok(ErrorResponse { code, message }),
            _ => Err(Error::Json),
        }
    }
}

/// What an error code means for a call that returns nothing: success for `0`, else the
/// error that stands for the code.
pub open spec fn handle_error2_spec(code: u64) -> Result<(), Error> {
    match classify_spec(code).error() {
        None => Ok(()),
        Some(e) => Err(e),
    }
}

/// Turns the error part of a reply into the result of a call that returns nothing.
pub fn handle_error2(error: ErrorResponse) -> (r: Result<(), Error>)
    ensures
        r == handle_error2_spec(error.code),
{
    match classify(error.code).into_error() {
        None => Ok(()),
        Some(e) => Err(e),
    }
}

/// Turns the error part of a reply and the data that came with it into the result of a
/// call. A reply that says success comes with data: the caller sees to that.
pub fn handle_error<T>(error: ErrorResponse, ret: Option<T>) -> (r: Result<T, Error>)
    requires
        error.code == 0 ==> ret is Some,
    ensures
        r == match handle_error2_spec(error.code) {
            Ok(_) => Ok::<T, Error>(ret->Some_0),
            Err(e) => Err::<T, Error>(e),
        },
{
    match handle_error2(error) {
        Ok(_) => match ret {
            Some(data) => Ok(data),
            None => Err(Error::MissingData),
        },
        Err(e) => Err(e),
    }
}

/// What a reply holds once it is opened. A request that was not sent gives
/// [`Error::Http`], a connection that failed gives [`Error::Hyper`], an HTTP status that
/// is no success gives [`Error::Status`] with the status, and the body is not looked at;
/// else the body is decoded.
pub open spec fn read_reply_spec(reply: Reply) -> Result<JsonValue, Error> {
    match reply {
        Reply::Received(response) => if is_success(response.status) {
            decode_spec(response.body@)
        } else {
            Err(Error::Status(response.status))
        },
        Reply::Rejected => Err(Error::Http),
        Reply::Failed => Err(Error::Hyper),
    }
}

/// Opens a reply: checks the HTTP status and decodes the body.
pub fn read_reply(reply: &Reply) -> (r: Result<Json, Error>)
    ensures
        json_result_is(r, read_reply_spec(*reply)),
{
    match reply {
        Reply::Received(response) => {
            if 200 <= response.status && response.status < 300 {
                decode(response.body.as_slice())
            } else {
                Err(Error::Status(response.status))
            }
        },
        Reply::Rejected => Err(Error::Http),
        Reply::Failed => Err(Error::Hyper),
    }
}

/// What a decoded reply means for a call that returns nothing.
pub open spec fn reply_status_spec(reply: JsonValue) -> Result<(), Error> {
    match envelope_spec(reply) {
        Ok((code, _)) => handle_error2_spec(code),
        Err(e) => Err(e),
    }
}

/// Reads the outcome of a call that returns nothing from a decoded reply.
pub fn reply_status(reply: &Json) -> (r: Result<(), Error>)
    ensures
        r == reply_status_spec(reply@),
{
    match ErrorResponse::from_json(reply) {
        Ok(error) => handle_error2(error),
        Err(e) => Err(e),
    }
}

/// The data of a decoded reply: the error that its code stands for; else what it holds
/// under `data`; else, where that is absent or `null`, [`Error::MissingData`].
pub open spec fn reply_data_spec(reply: JsonValue) -> Result<JsonValue, Error> {
    match reply_status_spec(reply) {
        Ok(_) => match reply.present("data"@) {
            Some(data) => Ok(data),
            None => Err(Error::MissingData),
        },
        Err(e) => Err(e),
    }
}

/// A decoded reply: its error part, and its data where it holds any.
#[derive(Debug, PartialEq, Eq)]
pub struct Envelope {
    /// The error part.
    pub error: ErrorResponse,
    /// What the reply holds under `data`; `None` where that is absent or `null`.
    pub data: Option<Json>,
}

/// The value of a JSON value that may be absent.
pub open spec fn optional_json(json: Option<Json>) -> Option<JsonValue> {
    match json {
        Some(j) => Some(j@),
        None => None,
    }
}

impl Envelope {
    /// What the data of this reply is worth: the error that the code stands for; else the
    /// data; else, where there is none, [`Error::MissingData`]. A reply that says success
    /// holds data, and one that does not is never taken for an empty success.
    pub open spec fn data_spec(self) -> Result<JsonValue, Error> {
        match handle_error2_spec(self.error.code) {
            Ok(_) => match self.data {
                Some(data) => Ok(data@),
                None => Err(Error::MissingData),
            },
            Err(e) => Err(e),
        }
    }

    /// Takes a decoded reply apart.
    pub fn from_json(reply: Json) -> (r: Result<Envelope, Error>)
        ensures
            match r {
                Ok(envelope) => {
                    &&& envelope_spec(reply@) == Ok::<(u64, Option<Seq<char>>), Error>(
                        (envelope.error.code, optional_text(envelope.error.message)),
                    )
                    &&& optional_json(envelope.data) == reply@.present("data"@)
                },
                Err(e) => envelope_spec(reply@) == Err::<(u64, Option<Seq<char>>), Error>(e),
            },
    {
        match ErrorResponse::from_json(&reply) {
            Ok(error) => Ok(Envelope { error, data: reply.take_present("data") }),
            Err(e) => Err(e),
        }
    }

    /// Takes the data out of this reply.
    pub fn into_data(self) -> (r: Result<Json, Error>)
        ensures
            json_result_is(r, self.data_spec()),
    {
        let Envelope { error, data } = self;
        match handle_error2(error) {
            Ok(_) => match data {
                Some(data) => Ok(data),
                None => Err(Error::MissingData),
            },
            Err(e) => Err(e),
        }
    }
}

/// Takes the data out of a decoded reply.
pub fn reply_data(reply: Json) -> (r: Result<Json, Error>)
    ensures
        json_result_is(r, reply_data_spec(reply@)),
{
    match Envelope::from_json(reply) {
        Ok(envelope) => envelope.into_data(),
        Err(e) => Err(e),
    }
}

/// What a reply means for a call that returns nothing.
pub open spec fn status_of_reply_spec(reply: Reply) -> Result<(), Error> {
    match read_reply_spec(reply) {
        Ok(tree) => reply_status_spec(tree),
        Err(e) => Err(e),
    }
}

/// Reads the outcome of a call that returns nothing from a reply.
pub fn status_of_reply(reply: &Reply) -> (r: Result<(), Error>)
    ensures
        r == status_of_reply_spec(*reply),
{
    match read_reply(reply) {
        Ok(tree) => reply_status(&tree),
        Err(e) => Err(e),
    }
}

/// The data that a reply holds.
pub open spec fn data_of_reply_spec(reply: Reply) -> Result<JsonValue, Error> {
    match read_reply_spec(reply) {
        Ok(tree) => reply_data_spec(tree),
        Err(e) => Err(e),
    }
}

/// Takes the data out of a reply.
pub fn data_of_reply(reply: &Reply) -> (r: Result<Json, Error>)
    ensures
        json_result_is(r, data_of_reply_spec(*reply)),
{
    match read_reply(reply) {
        Ok(tree) => reply_data(tree),
        Err(e) => Err(e),
    }
}

/// The request of a call with a session: `body` posted to `url` with the headers of the
/// game client and the session cookie, or the error with which the body fails to be
/// written.
pub open spec fn call_spec(t: TarkovView, url: Seq<char>, body: JsonValue) -> Result<
    RequestView,
    Error,
> {
    post_spec(t.config, url, body, AuthModeView::SessionCookie(t.session))
}

/// A session with the backend: the handle for every call that needs one.
///
/// A value always holds a session and a hardware ID that are not empty, and nothing in it
/// changes once it is made.
#[derive(Debug, PartialEq, Eq)]
pub struct Tarkov {
    pub(crate) config: Config,
    pub(crate) hwid: String,
    pub(crate) session: String,
}

/// The mathematical value of a [`Tarkov`].
pub struct TarkovView {
    pub config: ConfigView,
    pub hwid: Seq<char>,
    pub session: Seq<char>,
}

impl View for Tarkov {
    type V = TarkovView;

    closed spec fn view(&self) -> TarkovView {
        TarkovView { config: self.config@, hwid: self.hwid@, session: self.session@ }
    }
}

impl Tarkov {
    #[verifier::type_invariant]
    spec fn valid(self) -> bool {
        self.hwid@.len() > 0 && self.session@.len() > 0
    }

    /// Makes the handle for a session that is known not to be empty.
    pub(crate) fn established(config: Config, hwid: String, session: String) -> (t: Tarkov)
        requires
            hwid@.len() > 0,
            session@.len() > 0,
        ensures
            t@ == (TarkovView { config: config@, hwid: hwid@, session: session@ }),
    {
        Tarkov { config, hwid, session }
    }

    /// The hardware ID. It is never empty.
    pub fn hwid(&self) -> (hwid: &str)
        ensures
            hwid@ == self@.hwid,
            hwid@.len() > 0,
    {
        proof {
            use_type_invariant(self);
        }
        self.hwid.as_str()
    }

    /// The session cookie. It is never empty.
    pub fn session(&self) -> (session: &str)
        ensures
            session@ == self@.session,
            session@.len() > 0,
    {
        proof {
            use_type_invariant(self);
        }
        self.session.as_str()
    }

    /// The configuration that the session was made with.
    pub fn config(&self) -> (config: &Config)
        ensures
            config@ == self@.config,
    {
        &self.config
    }

    /// Starts a login with email and password on the live backend.
    ///
    /// Fails with [`Error::InvalidParameters`], and asks for nothing to be sent, where one
    /// of the three is empty.
    pub fn login(email: &str, password: &str, hwid: &str) -> (step: Step)
        ensures
            step@ == begin_spec(
                live_config(),
                AuthInputView::Credentials { email: email@, password: password@, hwid: hwid@ },
                Seq::empty(),
            ),
            email@.len() == 0 || password@.len() == 0 || hwid@.len() == 0 ==> step@
                == StepView::Failed(Error::InvalidParameters),
            !(step@ is Established),
    {
        Handshake::begin_with(
            Config::live(),
            AuthInput::Credentials {
                email: email.to_owned(),
                password: password.to_owned(),
                hwid: hwid.to_owned(),
            },
            String::new(),
        )
    }

    /// Starts a login with email, password and the answer to a captcha on the live
    /// backend.
    ///
    /// Fails with [`Error::InvalidParameters`], and asks for nothing to be sent, where one
    /// of the four is empty.
    pub fn login_with_captcha(email: &str, password: &str, captcha: &str, hwid: &str) -> (step:
        Step)
        ensures
            step@ == begin_spec(
                live_config(),
                AuthInputView::CredentialsWithCaptcha {
                    email: email@,
                    password: password@,
                    captcha: captcha@,
                    hwid: hwid@,
                },
                Seq::empty(),
            ),
            email@.len() == 0 || password@.len() == 0 || captcha@.len() == 0 || hwid@.len() == 0
                ==> step@ == StepView::Failed(Error::InvalidParameters),
            !(step@ is Established),
    {
        Handshake::begin_with(
            Config::live(),
            AuthInput::CredentialsWithCaptcha {
                email: email.to_owned(),
                password: password.to_owned(),
                captcha: captcha.to_owned(),
                hwid: hwid.to_owned(),
            },
            String::new(),
        )
    }

    /// Starts a login with email, password and a two-factor code on the live backend: the
    /// code first binds the hardware ID to the account, the credentials follow.
    ///
    /// Fails with [`Error::InvalidParameters`], and asks for nothing to be sent, where one
    /// of the four is empty.
    pub fn login_with_2fa(email: &str, password: &str, code: &str, hwid: &str) -> (step: Step)
        ensures
            step@ == begin_spec(
                live_config(),
                AuthInputView::TwoFactorActivation {
                    email: email@,
                    password: password@,
                    code: code@,
                    hwid: hwid@,
                },
                Seq::empty(),
            ),
            email@.len() == 0 || password@.len() == 0 || code@.len() == 0 || hwid@.len() == 0
                ==> step@ == StepView::Failed(Error::InvalidParameters),
            !(step@ is Established),
    {
        Handshake::begin_with(
            Config::live(),
            AuthInput::TwoFactorActivation {
                email: email.to_owned(),
                password: password.to_owned(),
                code: code.to_owned(),
                hwid: hwid.to_owned(),
            },
            String::new(),
        )
    }

    /// Starts a login with an access token on the live backend: only the exchange of the
    /// token for a session is left to do.
    ///
    /// Fails with [`Error::InvalidParameters`], and asks for nothing to be sent, where the
    /// token or the hardware ID is empty.
    pub fn from_access_token(access_token: &str, hwid: &str) -> (step: Step)
        ensures
            step@ == begin_spec(
                live_config(),
                AuthInputView::BearerToken { token: access_token@, hwid: hwid@ },
                Seq::empty(),
            ),
            access_token@.len() == 0 || hwid@.len() == 0 ==> step@ == StepView::Failed(
                Error::InvalidParameters,
            ),
            !(step@ is Established),
    {
        Handshake::begin_with(
            Config::live(),
            AuthInput::BearerToken { token: access_token.to_owned(), hwid: hwid.to_owned() },
            String::new(),
        )
    }

    /// Takes an existing session for the live backend, with a fresh hardware ID. Nothing
    /// is sent, so nothing is known of the session until the first call with it.
    pub fn from_session(session: &str) -> (t: Tarkov)
        requires
            session@.len() > 0,
        ensures
            t@.session == session@,
            t@.config == live_config(),
            is_hwid(t@.hwid),
    {
        Tarkov::established(Config::live(), generate_hwid(), session.to_owned())
    }

    /// The request of a call with this session: `body` posted to `url` with the headers of
    /// the game client and the session cookie.
    pub fn post_json(&self, url: String, body: &Json) -> (r: Result<Request, Error>)
        ensures
            request_result_is(r, call_spec(self@, url@, body@)),
    {
        post(&self.config, url, body, &AuthMode::SessionCookie(self.session.clone()))
    }
}

/// A code is classified in one way only, whenever it is asked; `0` is success, and no
/// other code is.
pub proof fn classify_is_a_function(a: u64, b: u64)
    ensures
        a == b ==> classify_spec(a) == classify_spec(b),
        classify_spec(0) == ErrorKind::Success,
        classify_spec(a) == ErrorKind::Success <==> a == 0,
{
}

/// The errors of the wire and the errors of the backend are never taken for each other:
/// no error code stands for a failure to send, to receive or to open a reply, and a reply
/// that cannot be opened never gives an error that a code stands for, nor a success.
pub proof fn transport_and_api_errors_are_apart(code: u64, reply: Reply)
    ensures
        classify_spec(code).error() matches Some(e) ==> e.is_api() && !e.is_transport()
            && !e.is_codec() && e != Error::MissingData,
        read_reply_spec(reply) matches Err(e) ==> (e.is_transport() || e.is_codec())
            && !e.is_api(),
        read_reply_spec(reply) matches Err(e) ==> (e.is_transport() <==> !(reply
            matches Reply::Received(r) && is_success(r.status))),
{
    assert forall|e: Error| e.is_transport() || e.is_codec() implies !e.is_api() by {
        assert forall|c: u64| #[trigger] classify_spec(c).error() != Some(e) by {}
    }
}

/// A code that has no name is kept as it came.
pub proof fn unknown_code_is_kept(code: u64)
    ensures
        classify_spec(code) is UnknownApiError ==> classify_spec(code)
            == ErrorKind::UnknownApiError(code),
        classify_spec(code).error() is None <==> code == 0,
{
}

} // verus!
