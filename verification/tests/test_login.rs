use std::io::Write;
use tarkov::auth::{
    activate_hardware, exchange_access_token, login_request, Auth, AuthInput, Handshake,
    LoginError, Session, Stage, Step,
};
use tarkov::config::Config;
use tarkov::http::{Header, Reply, Request, Response};
use tarkov::json::{parse, Json};
use tarkov::{Error, Tarkov};

const AUTH: &str = "{\"aid\":\"1234\",\"lang\":\"en\",\"region\":null,\"gameVersion\":\"edge_of_darkness\",\"dataCenters\":[\"eu-west\",\"us-east\"],\"ipRegion\":\"eu\",\"token_type\":\"bearer\",\"expires_in\":3600,\"access_token\":\"token-1\",\"refresh_token\":\"refresh-1\"}";

fn compress(data: &[u8]) -> Vec<u8> {
    let mut encoder = flate2::write::ZlibEncoder::new(Vec::new(), flate2::Compression::default());
    encoder.write_all(data).unwrap();
    encoder.finish().unwrap()
}

fn reply(status: u16, body: &str) -> Reply {
    Reply::Received(Response { status, body: compress(body.as_bytes()) })
}

fn failure(code: u64) -> Reply {
    reply(200, &format!("{{\"err\":{},\"errmsg\":\"no\",\"data\":null}}", code))
}

fn success(data: &str) -> Reply {
    reply(200, &format!("{{\"err\":0,\"errmsg\":null,\"data\":{}}}", data))
}

fn sent(step: Step) -> (Handshake, Request) {
    match step {
        Step::Send(login, request) => (login, request),
        other => panic!("nothing to send: {:?}", other),
    }
}

fn established(step: Step) -> Tarkov {
    match step {
        Step::Established(t) => t,
        other => panic!("no session: {:?}", other),
    }
}

fn failed(step: Step) -> Error {
    match step {
        Step::Failed(e) => e,
        other => panic!("no failure: {:?}", other),
    }
}

fn header(name: &str, value: &str) -> Header {
    Header { name: name.to_string(), value: value.to_string() }
}

fn text(s: &str) -> Json {
    Json::Text(s.to_string())
}

#[test]
fn login_with_nothing_fails_before_anything_is_sent() {
    assert_eq!(failed(Tarkov::login("", "", "")), Error::InvalidParameters);
}

#[test]
fn login_with_an_empty_part_fails_before_anything_is_sent() {
    assert_eq!(failed(Tarkov::login("", "pw", "hwid-1")), Error::InvalidParameters);
    assert_eq!(failed(Tarkov::login("a@b.com", "", "hwid-1")), Error::InvalidParameters);
    assert_eq!(failed(Tarkov::login("a@b.com", "pw", "")), Error::InvalidParameters);
    assert_eq!(
        failed(Tarkov::login_with_captcha("a@b.com", "pw", "", "hwid-1")),
        Error::InvalidParameters
    );
    assert_eq!(
        failed(Tarkov::login_with_captcha("", "pw", "captcha", "hwid-1")),
        Error::InvalidParameters
    );
    assert_eq!(
        failed(Tarkov::login_with_2fa("a@b.com", "pw", "", "hwid-1")),
        Error::InvalidParameters
    );
    assert_eq!(
        failed(Tarkov::login_with_2fa("a@b.com", "pw", "123456", "")),
        Error::InvalidParameters
    );
    assert_eq!(failed(Tarkov::from_access_token("", "hwid-1")), Error::InvalidParameters);
    assert_eq!(failed(Tarkov::from_access_token("token", "")), Error::InvalidParameters);
}

#[test]
fn login_sends_the_credentials_first() {
    let (login, request) = sent(Tarkov::login("a@b.com", "password", "hwid-1"));
    assert_eq!(login.stage(), &Stage::CredentialsSubmitted);
    assert_eq!(login.hwid(), "hwid-1");
    assert_eq!(login.config(), &Config::live());
    assert_eq!(
        request.url,
        "https://launcher.escapefromtarkov.com/launcher/login?launcherVersion=10.1.0.1116&branch=live"
    );
    assert_eq!(
        request.headers,
        vec![
            header("Content-Type", "application/json"),
            header("User-Agent", "BSG Launcher 10.1.0.1116"),
        ]
    );
    let body = parse(&request.body).unwrap();
    assert_eq!(body.get("email"), Some(&text("a@b.com")));
    assert_eq!(body.get("pass"), Some(&text("5f4dcc3b5aa765d61d8327deb882cf99")));
    assert_eq!(body.get("hw_code"), Some(&text("hwid-1")));
    assert_eq!(body.get("captcha"), Some(&Json::Null));
    assert_eq!(
        request.body,
        "{\"captcha\":null,\"email\":\"a@b.com\",\"hw_code\":\"hwid-1\",\"pass\":\"5f4dcc3b5aa765d61d8327deb882cf99\"}"
    );
}

#[test]
fn the_password_is_never_sent_as_it_is() {
    let (_, request) = sent(Tarkov::login("a@b.com", "correct horse", "hwid-1"));
    assert!(!request.body.contains("correct horse"));
    let (login, request) = sent(Tarkov::login_with_2fa("a@b.com", "correct horse", "123456", "hwid-1"));
    assert!(!request.body.contains("correct horse"));
    assert!(!format!("{:?}", login).contains("correct horse"));
}

#[test]
fn login_with_captcha_sends_the_captcha() {
    let (login, request) = sent(Tarkov::login_with_captcha("a@b.com", "pw", "solved", "hwid-1"));
    assert_eq!(login.stage(), &Stage::CredentialsSubmitted);
    let body = parse(&request.body).unwrap();
    assert_eq!(body.get("captcha"), Some(&text("solved")));
    assert_eq!(body.get("pass"), Some(&text("8fe4c11451281c094a6578e6ddbf5eed")));
}

#[test]
fn login_goes_on_to_exchange_the_token_and_ends_in_a_session() {
    let (login, _) = sent(Tarkov::login("a@b.com", "password", "hwid-1"));
    let (login, request) = sent(login.advance(&success(AUTH)));
    assert_eq!(login.stage(), &Stage::TokenExchangePending);
    assert_eq!(
        request.url,
        "https://prod.escapefromtarkov.com/launcher/game/start?launcherVersion=10.1.0.1116&branch=live"
    );
    assert_eq!(
        request.headers,
        vec![
            header("Content-Type", "application/json"),
            header("User-Agent", "BSG Launcher 10.1.0.1116"),
            header("Authorization", "token-1"),
        ]
    );
    assert_eq!(
        request.body,
        "{\"hw_code\":\"hwid-1\",\"version\":{\"backend\":\"6\",\"game\":\"live\",\"major\":\"0.12.5.7295\"}}"
    );
    let t = established(login.advance(&success("{\"queued\":false,\"session\":\"abc123\"}")));
    assert_eq!(t.session(), "abc123");
    assert_eq!(t.hwid(), "hwid-1");
    assert_eq!(t.config(), &Config::live());
}

#[test]
fn login_returns_the_error_of_the_reply() {
    let login = || sent(Tarkov::login("a@b.com", "pw", "hwid-1")).0;
    assert_eq!(
        failed(login().advance(&failure(209))),
        Error::LoginError(LoginError::TwoFactorRequired)
    );
    assert_eq!(
        failed(login().advance(&failure(214))),
        Error::LoginError(LoginError::CaptchaRequired)
    );
    assert_eq!(failed(login().advance(&failure(206))), Error::LoginError(LoginError::BadLogin));
    assert_eq!(failed(login().advance(&failure(9999))), Error::UnknownAPIError(9999));
    assert_eq!(failed(login().advance(&failure(230))), Error::LoginError(LoginError::RateLimited));
    assert_eq!(
        failed(login().advance(&failure(232))),
        Error::LoginError(LoginError::WrongMajorVersion)
    );
    assert_eq!(failed(login().advance(&failure(263))), Error::Maintenance);
}

#[test]
fn an_error_code_wins_over_the_data() {
    let (login, _) = sent(Tarkov::login("a@b.com", "pw", "hwid-1"));
    let step = login.advance(&reply(200, &format!("{{\"err\":206,\"errmsg\":null,\"data\":{}}}", AUTH)));
    assert_eq!(failed(step), Error::LoginError(LoginError::BadLogin));
}

#[test]
fn a_failed_exchange_ends_the_login() {
    let exchange = || sent(Tarkov::from_access_token("token-1", "hwid-1")).0;
    assert_eq!(failed(exchange().advance(&failure(201))), Error::NotAuthorized);
    assert_eq!(
        failed(exchange().advance(&failure(232))),
        Error::LoginError(LoginError::WrongMajorVersion)
    );
    assert_eq!(failed(exchange().advance(&failure(1000))), Error::BackendError);
}

#[test]
fn a_status_that_is_no_success_ends_the_login() {
    let login = || sent(Tarkov::login("a@b.com", "pw", "hwid-1")).0;
    assert_eq!(failed(login().advance(&reply(500, "{\"err\":0}"))), Error::Status(500));
    assert_eq!(failed(login().advance(&reply(404, ""))), Error::Status(404));
    assert_eq!(failed(login().advance(&reply(199, ""))), Error::Status(199));
    assert_eq!(failed(login().advance(&reply(300, ""))), Error::Status(300));
    let unread = Reply::Received(Response { status: 502, body: vec![1, 2, 3] });
    assert_eq!(failed(login().advance(&unread)), Error::Status(502));
}

#[test]
fn any_success_status_is_read() {
    let login = sent(Tarkov::login("a@b.com", "pw", "hwid-1")).0;
    let step = login.advance(&reply(204, "{\"err\":206,\"errmsg\":null}"));
    assert_eq!(failed(step), Error::LoginError(LoginError::BadLogin));
}

#[test]
fn a_reply_that_cannot_be_opened_ends_the_login() {
    let login = || sent(Tarkov::login("a@b.com", "pw", "hwid-1")).0;
    let plain = Reply::Received(Response { status: 200, body: b"{\"err\":0}".to_vec() });
    assert_eq!(failed(login().advance(&plain)), Error::Io);
    assert_eq!(failed(login().advance(&reply(200, "<html>"))), Error::Json);
    assert_eq!(failed(login().advance(&reply(200, "[]"))), Error::Json);
    assert_eq!(failed(login().advance(&reply(200, "{\"err\":\"0\"}"))), Error::Json);
    assert_eq!(failed(login().advance(&reply(200, "{\"err\":-1}"))), Error::Json);
    assert_eq!(failed(login().advance(&reply(200, "{\"err\":0,\"errmsg\":5}"))), Error::Json);
    assert_eq!(failed(login().advance(&reply(200, "{\"errmsg\":null}"))), Error::Json);
    assert_eq!(failed(login().advance(&Reply::Failed)), Error::Hyper);
    assert_eq!(failed(login().advance(&Reply::Rejected)), Error::Http);
}

#[test]
fn success_without_data_is_missing_data() {
    let login = || sent(Tarkov::login("a@b.com", "pw", "hwid-1")).0;
    assert_eq!(failed(login().advance(&success("null"))), Error::MissingData);
    assert_eq!(failed(login().advance(&reply(200, "{\"err\":0}"))), Error::MissingData);
    let exchange = || sent(Tarkov::from_access_token("token-1", "hwid-1")).0;
    assert_eq!(failed(exchange().advance(&success("null"))), Error::MissingData);
}

#[test]
fn data_of_another_shape_is_a_json_error() {
    let login = || sent(Tarkov::login("a@b.com", "pw", "hwid-1")).0;
    assert_eq!(failed(login().advance(&success("[]"))), Error::Json);
    assert_eq!(failed(login().advance(&success("{\"access_token\":\"t\"}"))), Error::Json);
    let exchange = || sent(Tarkov::from_access_token("token-1", "hwid-1")).0;
    assert_eq!(failed(exchange().advance(&success("{\"session\":\"abc\"}"))), Error::Json);
    assert_eq!(
        failed(exchange().advance(&success("{\"queued\":0,\"session\":\"abc\"}"))),
        Error::Json
    );
}

#[test]
fn a_session_is_never_empty() {
    let exchange = sent(Tarkov::from_access_token("token-1", "hwid-1")).0;
    let step = exchange.advance(&success("{\"queued\":false,\"session\":\"\"}"));
    assert_eq!(failed(step), Error::MissingData);
    let login = sent(Tarkov::login("a@b.com", "pw", "hwid-1")).0;
    let blank = AUTH.replace("token-1", "");
    assert_eq!(failed(login.advance(&success(&blank))), Error::MissingData);
}

#[test]
fn two_factor_login_binds_the_hardware_first() {
    let (login, request) = sent(Tarkov::login_with_2fa("a@b.com", "pw", "123456", "hwid-1"));
    assert_eq!(
        login.stage(),
        &Stage::HardwareActivation {
            email: "a@b.com".to_string(),
            pass: "8fe4c11451281c094a6578e6ddbf5eed".to_string(),
        }
    );
    assert_eq!(
        request.url,
        "https://launcher.escapefromtarkov.com/launcher/hardwareCode/activate?launcherVersion=10.1.0.1116"
    );
    assert_eq!(
        request.headers,
        vec![
            header("Content-Type", "application/json"),
            header("User-Agent", "BSG Launcher 10.1.0.1116"),
        ]
    );
    assert_eq!(
        request.body,
        "{\"activate_code\":\"123456\",\"email\":\"a@b.com\",\"hw_code\":\"hwid-1\"}"
    );
}

#[test]
fn two_factor_login_stops_where_the_activation_fails() {
    let (login, _) = sent(Tarkov::login_with_2fa("a@b.com", "pw", "123456", "hwid-1"));
    assert_eq!(failed(login.advance(&failure(206))), Error::LoginError(LoginError::BadLogin));
    let (login, _) = sent(Tarkov::login_with_2fa("a@b.com", "pw", "123456", "hwid-1"));
    assert_eq!(
        failed(login.advance(&failure(211))),
        Error::LoginError(LoginError::BadTwoFactorCode)
    );
    let (login, _) = sent(Tarkov::login_with_2fa("a@b.com", "pw", "123456", "hwid-1"));
    assert_eq!(failed(login.advance(&reply(503, ""))), Error::Status(503));
}

#[test]
fn two_factor_login_sends_the_credentials_after_the_activation() {
    let (login, _) = sent(Tarkov::login_with_2fa("a@b.com", "pw", "123456", "hwid-1"));
    let (login, request) = sent(login.advance(&reply(200, "{\"err\":0,\"errmsg\":null}")));
    assert_eq!(login.stage(), &Stage::CredentialsSubmitted);
    assert_eq!(
        request.url,
        "https://launcher.escapefromtarkov.com/launcher/login?launcherVersion=10.1.0.1116&branch=live"
    );
    assert_eq!(
        request.body,
        "{\"captcha\":null,\"email\":\"a@b.com\",\"hw_code\":\"hwid-1\",\"pass\":\"8fe4c11451281c094a6578e6ddbf5eed\"}"
    );
    let (login, _) = sent(login.advance(&success(AUTH)));
    let t = established(login.advance(&success("{\"queued\":true,\"session\":\"s-2\"}")));
    assert_eq!(t.session(), "s-2");
    assert_eq!(t.hwid(), "hwid-1");
}

#[test]
fn from_access_token_only_exchanges_the_token() {
    let (login, request) = sent(Tarkov::from_access_token("token-9", "hwid-1"));
    assert_eq!(login.stage(), &Stage::TokenExchangePending);
    assert_eq!(request.headers[2], header("Authorization", "token-9"));
    let t = established(login.advance(&success("{\"queued\":false,\"session\":\"s-9\"}")));
    assert_eq!(t.session(), "s-9");
}

#[test]
fn from_session_sends_nothing() {
    let t = Tarkov::from_session("abc123");
    assert_eq!(t.session(), "abc123");
    assert_eq!(t.hwid().len(), 258);
    assert_eq!(t.config(), &Config::live());
}

#[test]
fn begin_takes_an_existing_session() {
    let input = AuthInput::ExistingSession { session: "abc123".to_string() };
    let t = established(Handshake::begin(Config::live(), input));
    assert_eq!(t.session(), "abc123");
    assert_eq!(t.hwid().len(), 258);
    let input = AuthInput::ExistingSession { session: String::new() };
    assert_eq!(failed(Handshake::begin(Config::live(), input)), Error::InvalidParameters);
    let input = AuthInput::ExistingSession { session: "abc123".to_string() };
    let t = established(Handshake::begin_with(Config::live(), input, "hw".to_string()));
    assert_eq!(t.hwid(), "hw");
    let input = AuthInput::ExistingSession { session: "abc123".to_string() };
    assert_eq!(
        failed(Handshake::begin_with(Config::live(), input, String::new())),
        Error::InvalidParameters
    );
}

#[test]
fn begin_uses_the_configuration_that_it_is_given() {
    let mut config = Config::live();
    config.launcher_endpoint = "http://127.0.0.1:8080".to_string();
    config.prod_endpoint = "http://127.0.0.1:8081".to_string();
    config.launcher_version = "1.2.3".to_string();
    config.game_version = "4.5.6".to_string();
    let input = AuthInput::Credentials {
        email: "a@b.com".to_string(),
        password: "pw".to_string(),
        hwid: "hwid-1".to_string(),
    };
    let (login, request) = sent(Handshake::begin(config, input));
    assert_eq!(request.url, "http://127.0.0.1:8080/launcher/login?launcherVersion=1.2.3&branch=live");
    assert_eq!(request.headers[1], header("User-Agent", "BSG Launcher 1.2.3"));
    let (login, request) = sent(login.advance(&success(AUTH)));
    assert_eq!(
        request.url,
        "http://127.0.0.1:8081/launcher/game/start?launcherVersion=1.2.3&branch=live"
    );
    assert!(request.body.contains("\"major\":\"4.5.6\""));
    let t = established(login.advance(&success("{\"queued\":false,\"session\":\"s\"}")));
    assert_eq!(t.config().prod_endpoint, "http://127.0.0.1:8081");
}

#[test]
fn advance_with_takes_a_reply_that_is_opened() {
    let login = sent(Tarkov::from_access_token("token-1", "hwid-1")).0;
    let opened = parse("{\"err\":0,\"data\":{\"queued\":false,\"session\":\"s-1\"}}");
    assert_eq!(established(login.advance_with(opened)).session(), "s-1");
    let login = sent(Tarkov::from_access_token("token-1", "hwid-1")).0;
    assert_eq!(failed(login.advance_with(Err(Error::Io))), Error::Io);
}

#[test]
fn request_builders_of_the_login() {
    let config = Config::live();
    let a = login_request(&config, "a@b.com", "pw", Some("c"), "h").unwrap();
    assert_eq!(
        a.body,
        "{\"captcha\":\"c\",\"email\":\"a@b.com\",\"hw_code\":\"h\",\"pass\":\"8fe4c11451281c094a6578e6ddbf5eed\"}"
    );
    let b = activate_hardware(&config, "a@b.com", "123456", "h").unwrap();
    assert_eq!(b.body, "{\"activate_code\":\"123456\",\"email\":\"a@b.com\",\"hw_code\":\"h\"}");
    let c = exchange_access_token(&config, "t", "h").unwrap();
    assert_eq!(c.headers[2], header("Authorization", "t"));
}

#[test]
fn session_and_auth_are_read_from_data() {
    let data = parse("{\"queued\":true,\"session\":\"s\",\"more\":1}").unwrap();
    assert_eq!(Session::from_json(&data), Ok(Session { queued: true, session: "s".to_string() }));
    assert_eq!(Session::from_json(&Json::Null), Err(Error::Json));
    let auth = Auth::from_json(&parse(AUTH).unwrap()).unwrap();
    assert_eq!(auth.aid, "1234");
    assert_eq!(auth.lang, "en");
    assert_eq!(auth.region, None);
    assert_eq!(auth.game_version, Some("edge_of_darkness".to_string()));
    assert_eq!(auth.data_centers, vec!["eu-west".to_string(), "us-east".to_string()]);
    assert_eq!(auth.ip_region, "eu");
    assert_eq!(auth.token_type, "bearer");
    assert_eq!(auth.expires_in, 3600);
    assert_eq!(auth.access_token, "token-1");
    assert_eq!(auth.refresh_token, "refresh-1");
    let short = AUTH.replace("\"lang\":\"en\",", "");
    assert_eq!(Auth::from_json(&parse(&short).unwrap()), Err(Error::Json));
    let wrong = AUTH.replace("3600", "\"3600\"");
    assert_eq!(Auth::from_json(&parse(&wrong).unwrap()), Err(Error::Json));
}

#[test]
fn keep_alive_posts_an_empty_object_with_the_session() {
    let t = Tarkov::from_session("abc123");
    let request = t.keep_alive().unwrap();
    assert_eq!(request.url, "https://prod.escapefromtarkov.com/client/game/keepalive");
    assert_eq!(request.body, "{}");
    assert_eq!(
        request.headers,
        vec![
            header("Content-Type", "application/json"),
            header("User-Agent", "UnityPlayer/2018.4.13f1 (UnityWebRequest/1.0, libcurl/7.52.0-DEV)"),
            header("App-Version", "EFT Client 0.12.5.7295"),
            header("X-Unity-Version", "2018.4.13f1"),
            header("Cookie", "PHPSESSID=abc123"),
        ]
    );
}

#[test]
fn keep_alive_succeeds_on_code_zero() {
    assert_eq!(Tarkov::keep_alive_result(&reply(200, "{\"err\":0,\"errmsg\":null}")), Ok(()));
    assert_eq!(
        Tarkov::keep_alive_result(&reply(200, "{\"err\":0,\"errmsg\":null,\"data\":null}")),
        Ok(())
    );
}

#[test]
fn keep_alive_after_the_session_ran_out_is_not_authorized() {
    assert_eq!(Tarkov::keep_alive_result(&failure(201)), Err(Error::NotAuthorized));
}

#[test]
fn keep_alive_returns_the_error_of_the_reply() {
    assert_eq!(Tarkov::keep_alive_result(&failure(263)), Err(Error::Maintenance));
    assert_eq!(Tarkov::keep_alive_result(&failure(4242)), Err(Error::UnknownAPIError(4242)));
    assert_eq!(Tarkov::keep_alive_result(&reply(500, "")), Err(Error::Status(500)));
    assert_eq!(Tarkov::keep_alive_result(&Reply::Failed), Err(Error::Hyper));
}
