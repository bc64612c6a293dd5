use std::io::Write;
use tarkov::http::{build_request, post, AuthMode, Header, Reply, Response};
use tarkov::config::Config;
use tarkov::inventory::{barter_items_to_json, bad_requests, moved, moving, moving_result, BarterItem};
use tarkov::json::{member, object, parse, Json};
use tarkov::market_filter::{Currency, MarketFilter, Owner, SortBy, SortDirection};
use tarkov::profile::{ProfileError, ProfileSelected};
use tarkov::ragfair::{RagfairError, Requirement};
use tarkov::trading::{trader_items, TraderItem};
use tarkov::{
    data_of_reply, read_reply, reply_data, reply_status, status_of_reply, Envelope, Error,
    ErrorResponse, Tarkov,
};

fn compress(data: &[u8]) -> Vec<u8> {
    let mut encoder = flate2::write::ZlibEncoder::new(Vec::new(), flate2::Compression::default());
    encoder.write_all(data).unwrap();
    encoder.finish().unwrap()
}

fn reply(status: u16, body: &str) -> Reply {
    Reply::Received(Response { status, body: compress(body.as_bytes()) })
}

fn success(data: &str) -> Reply {
    reply(200, &format!("{{\"err\":0,\"errmsg\":null,\"data\":{}}}", data))
}

fn header(name: &str, value: &str) -> Header {
    Header { name: name.to_string(), value: value.to_string() }
}

fn text(s: &str) -> Json {
    Json::Text(s.to_string())
}

fn session() -> Tarkov {
    Tarkov::from_session("abc123")
}

#[test]
fn build_request_sets_the_headers_of_each_mode() {
    let config = Config::live();
    let plain = build_request(&config, "u".to_string(), "b".to_string(), &AuthMode::Anonymous);
    assert_eq!(plain.url, "u");
    assert_eq!(plain.body, "b");
    assert_eq!(
        plain.headers,
        vec![
            header("Content-Type", "application/json"),
            header("User-Agent", "BSG Launcher 10.1.0.1116"),
        ]
    );
    let bearer = build_request(&config, "u".to_string(), "b".to_string(), &AuthMode::Bearer("t".to_string()));
    assert_eq!(bearer.headers.len(), 3);
    assert_eq!(bearer.headers[2], header("Authorization", "t"));
    let cookie = build_request(
        &config,
        "u".to_string(),
        "b".to_string(),
        &AuthMode::SessionCookie("s".to_string()),
    );
    assert_eq!(cookie.headers.len(), 5);
    assert_eq!(cookie.headers[4], header("Cookie", "PHPSESSID=s"));
}

#[test]
fn post_encodes_the_body() {
    let config = Config::live();
    let request = post(&config, "u".to_string(), &Json::Null, &AuthMode::Anonymous).unwrap();
    assert_eq!(request.body, "{}");
    let request = post(&config, "u".to_string(), &Json::Unsigned(1), &AuthMode::Anonymous).unwrap();
    assert_eq!(request.body, "1");
}

#[test]
fn post_json_carries_the_session() {
    let t = session();
    let body = object(vec![member("crc", Json::Unsigned(0))]);
    let request = t.post_json("https://example.org/x".to_string(), &body).unwrap();
    assert_eq!(request.url, "https://example.org/x");
    assert_eq!(request.body, "{\"crc\":0}");
    assert_eq!(request.headers[4], header("Cookie", "PHPSESSID=abc123"));
}

#[test]
fn envelope_is_read_field_by_field() {
    let reply = parse("{\"err\":214,\"errmsg\":\"captcha\"}").unwrap();
    assert_eq!(
        ErrorResponse::from_json(&reply),
        Ok(ErrorResponse { code: 214, message: Some("captcha".to_string()) })
    );
    let reply = parse("{\"err\":0}").unwrap();
    assert_eq!(ErrorResponse::from_json(&reply), Ok(ErrorResponse { code: 0, message: None }));
    assert_eq!(ErrorResponse::from_json(&parse("{\"err\":1.5}").unwrap()), Err(Error::Json));
    assert_eq!(ErrorResponse::from_json(&parse("7").unwrap()), Err(Error::Json));
}

#[test]
fn envelope_holds_the_error_and_the_data() {
    let envelope = Envelope::from_json(parse("{\"err\":0,\"errmsg\":null,\"data\":[1]}").unwrap());
    assert_eq!(
        envelope,
        Ok(Envelope {
            error: ErrorResponse { code: 0, message: None },
            data: Some(Json::Array(vec![Json::Unsigned(1)])),
        })
    );
    assert_eq!(envelope.unwrap().into_data(), Ok(Json::Array(vec![Json::Unsigned(1)])));
    let envelope = Envelope::from_json(parse("{\"err\":0,\"data\":null}").unwrap()).unwrap();
    assert_eq!(envelope.data, None);
    assert_eq!(envelope.into_data(), Err(Error::MissingData));
    let envelope = Envelope::from_json(parse("{\"err\":263,\"errmsg\":\"down\"}").unwrap()).unwrap();
    assert_eq!(envelope.error, ErrorResponse { code: 263, message: Some("down".to_string()) });
    assert_eq!(envelope.into_data(), Err(Error::Maintenance));
    let envelope = Envelope::from_json(parse("{\"err\":201,\"data\":{}}").unwrap()).unwrap();
    assert_eq!(envelope.into_data(), Err(Error::NotAuthorized));
    assert_eq!(Envelope::from_json(parse("{\"data\":{}}").unwrap()), Err(Error::Json));
    assert_eq!(Envelope::from_json(parse("[]").unwrap()), Err(Error::Json));
}

#[test]
fn reply_readers_agree() {
    let raw = success("{\"a\":1}");
    let tree = read_reply(&raw).unwrap();
    assert_eq!(reply_status(&tree), Ok(()));
    assert_eq!(reply_data(tree), Ok(object(vec![member("a", Json::Unsigned(1))])));
    assert_eq!(data_of_reply(&raw), Ok(object(vec![member("a", Json::Unsigned(1))])));
    assert_eq!(status_of_reply(&raw), Ok(()));
    let raw = reply(200, "{\"err\":201,\"errmsg\":null,\"data\":{\"a\":1}}");
    assert_eq!(data_of_reply(&raw), Err(Error::NotAuthorized));
    assert_eq!(status_of_reply(&raw), Err(Error::NotAuthorized));
    assert_eq!(data_of_reply(&success("null")), Err(Error::MissingData));
    assert_eq!(data_of_reply(&reply(401, "")), Err(Error::Status(401)));
    assert_eq!(data_of_reply(&success("0")), Ok(Json::Unsigned(0)));
    assert_eq!(data_of_reply(&success("[]")), Ok(Json::Array(vec![])));
}

#[test]
fn market_filter_default() {
    let filter = MarketFilter::default();
    assert_eq!(filter.sort_type, SortBy::Price);
    assert_eq!(filter.sort_direction, SortDirection::Ascending);
    assert_eq!(filter.currency, Currency::Any);
    assert_eq!(filter.min_price, None);
    assert_eq!(filter.max_price, None);
    assert_eq!(filter.min_quantity, None);
    assert_eq!(filter.max_quantity, None);
    assert_eq!(filter.min_condition, None);
    assert_eq!(filter.max_condition, Some(100));
    assert!(!filter.expiring_within_hour);
    assert!(!filter.hide_bartering_offers);
    assert_eq!(filter.owner_type, Owner::Any);
    assert!(filter.hide_inoperable_weapons);
    assert_eq!(filter.handbook_id, None);
    assert_eq!(filter.linked_search_id, None);
    assert_eq!(filter.required_search_id, None);
}

#[test]
fn market_filter_codes() {
    assert_eq!(SortBy::ID.code(), 0);
    assert_eq!(SortBy::BarteringOffers.code(), 2);
    assert_eq!(SortBy::MerchantRating.code(), 3);
    assert_eq!(SortBy::Price.code(), 5);
    assert_eq!(SortBy::Expiry.code(), 6);
    assert_eq!(SortDirection::Ascending.code(), 0);
    assert_eq!(SortDirection::Descending.code(), 1);
    assert_eq!(Currency::Any.code(), 0);
    assert_eq!(Currency::Rouble.code(), 1);
    assert_eq!(Currency::Dollar.code(), 2);
    assert_eq!(Currency::Euro.code(), 3);
    assert_eq!(Owner::Any.code(), 0);
    assert_eq!(Owner::Traders.code(), 1);
    assert_eq!(Owner::Player.code(), 2);
}

#[test]
fn search_market_sends_the_filter() {
    let request = session().search_market(0, 15, MarketFilter::default()).unwrap();
    assert_eq!(request.url, "https://ragfair.escapefromtarkov.com/client/ragfair/find");
    let body = parse(&request.body).unwrap();
    assert_eq!(body.get("page"), Some(&Json::Unsigned(0)));
    assert_eq!(body.get("limit"), Some(&Json::Unsigned(15)));
    assert_eq!(body.get("sortType"), Some(&Json::Unsigned(5)));
    assert_eq!(body.get("sortDirection"), Some(&Json::Unsigned(0)));
    assert_eq!(body.get("currency"), Some(&Json::Unsigned(0)));
    assert_eq!(body.get("priceFrom"), Some(&Json::Unsigned(0)));
    assert_eq!(body.get("priceTo"), Some(&Json::Unsigned(0)));
    assert_eq!(body.get("quantityFrom"), Some(&Json::Unsigned(0)));
    assert_eq!(body.get("quantityTo"), Some(&Json::Unsigned(0)));
    assert_eq!(body.get("conditionFrom"), Some(&Json::Unsigned(0)));
    assert_eq!(body.get("conditionTo"), Some(&Json::Unsigned(100)));
    assert_eq!(body.get("oneHourExpiration"), Some(&Json::Bool(false)));
    assert_eq!(body.get("removeBartering"), Some(&Json::Bool(false)));
    assert_eq!(body.get("offerOwnerType"), Some(&Json::Unsigned(0)));
    assert_eq!(body.get("onlyFunctional"), Some(&Json::Bool(true)));
    assert_eq!(body.get("updateOfferCount"), Some(&Json::Bool(true)));
    assert_eq!(body.get("handbookId"), Some(&text("")));
    assert_eq!(body.get("linkedSearchId"), Some(&text("")));
    assert_eq!(body.get("neededSearchId"), Some(&text("")));
    assert_eq!(body.get("tm"), Some(&Json::Unsigned(1)));
}

#[test]
fn search_market_sends_what_is_set() {
    let filter = MarketFilter {
        sort_type: SortBy::Expiry,
        sort_direction: SortDirection::Descending,
        currency: Currency::Dollar,
        min_price: Some(2000),
        max_price: Some(3000),
        owner_type: Owner::Player,
        handbook_id: Some("5b47574386f77428ca22b33e"),
        ..MarketFilter::default()
    };
    let request = session().search_market(2, 60, filter).unwrap();
    let body = parse(&request.body).unwrap();
    assert_eq!(body.get("page"), Some(&Json::Unsigned(2)));
    assert_eq!(body.get("limit"), Some(&Json::Unsigned(60)));
    assert_eq!(body.get("sortType"), Some(&Json::Unsigned(6)));
    assert_eq!(body.get("sortDirection"), Some(&Json::Unsigned(1)));
    assert_eq!(body.get("currency"), Some(&Json::Unsigned(2)));
    assert_eq!(body.get("priceFrom"), Some(&Json::Unsigned(2000)));
    assert_eq!(body.get("priceTo"), Some(&Json::Unsigned(3000)));
    assert_eq!(body.get("offerOwnerType"), Some(&Json::Unsigned(2)));
    assert_eq!(body.get("handbookId"), Some(&text("5b47574386f77428ca22b33e")));
}

#[test]
fn get_item_price_names_the_item() {
    let request = session().get_item_price("5696686a4bdc2da3298b456a").unwrap();
    assert_eq!(request.url, "https://ragfair.escapefromtarkov.com/client/ragfair/itemMarketPrice");
    assert_eq!(request.body, "{\"templateId\":\"5696686a4bdc2da3298b456a\"}");
}

#[test]
fn barter_items_become_an_array() {
    let items = [
        BarterItem { id: "a".to_string(), count: Json::Unsigned(3990) },
        BarterItem { id: "b".to_string(), count: Json::Real("0.5".to_string()) },
    ];
    let json = barter_items_to_json(&items);
    assert_eq!(
        json,
        Json::Array(vec![
            object(vec![member("id", text("a")), member("count", Json::Unsigned(3990))]),
            object(vec![member("id", text("b")), member("count", Json::Real("0.5".to_string()))]),
        ])
    );
    assert_eq!(barter_items_to_json(&[]), Json::Array(vec![]));
}

#[test]
fn moving_wraps_an_action() {
    assert_eq!(
        moving(text("x"), 2),
        object(vec![member("data", Json::Array(vec![text("x")])), member("tm", Json::Unsigned(2))])
    );
}

#[test]
fn buy_item_sends_the_offer() {
    let items = [BarterItem { id: "5449016a4bdc2d6f028b456f".to_string(), count: Json::Unsigned(2000) }];
    let request = session().buy_item("offer-1", 1, &items).unwrap();
    assert_eq!(request.url, "https://prod.escapefromtarkov.com/client/game/profile/items/moving");
    assert_eq!(
        request.body,
        "{\"data\":[{\"Action\":\"RagFairBuyOffer\",\"offers\":[{\"count\":1,\"id\":\"offer-1\",\"items\":[{\"count\":2000,\"id\":\"5449016a4bdc2d6f028b456f\"}]}]}],\"tm\":2}"
    );
}

#[test]
fn offer_item_sends_items_and_requirements() {
    let requirements = [Requirement { schema_id: "5449016a4bdc2d6f028b456f".to_string(), count: Json::Unsigned(2000) }];
    let request = session().offer_item(&["item-1", "item-2"], &requirements, false).unwrap();
    assert_eq!(request.url, "https://prod.escapefromtarkov.com/client/game/profile/items/moving");
    assert_eq!(
        request.body,
        "{\"data\":[{\"Action\":\"RagFairAddOffer\",\"items\":[\"item-1\",\"item-2\"],\"requirements\":[{\"_tpl\":\"5449016a4bdc2d6f028b456f\",\"count\":2000,\"level\":0,\"onlyFunctional\":false,\"side\":0}],\"sellInOnePiece\":false}],\"tm\":2}"
    );
}

#[test]
fn trade_item_checks_its_parameters() {
    let items = [BarterItem { id: "a".to_string(), count: Json::Unsigned(1) }];
    let t = session();
    assert_eq!(t.trade_item("", "item", 1, &items), Err(Error::InvalidParameters));
    assert_eq!(t.trade_item("trader", "", 1, &items), Err(Error::InvalidParameters));
    assert_eq!(t.trade_item("trader", "item", 0, &items), Err(Error::InvalidParameters));
    assert_eq!(t.trade_item("trader", "item", 1, &[]), Err(Error::InvalidParameters));
}

#[test]
fn trade_item_sends_the_trade() {
    let items = [BarterItem { id: "a".to_string(), count: Json::Unsigned(3990) }];
    let request = session().trade_item("trader", "item", 1, &items).unwrap();
    assert_eq!(request.url, "https://prod.escapefromtarkov.com/client/game/profile/items/moving");
    assert_eq!(
        request.body,
        "{\"data\":[{\"Action\":\"TradingConfirm\",\"count\":1,\"item_id\":\"item\",\"scheme_id\":0,\"scheme_items\":[{\"count\":3990,\"id\":\"a\"}],\"tid\":\"trader\",\"type\":\"buy_from_trader\"}],\"tm\":0}"
    );
}

#[test]
fn sell_item_checks_its_parameters() {
    let t = session();
    assert_eq!(t.sell_item("", "item", 1), Err(Error::InvalidParameters));
    assert_eq!(t.sell_item("trader", "", 1), Err(Error::InvalidParameters));
    assert_eq!(t.sell_item("trader", "item", 0), Err(Error::InvalidParameters));
}

#[test]
fn sell_item_sends_the_sale() {
    let request = session().sell_item("trader", "item", 2).unwrap();
    assert_eq!(
        request.body,
        "{\"data\":[{\"Action\":\"TradingConfirm\",\"items\":[{\"count\":2,\"id\":\"item\",\"scheme_id\":0}],\"tid\":\"trader\",\"type\":\"sell_to_trader\"}],\"tm\":0}"
    );
}

#[test]
fn moved_returns_the_changes() {
    let data = parse("{\"items\":{\"new\":[]},\"badRequest\":[]}").unwrap();
    assert_eq!(moved(data, false), Ok(object(vec![member("new", Json::Array(vec![]))])));
}

#[test]
fn moved_returns_the_first_error() {
    let data = || parse("{\"items\":{},\"badRequest\":[{\"err\":1503,\"errmsg\":\"gone\"},{\"err\":7}]}").unwrap();
    assert_eq!(moved(data(), true), Err(Error::RagfairError(RagfairError::OfferNotFound)));
    assert_eq!(moved(data(), false), Err(Error::UnknownAPIError(1503)));
    let data = || parse("{\"items\":{},\"badRequest\":[{\"err\":1506}]}").unwrap();
    assert_eq!(moved(data(), true), Err(Error::RagfairError(RagfairError::OfferNotFound)));
    let data = || parse("{\"items\":{},\"badRequest\":[{\"err\":1507}]}").unwrap();
    assert_eq!(moved(data(), true), Err(Error::UnknownAPIError(1507)));
}

#[test]
fn moved_rejects_data_of_another_shape() {
    assert_eq!(moved(parse("{\"items\":{}}").unwrap(), false), Err(Error::Json));
    assert_eq!(moved(parse("{\"badRequest\":[]}").unwrap(), false), Err(Error::Json));
    assert_eq!(moved(parse("{\"items\":{},\"badRequest\":{}}").unwrap(), false), Err(Error::Json));
    assert_eq!(
        moved(parse("{\"items\":{},\"badRequest\":[{\"err\":1},{\"code\":2}]}").unwrap(), false),
        Err(Error::Json)
    );
    assert_eq!(moved(parse("[]").unwrap(), false), Err(Error::Json));
}

#[test]
fn bad_requests_reads_the_codes() {
    assert_eq!(bad_requests(&parse("[{\"err\":1},{\"err\":2,\"errmsg\":\"x\"}]").unwrap()), Some(vec![1, 2]));
    assert_eq!(bad_requests(&parse("[]").unwrap()), Some(vec![]));
    assert_eq!(bad_requests(&parse("[1]").unwrap()), None);
    assert_eq!(bad_requests(&parse("{}").unwrap()), None);
}

#[test]
fn moving_results_read_the_reply() {
    let ok = success("{\"items\":{\"del\":[{\"_id\":\"x\"}]},\"badRequest\":[]}");
    let expected = parse("{\"del\":[{\"_id\":\"x\"}]}").unwrap();
    assert_eq!(moving_result(&ok, false), Ok(parse("{\"del\":[{\"_id\":\"x\"}]}").unwrap()));
    assert_eq!(Tarkov::buy_item_result(&ok).as_ref(), Ok(&expected));
    assert_eq!(Tarkov::offer_item_result(&ok).as_ref(), Ok(&expected));
    assert_eq!(Tarkov::trade_item_result(&ok).as_ref(), Ok(&expected));
    assert_eq!(Tarkov::sell_item_result(&ok).as_ref(), Ok(&expected));
    let gone = success("{\"items\":{},\"badRequest\":[{\"err\":1503}]}");
    assert_eq!(Tarkov::buy_item_result(&gone), Err(Error::RagfairError(RagfairError::OfferNotFound)));
    assert_eq!(Tarkov::offer_item_result(&gone), Err(Error::UnknownAPIError(1503)));
    assert_eq!(Tarkov::trade_item_result(&gone), Err(Error::UnknownAPIError(1503)));
    assert_eq!(Tarkov::sell_item_result(&gone), Err(Error::UnknownAPIError(1503)));
    let refused = reply(200, "{\"err\":1510,\"errmsg\":null,\"data\":null}");
    assert_eq!(
        Tarkov::trade_item_result(&refused),
        Err(Error::TradingError(tarkov::trading::TradingError::BadLoyaltyLevel))
    );
}

#[test]
fn simple_calls_have_their_address_and_body() {
    let t = session();
    let r = t.get_all_items().unwrap();
    assert_eq!(r.url, "https://prod.escapefromtarkov.com/client/items");
    assert_eq!(r.body, "{\"crc\":0}");
    let r = t.get_all_locations().unwrap();
    assert_eq!(r.url, "https://prod.escapefromtarkov.com/client/locations");
    assert_eq!(r.body, "{\"crc\":0}");
    let r = t.get_weather().unwrap();
    assert_eq!(r.url, "https://prod.escapefromtarkov.com/client/weather");
    assert_eq!(r.body, "{}");
    let r = t.get_i18n("en").unwrap();
    assert_eq!(r.url, "https://prod.escapefromtarkov.com/client/locale/en");
    assert_eq!(r.body, "{}");
    let r = t.get_friends().unwrap();
    assert_eq!(r.url, "https://prod.escapefromtarkov.com/client/friend/list");
    assert_eq!(r.body, "{}");
    let r = t.get_profiles().unwrap();
    assert_eq!(r.url, "https://prod.escapefromtarkov.com/client/game/profile/list");
    assert_eq!(r.body, "{}");
    let r = t.select_profile("5c0c").unwrap();
    assert_eq!(r.url, "https://prod.escapefromtarkov.com/client/game/profile/select");
    assert_eq!(r.body, "{\"uid\":\"5c0c\"}");
    let r = t.get_traders().unwrap();
    assert_eq!(r.url, "https://trading.escapefromtarkov.com/client/trading/api/getTradersList");
    assert_eq!(r.body, "{}");
    let r = t.get_trader("54cb57776803fa99248b456e").unwrap();
    assert_eq!(
        r.url,
        "https://trading.escapefromtarkov.com/client/trading/api/getTrader/54cb57776803fa99248b456e"
    );
    let r = t.get_trader_items_raw("54cb").unwrap();
    assert_eq!(r.url, "https://trading.escapefromtarkov.com/client/trading/api/getTraderAssort/54cb");
    let r = t.get_trader_prices_raw("54cb").unwrap();
    assert_eq!(
        r.url,
        "https://trading.escapefromtarkov.com/client/trading/api/getUserAssortPrice/trader/54cb"
    );
    assert_eq!(r.headers[4], header("Cookie", "PHPSESSID=abc123"));
}

#[test]
fn trader_calls_need_an_id() {
    let t = session();
    assert_eq!(t.get_trader(""), Err(Error::InvalidParameters));
    assert_eq!(t.get_trader_items_raw(""), Err(Error::InvalidParameters));
    assert_eq!(t.get_trader_prices_raw(""), Err(Error::InvalidParameters));
}

#[test]
fn weather_is_taken_out_of_the_data() {
    let r = success("{\"weather\":{\"temp\":7},\"date\":\"2020-02-02\",\"time\":\"12:00\",\"acceleration\":7}");
    assert_eq!(Tarkov::get_weather_result(&r), Ok(object(vec![member("temp", Json::Unsigned(7))])));
    assert_eq!(Tarkov::get_weather_result(&success("{\"date\":\"x\"}")), Err(Error::Json));
    assert_eq!(Tarkov::get_weather_result(&success("null")), Err(Error::MissingData));
    assert_eq!(Tarkov::get_weather_result(&reply(200, "{\"err\":201}")), Err(Error::NotAuthorized));
}

#[test]
fn select_profile_wants_the_status_ok() {
    let ok = "{\"status\":\"ok\",\"notifier\":{\"server\":\"s\",\"channel_id\":\"c\",\"url\":\"u\"},\"notifierServer\":\"n\"}";
    assert_eq!(Tarkov::select_profile_result(&success(ok)), Ok(()));
    let selected = ProfileSelected::from_json(&parse(ok).unwrap()).unwrap();
    assert_eq!(selected.status, "ok");
    assert_eq!(selected.notifier.server, "s");
    assert_eq!(selected.notifier.channel_id, "c");
    assert_eq!(selected.notifier.url, "u");
    assert_eq!(selected.notifier_server, "n");
    let bad = ok.replace("\"ok\"", "\"fail\"");
    assert_eq!(
        Tarkov::select_profile_result(&success(&bad)),
        Err(Error::ProfileError(ProfileError::SelectProfileFail))
    );
    assert_eq!(Tarkov::profile_selected(&parse(&bad).unwrap()), Err(Error::ProfileError(ProfileError::SelectProfileFail)));
    assert_eq!(Tarkov::select_profile_result(&success("{\"status\":\"ok\"}")), Err(Error::Json));
    assert_eq!(
        Tarkov::select_profile_result(&reply(200, "{\"err\":205,\"errmsg\":null}")),
        Err(Error::ProfileError(ProfileError::InvalidUserID))
    );
    assert_eq!(Tarkov::select_profile_result(&success("null")), Err(Error::MissingData));
}

const ASSORT: &str = "{\"items\":[{\"_id\":\"a\",\"_tpl\":\"ta\",\"parentId\":\"hideout\",\"slotId\":\"hideout\",\"upd\":{\"StackObjectsCount\":5}},{\"_id\":\"a1\",\"_tpl\":\"ta1\",\"parentId\":\"a\",\"slotId\":\"mod_magazine\"},{\"_id\":\"b\",\"_tpl\":\"tb\",\"parentId\":\"hideout\"},{\"_id\":\"c\",\"_tpl\":\"tc\"}],\"barter_scheme\":{\"a\":[[{\"_tpl\":\"money\",\"count\":3990}],[{\"_tpl\":\"other\",\"count\":1}]]},\"loyal_level_items\":{\"a\":1,\"b\":4}}";

#[test]
fn trader_items_are_put_together() {
    let assort = parse(ASSORT).unwrap();
    let prices = parse("{\"b\":[[{\"_tpl\":\"money\",\"count\":12.5}]],\"a\":[[{\"_tpl\":\"wrong\",\"count\":1}]]}").unwrap();
    let items = trader_items(&assort, &prices).unwrap();
    assert_eq!(
        items,
        vec![
            TraderItem {
                id: "a".to_string(),
                schema_id: "ta".to_string(),
                upd: Some(object(vec![member("StackObjectsCount", Json::Unsigned(5))])),
                price: Json::Array(vec![object(vec![
                    member("_tpl", text("money")),
                    member("count", Json::Unsigned(3990)),
                ])]),
                loyalty_level: 1,
            },
            TraderItem {
                id: "b".to_string(),
                schema_id: "tb".to_string(),
                upd: None,
                price: Json::Array(vec![object(vec![
                    member("_tpl", text("money")),
                    member("count", Json::Real("12.5".to_string())),
                ])]),
                loyalty_level: 4,
            },
        ]
    );
}

#[test]
fn trader_items_need_a_price_and_a_level() {
    let assort = parse(ASSORT).unwrap();
    assert_eq!(trader_items(&assort, &parse("{}").unwrap()), Err(Error::MissingData));
    assert_eq!(trader_items(&assort, &parse("{\"b\":[]}").unwrap()), Err(Error::MissingData));
    let no_level = parse(&ASSORT.replace(",\"b\":4", "")).unwrap();
    assert_eq!(trader_items(&no_level, &parse("{\"b\":[[]]}").unwrap()), Err(Error::MissingData));
    let high_level = parse(&ASSORT.replace("\"b\":4", "\"b\":256")).unwrap();
    assert_eq!(trader_items(&high_level, &parse("{\"b\":[[]]}").unwrap()), Err(Error::MissingData));
}

#[test]
fn trader_items_need_a_list() {
    assert_eq!(trader_items(&parse("{}").unwrap(), &parse("{}").unwrap()), Err(Error::Json));
    assert_eq!(trader_items(&parse("{\"items\":{}}").unwrap(), &parse("{}").unwrap()), Err(Error::Json));
    assert_eq!(trader_items(&parse("{\"items\":[]}").unwrap(), &parse("{}").unwrap()), Ok(vec![]));
    assert_eq!(
        trader_items(&parse("{\"items\":[{\"_id\":\"a\"}]}").unwrap(), &parse("{}").unwrap()),
        Err(Error::Json)
    );
    assert_eq!(
        trader_items(&parse("{\"items\":[{\"_id\":\"a\",\"_tpl\":\"t\",\"parentId\":7}]}").unwrap(), &parse("{}").unwrap()),
        Err(Error::Json)
    );
}

#[test]
fn get_trader_items_reads_both_replies() {
    let prices = success("{\"b\":[[{\"_tpl\":\"money\",\"count\":1}]]}");
    let items = Tarkov::get_trader_items(&success(ASSORT), &prices).unwrap();
    assert_eq!(items.len(), 2);
    assert_eq!(items[1].loyalty_level, 4);
    assert_eq!(
        Tarkov::get_trader_items(&reply(200, "{\"err\":201}"), &prices),
        Err(Error::NotAuthorized)
    );
    assert_eq!(
        Tarkov::get_trader_items(&success(ASSORT), &reply(500, "")),
        Err(Error::Status(500))
    );
}
