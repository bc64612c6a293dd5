//! The trading calls and what they return.

use crate::http::{request_result_is, Reply, Request, RequestView};
use crate::inventory::{
    barter_items_json, barter_items_to_json, moving, moving_body, moving_result,
    moving_result_spec, BarterItem,
};
use crate::json::{json_result_is, member, object, Json, JsonValue, Member};
use crate::ragfair::moving_url;
use crate::text::{join, str_eq};
use crate::{call_spec, Error, Tarkov, TarkovView};
use vstd::prelude::*;

verus! {

/// An error of the trading calls.
#[derive(Debug, Clone, Copy, PartialEq, Eq, Structural)]
pub enum TradingError {
    /// The trade failed.
    TransactionError,
    /// The trader's loyalty level is too low for this item.
    BadLoyaltyLevel,
}

/// Trader's repair stats
#[derive(Debug, Clone, PartialEq)]
pub struct Repair {
    /// Repair is available
    pub availability: bool,
    /// Repair quality
    pub quality: String,
    /// Item IDs excluded from repair.
    pub excluded_id_list: Vec<String>,
    /// Category IDs excluded from repair.
    pub excluded_category: Vec<String>,
    /// Currency
    pub currency: Option<String>,
    /// ?
    pub currency_coefficient: Option<u64>,
    /// Repair price rate
    pub price_rate: u64,
}

/// Trader currency
#[derive(Debug, Clone, PartialEq)]
pub enum Currency {
    /// Rouble
    Rouble,
    /// US Dollar
    Dollar,
    /// Euro
    Euro,
}

/// Trader's insurance offer
#[derive(Debug, Clone, PartialEq)]
pub struct Insurance {
    /// Insurance is available
    pub availability: bool,
    /// Minimum cost to insure
    pub min_payment: u64,
    /// Minimum return time in hours.
    pub min_return_hour: u64,
    /// Maximum return time in hours.
    pub max_return_hour: u64,
    /// Maximum storage time in hours.
    pub max_storage_time: u64,
    /// Categories IDs excluded from insurance.
    pub excluded_category: Vec<String>,
}
/// An item that a trader sells.
#[derive(Debug, PartialEq)]
pub struct TraderItem {
    /// Item ID
    pub id: String,
    /// Item localization schema ID
    pub schema_id: String,
    /// Item attachments/options, as the backend sent them.
    pub upd: Option<Json>,
    /// Item price: the array of what is asked for it.
    pub price: Json,
    /// Loyalty level
    pub loyalty_level: u8,
}

/// The mathematical value of a [`TraderItem`].
pub struct TraderItemView {
    pub id: Seq<char>,
    pub schema_id: Seq<char>,
    pub upd: Option<JsonValue>,
    pub price: JsonValue,
    pub loyalty_level: u8,
}

impl View for TraderItem {
    type V = TraderItemView;

    open spec fn view(&self) -> TraderItemView {
        TraderItemView {
            id: self.id@,
            schema_id: self.schema_id@,
            upd: match self.upd {
                Some(upd) => Some(upd@),
                None => None,
            },
            price: self.price@,
            loyalty_level: self.loyalty_level,
        }
    }
}

/// The loyalty level that a trader's list gives an item: the number under the item's ID
/// in `loyal_level_items`, where it fits in a byte.
pub open spec fn loyalty_of(assort: JsonValue, id: Seq<char>) -> Option<u8> {
    match assort.member("loyal_level_items"@) {
        Some(levels) => match levels.u64_at(id) {
            Some(level) => if level <= 255 {
                Some(level as u8)
            } else {
                None
            },
            None => None,
        },
        None => None,
    }
}

/// The price of an item: the first entry of the array under the item's ID in
/// `barter_scheme` of the trader's list, or, where the list has none for the item, in the
/// table of prices.
pub open spec fn price_of(assort: JsonValue, prices: JsonValue, id: Seq<char>) -> Option<
    JsonValue,
> {
    let scheme = match assort.member("barter_scheme"@) {
        Some(schemes) => match schemes.member(id) {
            Some(scheme) => Some(scheme),
            None => prices.member(id),
        },
        None => prices.member(id),
    };
    match scheme {
        Some(JsonValue::Array(entries)) => if entries.len() > 0 {
            Some(entries[0])
        } else {
            None
        },
        _ => None,
    }
}

/// What one entry of a trader's list gives. An entry without a string under `_id` and
/// `_tpl`, or with anything but a string or nothing under `parentId`, is rejected with
/// [`Error::Json`]. An entry whose parent is not `hideout` is part of another item and is
/// passed over. An entry without a loyalty level or a price fails with
/// [`Error::MissingData`].
pub open spec fn trader_item_spec(entry: JsonValue, assort: JsonValue, prices: JsonValue) -> Result<
    Option<TraderItemView>,
    Error,
> {
    match (entry.text_at("_id"@), entry.text_at("_tpl"@), entry.optional_text_at("parentId"@)) {
        (Some(id), Some(schema_id), Some(parent)) => if parent != Some("hideout"@) {
            Ok(None)
        } else {
            match (loyalty_of(assort, id), price_of(assort, prices, id)) {
                (Some(loyalty_level), Some(price)) => Ok(
                    Some(
                        TraderItemView {
                            id,
                            schema_id,
                            upd: entry.present("upd"@),
                            price,
                            loyalty_level,
                        },
                    ),
                ),
                _ => Err(Error::MissingData),
            }
        },
        _ => Err(Error::Json),
    }
}

/// What the entries of a trader's list give, in order: the items for sale, or the error
/// of the first entry that has one.
pub open spec fn trader_entries_spec(
    entries: Seq<JsonValue>,
    assort: JsonValue,
    prices: JsonValue,
) -> Result<Seq<TraderItemView>, Error>
    decreases entries.len(),
{
    if entries.len() == 0 {
        Ok(Seq::empty())
    } else {
        match trader_entries_spec(entries.drop_last(), assort, prices) {
            Err(e) => Err(e),
            Ok(items) => match trader_item_spec(entries.last(), assort, prices) {
                Err(e) => Err(e),
                Ok(Some(item)) => Ok(items.push(item)),
                Ok(None) => Ok(items),
            },
        }
    }
}

/// The items that a trader sells, from the data of the trader's list and the table of
/// prices. A list without an array under `items` is rejected with [`Error::Json`].
pub open spec fn trader_items_spec(assort: JsonValue, prices: JsonValue) -> Result<
    Seq<TraderItemView>,
    Error,
> {
    match assort.member("items"@) {
        Some(JsonValue::Array(entries)) => trader_entries_spec(entries, assort, prices),
        _ => Err(Error::Json),
    }
}

/// The values of some items for sale.
pub open spec fn trader_items_view(items: Seq<TraderItem>) -> Seq<TraderItemView> {
    Seq::new(items.len(), |i: int| items[i]@)
}

fn loyalty(assort: &Json, id: &str) -> (level: Option<u8>)
    ensures
        level == loyalty_of(assort@, id@),
{
    match assort.get("loyal_level_items") {
        Some(levels) => match levels.u64_at(id) {
            Some(level) => if level <= 255 {
                Some(level as u8)
            } else {
                None
            },
            None => None,
        },
        None => None,
    }
}

fn price<'a>(assort: &'a Json, prices: &'a Json, id: &str) -> (price: Option<&'a Json>)
    ensures
        match price {
            Some(p) => price_of(assort@, prices@, id@) == Some(p@),
            None => price_of(assort@, prices@, id@) is None,
        },
{
    let scheme = match assort.get("barter_scheme") {
        Some(schemes) => match schemes.get(id) {
            Some(scheme) => Some(scheme),
            None => prices.get(id),
        },
        None => prices.get(id),
    };
    match scheme {
        Some(scheme) => match scheme.as_array() {
            Some(entries) => if entries.len() > 0 {
                Some(&entries[0])
            } else {
                None
            },
            None => None,
        },
        None => None,
    }
}

fn trader_item(entry: &Json, assort: &Json, prices: &Json) -> (r: Result<Option<TraderItem>, Error>)
    ensures
        match r {
            Ok(Some(item)) => trader_item_spec(entry@, assort@, prices@) == Ok::<
                Option<TraderItemView>,
                Error,
            >(Some(item@)),
            Ok(None) => trader_item_spec(entry@, assort@, prices@) == Ok::<
                Option<TraderItemView>,
                Error,
            >(None),
            Err(e) => trader_item_spec(entry@, assort@, prices@) == Err::<
                Option<TraderItemView>,
                Error,
            >(e),
        },
{
    let (id, schema_id, parent) = match (
        entry.text_at("_id"),
        entry.text_at("_tpl"),
        entry.optional_text_at("parentId"),
    ) {
        (Some(id), Some(schema_id), Some(parent)) => (id, schema_id, parent),
        _ => {
            return Err(Error::Json);
        },
    };
    let in_hideout = match &parent {
        Some(p) => str_eq(p.as_str(), "hideout"),
        None => false,
    };
    if !in_hideout {
        return Ok(None);
    }
    match (loyalty(assort, id.as_str()), price(assort, prices, id.as_str())) {
        (Some(loyalty_level), Some(price)) => {
            let upd = match entry.get_present("upd") {
                Some(upd) => Some(upd.duplicate()),
                None => None,
            };
            Ok(Some(TraderItem { id, schema_id, upd, price: price.duplicate(), loyalty_level }))
        },
        _ => Err(Error::MissingData),
    }
}

/// Whether a result holds the items, or the error, that are expected of it.
pub open spec fn trader_items_are(
    r: Result<Vec<TraderItem>, Error>,
    expected: Result<Seq<TraderItemView>, Error>,
) -> bool {
    match r {
        Ok(items) => expected == Ok::<Seq<TraderItemView>, Error>(trader_items_view(items@)),
        Err(e) => expected == Err::<Seq<TraderItemView>, Error>(e),
    }
}

/// Puts together the items that a trader sells, from the data of the trader's list and
/// the table of prices.
pub fn trader_items(assort: &Json, prices: &Json) -> (r: Result<Vec<TraderItem>, Error>)
    ensures
        trader_items_are(r, trader_items_spec(assort@, prices@)),
{
    let entries = match assort.get("items") {
        Some(list) => match list.as_array() {
            Some(entries) => entries,
            None => {
                return Err(Error::Json);
            },
        },
        None => {
            return Err(Error::Json);
        },
    };
    let ghost all = assort@.member("items"@)->Some_0->Array_0;
    let mut items: Vec<TraderItem> = Vec::new();
    let mut i: usize = 0;
    assert(all.take(0) =~= Seq::empty());
    assert(trader_items_view(items@) =~= Seq::empty());
    while i < entries.len()
        invariant
            i <= entries.len(),
            all.len() == entries.len(),
            forall|k: int| 0 <= k < entries.len() ==> all[k] == #[trigger] entries[k]@,
            trader_entries_spec(all.take(i as int), assort@, prices@) == Ok::<
                Seq<TraderItemView>,
                Error,
            >(trader_items_view(items@)),
            trader_items_spec(assort@, prices@) == trader_entries_spec(all, assort@, prices@),
        decreases entries.len() - i,
    {
        let ghost before = trader_items_view(items@);
        proof {
            assert(all.take(i + 1).drop_last() =~= all.take(i as int));
            assert(all.take(i + 1).last() == entries[i as int]@);
        }
        match trader_item(&entries[i], assort, prices) {
            Ok(Some(item)) => {
                items.push(item);
                assert(trader_items_view(items@) =~= before.push(item@));
            },
            Ok(None) => {},
            Err(e) => {
                proof {
                    failed_entry_fails_all(all, assort@, prices@, i as int);
                }
                return Err(e);
            },
        }
        i += 1;
    }
    assert(all.take(i as int) =~= all);
    Ok(items)
}

proof fn failed_entry_fails_all(
    entries: Seq<JsonValue>,
    assort: JsonValue,
    prices: JsonValue,
    i: int,
)
    requires
        0 <= i < entries.len(),
        trader_entries_spec(entries.take(i), assort, prices) is Ok,
        trader_item_spec(entries[i], assort, prices) is Err,
    ensures
        trader_entries_spec(entries, assort, prices) == Err::<Seq<TraderItemView>, Error>(
            trader_item_spec(entries[i], assort, prices)->Err_0,
        ),
    decreases entries.len(),
{
    if i == entries.len() - 1 {
        assert(entries.drop_last() =~= entries.take(i));
    } else {
        assert(entries.drop_last().take(i) =~= entries.take(i));
        failed_entry_fails_all(entries.drop_last(), assort, prices, i);
    }
}

/// What the two replies to the calls for a trader's items give: the error of the first
/// reply that has one, else the items put together.
pub open spec fn get_trader_items_spec(assort: Reply, prices: Reply) -> Result<
    Seq<TraderItemView>,
    Error,
> {
    match crate::data_of_reply_spec(assort) {
        Err(e) => Err(e),
        Ok(assort) => match crate::data_of_reply_spec(prices) {
            Err(e) => Err(e),
            Ok(prices) => trader_items_spec(assort, prices),
        },
    }
}

/// The call for a trader by ID, or [`Error::InvalidParameters`] for an empty ID.
pub open spec fn trader_call_spec(t: TarkovView, path: Seq<char>, trader_id: Seq<char>) -> Result<
    RequestView,
    Error,
> {
    if trader_id.len() == 0 {
        Err(Error::InvalidParameters)
    } else {
        call_spec(t, t.config.trading_endpoint + path + trader_id, JsonValue::Null)
    }
}

/// The action that buys an item from a trader.
pub open spec fn trade_action(
    trader_id: Seq<char>,
    item_id: Seq<char>,
    quantity: u64,
    barter_items: Seq<BarterItem>,
) -> JsonValue {
    JsonValue::Object(
        seq![
            ("Action"@, JsonValue::Text("TradingConfirm"@)),
            ("type"@, JsonValue::Text("buy_from_trader"@)),
            ("tid"@, JsonValue::Text(trader_id)),
            ("item_id"@, JsonValue::Text(item_id)),
            ("count"@, JsonValue::Unsigned(quantity)),
            ("scheme_id"@, JsonValue::Unsigned(0)),
            ("scheme_items"@, barter_items_json(barter_items)),
        ],
    )
}

/// The call that buys an item from a trader, or [`Error::InvalidParameters`] where an ID
/// is empty, the quantity is zero or nothing is given in return.
pub open spec fn trade_item_spec(
    t: TarkovView,
    trader_id: Seq<char>,
    item_id: Seq<char>,
    quantity: u64,
    barter_items: Seq<BarterItem>,
) -> Result<RequestView, Error> {
    if trader_id.len() == 0 || item_id.len() == 0 || quantity == 0 || barter_items.len() == 0 {
        Err(Error::InvalidParameters)
    } else {
        call_spec(
            t,
            moving_url(t),
            moving_body(trade_action(trader_id, item_id, quantity, barter_items), 0),
        )
    }
}

/// The action that sells an item to a trader.
pub open spec fn sell_action(trader_id: Seq<char>, item_id: Seq<char>, quantity: u64) -> JsonValue {
    JsonValue::Object(
        seq![
            ("Action"@, JsonValue::Text("TradingConfirm"@)),
            ("type"@, JsonValue::Text("sell_to_trader"@)),
            ("tid"@, JsonValue::Text(trader_id)),
            (
                "items"@,
                JsonValue::Array(
                    seq![
                        JsonValue::Object(
                            seq![
                                ("id"@, JsonValue::Text(item_id)),
                                ("count"@, JsonValue::Unsigned(quantity)),
                                ("scheme_id"@, JsonValue::Unsigned(0)),
                            ],
                        ),
                    ],
                ),
            ),
        ],
    )
}

/// The call that sells an item to a trader, or [`Error::InvalidParameters`] where an ID
/// is empty or the quantity is zero.
pub open spec fn sell_item_spec(
    t: TarkovView,
    trader_id: Seq<char>,
    item_id: Seq<char>,
    quantity: u64,
) -> Result<RequestView, Error> {
    if trader_id.len() == 0 || item_id.len() == 0 || quantity == 0 {
        Err(Error::InvalidParameters)
    } else {
        call_spec(t, moving_url(t), moving_body(sell_action(trader_id, item_id, quantity), 0))
    }
}

impl Tarkov {
    /// The call for the list of all traders.
    pub fn get_traders(&self) -> (r: Result<Request, Error>)
        ensures
            request_result_is(
                r,
                call_spec(
                    self@,
                    self@.config.trading_endpoint + "/client/trading/api/getTradersList"@,
                    JsonValue::Null,
                ),
            ),
    {
        let url = join(
            self.config().trading_endpoint.as_str(),
            "/client/trading/api/getTradersList",
        );
        self.post_json(url, &Json::Null)
    }

    fn trader_call(&self, path: &str, trader_id: &str) -> (r: Result<Request, Error>)
        ensures
            request_result_is(r, trader_call_spec(self@, path@, trader_id@)),
    {
        if trader_id.is_empty() {
            return Err(Error::InvalidParameters);
        }
        let url = join(self.config().trading_endpoint.as_str(), path).concat(trader_id);
        self.post_json(url, &Json::Null)
    }

    /// The call for a trader by ID. Fails with [`Error::InvalidParameters`] for an empty
    /// ID.
    pub fn get_trader(&self, trader_id: &str) -> (r: Result<Request, Error>)
        ensures
            request_result_is(
                r,
                trader_call_spec(self@, "/client/trading/api/getTrader/"@, trader_id@),
            ),
    {
        self.trader_call("/client/trading/api/getTrader/", trader_id)
    }

    /// The call for the list of what a trader sells. Fails with
    /// [`Error::InvalidParameters`] for an empty ID.
    pub fn get_trader_items_raw(&self, trader_id: &str) -> (r: Result<Request, Error>)
        ensures
            request_result_is(
                r,
                trader_call_spec(self@, "/client/trading/api/getTraderAssort/"@, trader_id@),
            ),
    {
        self.trader_call("/client/trading/api/getTraderAssort/", trader_id)
    }

    /// The call for the table of a trader's prices. Fails with
    /// [`Error::InvalidParameters`] for an empty ID.
    pub fn get_trader_prices_raw(&self, trader_id: &str) -> (r: Result<Request, Error>)
        ensures
            request_result_is(
                r,
                trader_call_spec(
                    self@,
                    "/client/trading/api/getUserAssortPrice/trader/"@,
                    trader_id@,
                ),
            ),
    {
        self.trader_call("/client/trading/api/getUserAssortPrice/trader/", trader_id)
    }

    /// Puts together the items that a trader sells, from the replies to
    /// [`Tarkov::get_trader_items_raw`] and [`Tarkov::get_trader_prices_raw`].
    pub fn get_trader_items(assort: &Reply, prices: &Reply) -> (r: Result<Vec<TraderItem>, Error>)
        ensures
            trader_items_are(r, get_trader_items_spec(*assort, *prices)),
    {
        let assort = match crate::data_of_reply(assort) {
            Ok(data) => data,
            Err(e) => {
                return Err(e);
            },
        };
        let prices = match crate::data_of_reply(prices) {
            Ok(data) => data,
            Err(e) => {
                return Err(e);
            },
        };
        trader_items(&assort, &prices)
    }

    /// The call that buys an item from a trader. Every trade is a barter, also one for
    /// money: `barter_items` are the items of the inventory that make up the price.
    pub fn trade_item(
        &self,
        trader_id: &str,
        item_id: &str,
        quantity: u64,
        barter_items: &[BarterItem],
    ) -> (r: Result<Request, Error>)
        ensures
            request_result_is(
                r,
                trade_item_spec(self@, trader_id@, item_id@, quantity, barter_items@),
            ),
    {
        if trader_id.is_empty() || item_id.is_empty() || quantity == 0 || barter_items.len() == 0 {
            return Err(Error::InvalidParameters);
        }
        let mut action: Vec<Member> = Vec::new();
        action.push(member("Action", Json::text("TradingConfirm")));
        action.push(member("type", Json::text("buy_from_trader")));
        action.push(member("tid", Json::text(trader_id)));
        action.push(member("item_id", Json::text(item_id)));
        action.push(member("count", Json::Unsigned(quantity)));
        action.push(member("scheme_id", Json::Unsigned(0)));
        action.push(member("scheme_items", barter_items_to_json(barter_items)));
        let action = object(action);
        assert(action@->Object_0 =~= trade_action(
            trader_id@,
            item_id@,
            quantity,
            barter_items@,
        )->Object_0);
        let url = join(self.config().prod_endpoint.as_str(), "/client/game/profile/items/moving");
        self.post_json(url, &moving(action, 0))
    }

    /// Takes the changes to the inventory out of the reply to [`Tarkov::trade_item`].
    pub fn trade_item_result(reply: &Reply) -> (r: Result<Json, Error>)
        ensures
            json_result_is(r, moving_result_spec(*reply, false)),
    {
        moving_result(reply, false)
    }

    /// The call that sells an item to a trader.
    pub fn sell_item(&self, trader_id: &str, item_id: &str, quantity: u64) -> (r: Result<
        Request,
        Error,
    >)
        ensures
            request_result_is(r, sell_item_spec(self@, trader_id@, item_id@, quantity)),
    {
        if trader_id.is_empty() || item_id.is_empty() || quantity == 0 {
            return Err(Error::InvalidParameters);
        }
        let ghost expected = sell_action(trader_id@, item_id@, quantity);
        let mut item: Vec<Member> = Vec::new();
        item.push(member("id", Json::text(item_id)));
        item.push(member("count", Json::Unsigned(quantity)));
        item.push(member("scheme_id", Json::Unsigned(0)));
        let item = object(item);
        assert(item@->Object_0 =~= expected->Object_0[3].1->Array_0[0]->Object_0);
        let mut action: Vec<Member> = Vec::new();
        action.push(member("Action", Json::text("TradingConfirm")));
        action.push(member("type", Json::text("sell_to_trader")));
        action.push(member("tid", Json::text(trader_id)));
        action.push(member("items", Json::array1(item)));
        let action = object(action);
        assert(action@->Object_0 =~= expected->Object_0);
        let url = join(self.config().prod_endpoint.as_str(), "/client/game/profile/items/moving");
        self.post_json(url, &moving(action, 0))
    }

    /// Takes the changes to the inventory out of the reply to [`Tarkov::sell_item`].
    pub fn sell_item_result(reply: &Reply) -> (r: Result<Json, Error>)
        ensures
            json_result_is(r, moving_result_spec(*reply, false)),
    {
        moving_result(reply, false)
    }
}

} // verus!
