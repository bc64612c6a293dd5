//! The flea market calls and what they return.

use crate::http::{request_result_is, Reply, Request};
use crate::inventory::{
    barter_items_json, barter_items_to_json, moving, moving_body, moving_result,
    moving_result_spec, BarterItem,
};
use crate::json::{json_result_is, member, object, Json, JsonValue, Member};
use crate::market_filter::MarketFilter;
use crate::text::join;
use crate::{call_spec, Error, Tarkov, TarkovView};
use vstd::prelude::*;

verus! {

/// An error of the flea market calls.
#[derive(Debug, Clone, Copy, PartialEq, Eq, Structural)]
pub enum RagfairError {
    /// The offer cannot be bought yet.
    OfferNotAvailableYet,
    /// The offer does not exist.
    OfferNotFound,
    /// The items offered in barter were not found or do not suffice.
    InvalidBarterItems,
    /// The player has as many open offers as the market allows.
    MaxOfferCount,
    /// The player cannot pay the market fee.
    InsufficientTaxFunds,
}

/// What is asked in return for an offer.
#[derive(Debug, PartialEq)]
pub struct Requirement {
    /// Item localization schema ID
    pub schema_id: String,
    /// Item count: a JSON number.
    pub count: Json,
}

impl View for Requirement {
    type V = (Seq<char>, JsonValue);

    open spec fn view(&self) -> (Seq<char>, JsonValue) {
        (self.schema_id@, self.count@)
    }
}

/// A number that may be absent, with `0` in the place of none.
pub open spec fn or_zero(n: Option<u64>) -> u64 {
    match n {
        Some(n) => n,
        None => 0,
    }
}

/// A text that may be absent, with the empty text in the place of none.
pub open spec fn or_empty(text: Option<&str>) -> Seq<char> {
    match text {
        Some(t) => t@,
        None => ""@,
    }
}

/// The body of a search on the flea market: the page and its size, the filter field by
/// field with `0` and the empty text for what is not set, and the two constants that the
/// game client sends.
pub open spec fn search_body(page: u64, limit: u64, filter: MarketFilter) -> JsonValue {
    JsonValue::Object(
        seq![
            ("page"@, JsonValue::Unsigned(page)),
            ("limit"@, JsonValue::Unsigned(limit)),
            ("sortType"@, JsonValue::Unsigned(filter.sort_type.code_spec() as u64)),
            ("sortDirection"@, JsonValue::Unsigned(filter.sort_direction.code_spec() as u64)),
            ("currency"@, JsonValue::Unsigned(filter.currency.code_spec() as u64)),
            ("priceFrom"@, JsonValue::Unsigned(or_zero(filter.min_price))),
            ("priceTo"@, JsonValue::Unsigned(or_zero(filter.max_price))),
            ("quantityFrom"@, JsonValue::Unsigned(or_zero(filter.min_quantity))),
            ("quantityTo"@, JsonValue::Unsigned(or_zero(filter.max_quantity))),
            ("conditionFrom"@, JsonValue::Unsigned(or_zero(filter.min_condition))),
            ("conditionTo"@, JsonValue::Unsigned(or_zero(filter.max_condition))),
            ("oneHourExpiration"@, JsonValue::Bool(filter.expiring_within_hour)),
            ("removeBartering"@, JsonValue::Bool(filter.hide_bartering_offers)),
            ("offerOwnerType"@, JsonValue::Unsigned(filter.owner_type.code_spec() as u64)),
            ("onlyFunctional"@, JsonValue::Bool(filter.hide_inoperable_weapons)),
            ("updateOfferCount"@, JsonValue::Bool(true)),
            ("handbookId"@, JsonValue::Text(or_empty(filter.handbook_id))),
            ("linkedSearchId"@, JsonValue::Text(or_empty(filter.linked_search_id))),
            ("neededSearchId"@, JsonValue::Text(or_empty(filter.required_search_id))),
            ("tm"@, JsonValue::Unsigned(1)),
        ],
    )
}

fn number_or_zero(n: Option<u64>) -> (j: Json)
    ensures
        j@ == JsonValue::Unsigned(or_zero(n)),
{
    match n {
        Some(n) => Json::Unsigned(n),
        None => Json::Unsigned(0),
    }
}

fn text_or_empty(text: Option<&str>) -> (j: Json)
    ensures
        j@ == JsonValue::Text(or_empty(text)),
{
    match text {
        Some(t) => Json::text(t),
        None => Json::text(""),
    }
}

/// The body that asks for the price of an item.
pub open spec fn price_body(schema_id: Seq<char>) -> JsonValue {
    JsonValue::Object(seq![("templateId"@, JsonValue::Text(schema_id))])
}

/// The action that buys from an offer on the flea market.
pub open spec fn buy_action(
    offer_id: Seq<char>,
    quantity: u64,
    barter_items: Seq<BarterItem>,
) -> JsonValue {
    JsonValue::Object(
        seq![
            ("Action"@, JsonValue::Text("RagFairBuyOffer"@)),
            (
                "offers"@,
                JsonValue::Array(
                    seq![
                        JsonValue::Object(
                            seq![
                                ("id"@, JsonValue::Text(offer_id)),
                                ("count"@, JsonValue::Unsigned(quantity)),
                                ("items"@, barter_items_json(barter_items)),
                            ],
                        ),
                    ],
                ),
            ),
        ],
    )
}

/// The object that stands for what is asked in return for an offer: any level, any side,
/// working or not.
pub open spec fn requirement_json(requirement: (Seq<char>, JsonValue)) -> JsonValue {
    JsonValue::Object(
        seq![
            ("_tpl"@, JsonValue::Text(requirement.0)),
            ("count"@, requirement.1),
            ("level"@, JsonValue::Unsigned(0)),
            ("side"@, JsonValue::Unsigned(0)),
            ("onlyFunctional"@, JsonValue::Bool(false)),
        ],
    )
}

/// The action that puts items up for sale on the flea market.
pub open spec fn offer_action(
    items: Seq<&str>,
    requirements: Seq<Requirement>,
    sell_all: bool,
) -> JsonValue {
    JsonValue::Object(
        seq![
            ("Action"@, JsonValue::Text("RagFairAddOffer"@)),
            ("sellInOnePiece"@, JsonValue::Bool(sell_all)),
            (
                "items"@,
                JsonValue::Array(Seq::new(items.len(), |i: int| JsonValue::Text(items[i]@))),
            ),
            (
                "requirements"@,
                JsonValue::Array(
                    Seq::new(requirements.len(), |i: int| requirement_json(requirements[i]@)),
                ),
            ),
        ],
    )
}

/// The address of every call that moves items.
pub open spec fn moving_url(t: TarkovView) -> Seq<char> {
    t.config.prod_endpoint + "/client/game/profile/items/moving"@
}

impl Tarkov {
    /// The call that searches the flea market.
    pub fn search_market(&self, page: u64, limit: u64, filter: MarketFilter<'_>) -> (r: Result<
        Request,
        Error,
    >)
        ensures
            request_result_is(
                r,
                call_spec(
                    self@,
                    self@.config.ragfair_endpoint + "/client/ragfair/find"@,
                    search_body(page, limit, filter),
                ),
            ),
    {
        let mut members: Vec<Member> = Vec::new();
        members.push(member("page", Json::Unsigned(page)));
        members.push(member("limit", Json::Unsigned(limit)));
        members.push(member("sortType", Json::Unsigned(filter.sort_type.code() as u64)));
        members.push(member("sortDirection", Json::Unsigned(filter.sort_direction.code() as u64)));
        members.push(member("currency", Json::Unsigned(filter.currency.code() as u64)));
        members.push(member("priceFrom", number_or_zero(filter.min_price)));
        members.push(member("priceTo", number_or_zero(filter.max_price)));
        members.push(member("quantityFrom", number_or_zero(filter.min_quantity)));
        members.push(member("quantityTo", number_or_zero(filter.max_quantity)));
        members.push(member("conditionFrom", number_or_zero(filter.min_condition)));
        members.push(member("conditionTo", number_or_zero(filter.max_condition)));
        members.push(member("oneHourExpiration", Json::Bool(filter.expiring_within_hour)));
        members.push(member("removeBartering", Json::Bool(filter.hide_bartering_offers)));
        members.push(member("offerOwnerType", Json::Unsigned(filter.owner_type.code() as u64)));
        members.push(member("onlyFunctional", Json::Bool(filter.hide_inoperable_weapons)));
        members.push(member("updateOfferCount", Json::Bool(true)));
        members.push(member("handbookId", text_or_empty(filter.handbook_id)));
        members.push(member("linkedSearchId", text_or_empty(filter.linked_search_id)));
        members.push(member("neededSearchId", text_or_empty(filter.required_search_id)));
        members.push(member("tm", Json::Unsigned(1)));
        let body = object(members);
        assert(body@->Object_0 =~= search_body(page, limit, filter)->Object_0);
        let url = join(self.config().ragfair_endpoint.as_str(), "/client/ragfair/find");
        self.post_json(url, &body)
    }

    /// The call for the price of an item on the flea market.
    pub fn get_item_price(&self, schema_id: &str) -> (r: Result<Request, Error>)
        ensures
            request_result_is(
                r,
                call_spec(
                    self@,
                    self@.config.ragfair_endpoint + "/client/ragfair/itemMarketPrice"@,
                    price_body(schema_id@),
                ),
            ),
    {
        let mut members: Vec<Member> = Vec::new();
        members.push(member("templateId", Json::text(schema_id)));
        let body = object(members);
        assert(body@->Object_0 =~= price_body(schema_id@)->Object_0);
        let url = join(self.config().ragfair_endpoint.as_str(), "/client/ragfair/itemMarketPrice");
        self.post_json(url, &body)
    }

    /// The call that buys from an offer on the flea market, with the items that pay for
    /// it.
    pub fn buy_item(&self, offer_id: &str, quantity: u64, barter_items: &[BarterItem]) -> (r:
        Result<Request, Error>)
        ensures
            request_result_is(
                r,
                call_spec(
                    self@,
                    moving_url(self@),
                    moving_body(buy_action(offer_id@, quantity, barter_items@), 2),
                ),
            ),
    {
        let mut offer: Vec<Member> = Vec::new();
        offer.push(member("id", Json::text(offer_id)));
        offer.push(member("count", Json::Unsigned(quantity)));
        offer.push(member("items", barter_items_to_json(barter_items)));
        let offer = object(offer);
        let ghost expected = buy_action(offer_id@, quantity, barter_items@);
        assert(offer@->Object_0 =~= expected->Object_0[1].1->Array_0[0]->Object_0);
        let mut action: Vec<Member> = Vec::new();
        action.push(member("Action", Json::text("RagFairBuyOffer")));
        action.push(member("offers", Json::array1(offer)));
        let action = object(action);
        assert(action@->Object_0 =~= expected->Object_0);
        let url = join(self.config().prod_endpoint.as_str(), "/client/game/profile/items/moving");
        self.post_json(url, &moving(action, 2))
    }

    /// Takes the changes to the inventory out of the reply to [`Tarkov::buy_item`]. An
    /// offer that is gone gives [`RagfairError::OfferNotFound`].
    pub fn buy_item_result(reply: &Reply) -> (r: Result<Json, Error>)
        ensures
            json_result_is(r, moving_result_spec(*reply, true)),
    {
        moving_result(reply, true)
    }

    /// The call that puts items up for sale on the flea market.
    pub fn offer_item(&self, items: &[&str], requirements: &[Requirement], sell_all: bool) -> (r:
        Result<Request, Error>)
        ensures
            request_result_is(
                r,
                call_spec(
                    self@,
                    moving_url(self@),
                    moving_body(offer_action(items@, requirements@, sell_all), 2),
                ),
            ),
    {
        let ghost expected = offer_action(items@, requirements@, sell_all);
        let mut ids: Vec<Json> = Vec::new();
        let mut i: usize = 0;
        while i < items.len()
            invariant
                i <= items.len(),
                ids.len() == i,
                forall|k: int| 0 <= k < i ==> (#[trigger] ids[k])@ == JsonValue::Text(items[k]@),
            decreases items.len() - i,
        {
            ids.push(Json::text(items[i]));
            i += 1;
        }
        let ids = Json::array(ids);
        assert(ids@->Array_0 =~= expected->Object_0[2].1->Array_0);
        let mut wanted: Vec<Json> = Vec::new();
        let mut i: usize = 0;
        while i < requirements.len()
            invariant
                i <= requirements.len(),
                wanted.len() == i,
                forall|k: int|
                    0 <= k < i ==> (#[trigger] wanted[k])@ == requirement_json(requirements[k]@),
            decreases requirements.len() - i,
        {
            let mut entry: Vec<Member> = Vec::new();
            entry.push(member("_tpl", Json::text(requirements[i].schema_id.as_str())));
            entry.push(member("count", requirements[i].count.duplicate()));
            entry.push(member("level", Json::Unsigned(0)));
            entry.push(member("side", Json::Unsigned(0)));
            entry.push(member("onlyFunctional", Json::Bool(false)));
            let entry = object(entry);
            assert(entry@->Object_0 =~= requirement_json(requirements[i as int]@)->Object_0);
            wanted.push(entry);
            i += 1;
        }
        let wanted = Json::array(wanted);
        assert(wanted@->Array_0 =~= expected->Object_0[3].1->Array_0);
        let mut action: Vec<Member> = Vec::new();
        action.push(member("Action", Json::text("RagFairAddOffer")));
        action.push(member("sellInOnePiece", Json::Bool(sell_all)));
        action.push(member("items", ids));
        action.push(member("requirements", wanted));
        let action = object(action);
        assert(action@->Object_0 =~= expected->Object_0);
        let url = join(self.config().prod_endpoint.as_str(), "/client/game/profile/items/moving");
        self.post_json(url, &moving(action, 2))
    }

    /// Takes the changes to the inventory out of the reply to [`Tarkov::offer_item`].
    pub fn offer_item_result(reply: &Reply) -> (r: Result<Json, Error>)
        ensures
            json_result_is(r, moving_result_spec(*reply, false)),
    {
        moving_result(reply, false)
    }
}

} // verus!
